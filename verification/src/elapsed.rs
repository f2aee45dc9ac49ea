//! Spans of time.

use vstd::prelude::*;

verus! {

/// Nanoseconds in a second.
pub const NANOS_PER_SEC: u32 = 1_000_000_000;

/// Nanoseconds in a millisecond.
pub const NANOS_PER_MILLI: u32 = 1_000_000;

/// Milliseconds in a second.
pub const MILLIS_PER_SEC: u64 = 1_000;

/// The longest span that can be held, in nanoseconds.
pub open spec fn max_nanos() -> nat {
    (u64::MAX * NANOS_PER_SEC + (NANOS_PER_SEC - 1)) as nat
}

/// A span of time: whole seconds and the nanoseconds beyond them.
///
/// Its view is the span in nanoseconds, at most `max_nanos()`.
#[derive(Clone, Copy, Debug, PartialEq, Eq, Structural)]
pub struct Elapsed {
    secs: u64,
    subsec_nanos: u32,
}

impl View for Elapsed {
    type V = nat;

    closed spec fn view(&self) -> nat {
        (self.secs * NANOS_PER_SEC + self.subsec_nanos) as nat
    }
}

impl Elapsed {
    /// The nanoseconds beyond the whole seconds are less than a second.
    #[verifier::type_invariant]
    pub closed spec fn wf(self) -> bool {
        self.subsec_nanos < NANOS_PER_SEC
    }

    /// The span of `nanos` nanoseconds.
    pub closed spec fn of_nanos(nanos: nat) -> Elapsed {
        Elapsed {
            secs: (nanos / NANOS_PER_SEC as nat) as u64,
            subsec_nanos: (nanos % NANOS_PER_SEC as nat) as u32,
        }
    }

    /// A span that can be held is well formed and lasts as long as it says.
    pub broadcast proof fn lemma_of_nanos(nanos: nat)
        requires
            nanos <= max_nanos(),
        ensures
            (#[trigger] Self::of_nanos(nanos)).wf(),
            Self::of_nanos(nanos)@ == nanos,
    {
    }

    /// A well-formed span is the span of its length, and its length can be held.
    pub proof fn lemma_of_view(self)
        requires
            self.wf(),
        ensures
            self == Self::of_nanos(self@),
            self@ <= max_nanos(),
    {
    }

    /// The span of no time at all.
    pub fn zero() -> (r: Elapsed)
        ensures
            r == Self::of_nanos(0),
            r@ == 0,
    {
        Elapsed { secs: 0, subsec_nanos: 0 }
    }

    /// The span of `secs` seconds and `nanos` nanoseconds, none if it is too
    /// long to be held.
    pub fn new(secs: u64, nanos: u32) -> (r: Option<Elapsed>)
        ensures
            match r {
                Some(span) => secs * NANOS_PER_SEC + nanos <= max_nanos() && span == Self::of_nanos(
                    (secs * NANOS_PER_SEC + nanos) as nat,
                ) && span@ == secs * NANOS_PER_SEC + nanos,
                None => secs * NANOS_PER_SEC + nanos > max_nanos(),
            },
    {
        let carry: u64 = (nanos / NANOS_PER_SEC) as u64;
        match secs.checked_add(carry) {
            Some(secs) => Some(Elapsed { secs, subsec_nanos: nanos % NANOS_PER_SEC }),
            None => None,
        }
    }

    /// The span of `secs` seconds and `subsec_nanos` nanoseconds, which are
    /// less than a second.
    pub fn from_parts(secs: u64, subsec_nanos: u32) -> (r: Elapsed)
        requires
            subsec_nanos < NANOS_PER_SEC,
        ensures
            r == Self::of_nanos((secs * NANOS_PER_SEC + subsec_nanos) as nat),
            r@ == secs * NANOS_PER_SEC + subsec_nanos,
    {
        Elapsed { secs, subsec_nanos }
    }

    /// The span of `secs` seconds.
    pub fn from_secs(secs: u64) -> (r: Elapsed)
        ensures
            r == Self::of_nanos((secs * NANOS_PER_SEC) as nat),
            r@ == secs * NANOS_PER_SEC,
    {
        Elapsed { secs, subsec_nanos: 0 }
    }

    /// The span of `millis` milliseconds.
    pub fn from_millis(millis: u64) -> (r: Elapsed)
        ensures
            r == Self::of_nanos((millis * NANOS_PER_MILLI) as nat),
            r@ == millis * NANOS_PER_MILLI,
    {
        Elapsed {
            secs: millis / MILLIS_PER_SEC,
            subsec_nanos: ((millis % MILLIS_PER_SEC) as u32) * NANOS_PER_MILLI,
        }
    }

    /// The span of `nanos` nanoseconds.
    pub fn from_nanos(nanos: u64) -> (r: Elapsed)
        ensures
            r == Self::of_nanos(nanos as nat),
            r@ == nanos,
    {
        let secs: u64 = nanos / 1_000_000_000;
        let subsec_nanos: u32 = (nanos % 1_000_000_000) as u32;
        assert(secs * 1_000_000_000 + subsec_nanos == nanos);
        Elapsed { secs, subsec_nanos }
    }

    /// The whole seconds of the span.
    pub fn as_secs(&self) -> (secs: u64)
        ensures
            secs == self@ / NANOS_PER_SEC as nat,
    {
        proof {
            use_type_invariant(self);
        }
        self.secs
    }

    /// The nanoseconds of the span beyond its whole seconds.
    pub fn subsec_nanos(&self) -> (nanos: u32)
        ensures
            nanos == self@ % NANOS_PER_SEC as nat,
            nanos < NANOS_PER_SEC,
    {
        proof {
            use_type_invariant(self);
        }
        self.subsec_nanos
    }

    /// The whole milliseconds of the span.
    pub fn as_millis(&self) -> (millis: u128)
        ensures
            millis == self@ / NANOS_PER_MILLI as nat,
    {
        proof {
            use_type_invariant(self);
        }
        let secs: u128 = self.secs as u128;
        let millis: u128 = (self.subsec_nanos / 1_000_000) as u128;
        secs * 1_000 + millis
    }

    /// The span in nanoseconds.
    pub fn as_nanos(&self) -> (nanos: u128)
        ensures
            nanos == self@,
    {
        proof {
            use_type_invariant(self);
        }
        let secs: u128 = self.secs as u128;
        secs * 1_000_000_000 + self.subsec_nanos as u128
    }

    /// Whether this span is shorter than `other`.
    pub fn is_shorter_than(&self, other: &Elapsed) -> (shorter: bool)
        ensures
            shorter == (self@ < other@),
    {
        proof {
            use_type_invariant(self);
            use_type_invariant(other);
        }
        self.secs < other.secs || (self.secs == other.secs && self.subsec_nanos
            < other.subsec_nanos)
    }

    /// This span and `other`, one after the other.
    pub fn plus(&self, other: &Elapsed) -> (sum: Elapsed)
        requires
            self@ + other@ <= max_nanos(),
        ensures
            sum == Self::of_nanos(self@ + other@),
            sum@ == self@ + other@,
    {
        proof {
            use_type_invariant(self);
            use_type_invariant(other);
        }
        let nanos: u32 = self.subsec_nanos + other.subsec_nanos;
        if nanos >= NANOS_PER_SEC {
            Elapsed { secs: self.secs + other.secs + 1, subsec_nanos: nanos - NANOS_PER_SEC }
        } else {
            Elapsed { secs: self.secs + other.secs, subsec_nanos: nanos }
        }
    }

    /// This span and `other`, one after the other; none if that is too long
    /// to be held.
    pub fn checked_add(&self, other: &Elapsed) -> (r: Option<Elapsed>)
        ensures
            match r {
                Some(sum) => self@ + other@ <= max_nanos() && sum == Self::of_nanos(
                    self@ + other@,
                ) && sum@ == self@ + other@,
                None => self@ + other@ > max_nanos(),
            },
    {
        proof {
            use_type_invariant(self);
            use_type_invariant(other);
        }
        let nanos: u32 = self.subsec_nanos + other.subsec_nanos;
        let carry: u64 = if nanos >= NANOS_PER_SEC {
            1
        } else {
            0
        };
        let subsec_nanos: u32 = if nanos >= NANOS_PER_SEC {
            nanos - NANOS_PER_SEC
        } else {
            nanos
        };
        let secs = match self.secs.checked_add(other.secs) {
            Some(secs) => secs,
            None => { return None; },
        };
        match secs.checked_add(carry) {
            Some(secs) => Some(Elapsed { secs, subsec_nanos }),
            None => None,
        }
    }
}

} // verus!
