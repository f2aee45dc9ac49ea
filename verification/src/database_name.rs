//! Database names of the form `<org id>_<bucket id>`, both ids in hexadecimal.

use crate::text::{chars_of, string_of};
use vstd::prelude::*;
use vstd::string::StringExecFns;

verus! {

/// Why a text is not a hexadecimal number of 64 bits.
#[derive(Clone, Copy, Debug, PartialEq, Eq, Structural)]
pub enum HexError {
    /// The text is empty.
    Empty,
    /// A character is no hexadecimal digit.
    InvalidDigit,
    /// The number does not fit 64 bits.
    Overflow,
}

impl HexError {
    /// The fault in words.
    pub open spec fn message(self) -> Seq<char> {
        match self {
            HexError::Empty => "cannot parse integer from empty string"@,
            HexError::InvalidDigit => "invalid digit found in string"@,
            HexError::Overflow => "number too large to fit in target type"@,
        }
    }

    /// Says the fault in words.
    pub fn to_string(&self) -> (out: String)
        ensures
            out@ == self.message(),
    {
        match self {
            HexError::Empty => "cannot parse integer from empty string".to_owned(),
            HexError::InvalidDigit => "invalid digit found in string".to_owned(),
            HexError::Overflow => "number too large to fit in target type".to_owned(),
        }
    }
}

/// The value of a hexadecimal digit, of either case.
pub open spec fn hex_digit(c: char) -> Option<nat> {
    if '0' <= c <= '9' {
        Some((c as u32 - '0' as u32) as nat)
    } else if 'a' <= c <= 'f' {
        Some((c as u32 - 'a' as u32 + 10) as nat)
    } else if 'A' <= c <= 'F' {
        Some((c as u32 - 'A' as u32 + 10) as nat)
    } else {
        None
    }
}

/// The number that `digits` continue, where `value` is what the digits before
/// them gave. The first character that is no digit, or that takes the number
/// beyond 64 bits, decides the error.
pub open spec fn hex_digits_value(digits: Seq<char>, value: nat) -> Result<nat, HexError>
    decreases digits.len(),
{
    if digits.len() == 0 {
        Ok(value)
    } else {
        match hex_digit(digits[0]) {
            Some(digit) => if value * 16 + digit > u64::MAX {
                Err(HexError::Overflow)
            } else {
                hex_digits_value(digits.drop_first(), value * 16 + digit)
            },
            None => Err(HexError::InvalidDigit),
        }
    }
}

/// The 64-bit number that `text` writes in hexadecimal: one or more digits of
/// either case, and nothing else.
pub open spec fn hex_value(text: Seq<char>) -> Result<nat, HexError> {
    if text.len() == 0 {
        Err(HexError::Empty)
    } else {
        hex_digits_value(text, 0)
    }
}

/// The value of the hexadecimal digit `c`.
pub fn hex_digit_of(c: char) -> (r: Option<u64>)
    ensures
        match r {
            Some(digit) => hex_digit(c) == Some(digit as nat),
            None => hex_digit(c) is None,
        },
{
    let code: u32 = c as u32;
    if '0' as u32 <= code && code <= '9' as u32 {
        Some((code - '0' as u32) as u64)
    } else if 'a' as u32 <= code && code <= 'f' as u32 {
        Some((code - 'a' as u32 + 10) as u64)
    } else if 'A' as u32 <= code && code <= 'F' as u32 {
        Some((code - 'A' as u32 + 10) as u64)
    } else {
        None
    }
}

/// Reads the characters of `chars` from `start` up to `end` as a hexadecimal
/// number of 64 bits.
pub fn parse_hex(chars: &Vec<char>, start: usize, end: usize) -> (r: Result<u64, HexError>)
    requires
        start <= end <= chars.len(),
    ensures
        match r {
            Ok(value) => hex_value(chars@.subrange(start as int, end as int)) == Ok::<
                nat,
                HexError,
            >(value as nat),
            Err(kind) => hex_value(chars@.subrange(start as int, end as int)) == Err::<
                nat,
                HexError,
            >(kind),
        },
{
    let ghost text = chars@.subrange(start as int, end as int);
    if start == end {
        return Err(HexError::Empty);
    }
    let mut i: usize = start;
    let mut value: u64 = 0;
    while i < end
        invariant
            start <= i <= end <= chars.len(),
            text == chars@.subrange(start as int, end as int),
            hex_digits_value(chars@.subrange(i as int, end as int), value as nat) == hex_value(
                text,
            ),
        decreases end - i,
    {
        let ghost digits = chars@.subrange(i as int, end as int);
        assert(digits.drop_first() =~= chars@.subrange(i + 1, end as int));
        assert(digits[0] == chars@[i as int]);
        let digit = match hex_digit_of(chars[i]) {
            Some(digit) => digit,
            None => { return Err(HexError::InvalidDigit); },
        };
        if value > (u64::MAX - digit) / 16 {
            return Err(HexError::Overflow);
        }
        value = value * 16 + digit;
        i += 1;
    }
    Ok(value)
}

/// Where the piece of `name` that begins at `start` ends: at the next
/// underscore, or at the end of the name.
pub open spec fn piece_end(name: Seq<char>, start: int) -> int
    decreases name.len() - start,
{
    if start >= name.len() {
        name.len() as int
    } else if name[start] == '_' {
        start
    } else {
        piece_end(name, start + 1)
    }
}

/// The piece of `name` that begins at `start`.
pub open spec fn piece(name: Seq<char>, start: int) -> Seq<char> {
    name.subrange(start, piece_end(name, start))
}

/// A piece ends at or behind its start, within the name.
pub proof fn lemma_piece_end_bounds(name: Seq<char>, start: int)
    requires
        0 <= start <= name.len(),
    ensures
        start <= piece_end(name, start) <= name.len(),
    decreases name.len() - start,
{
    if start < name.len() && name[start] != '_' {
        lemma_piece_end_bounds(name, start + 1);
    }
}

/// Finds the end of the piece of `chars` that begins at `start`.
pub fn find_piece_end(chars: &Vec<char>, start: usize) -> (end: usize)
    requires
        start <= chars.len(),
    ensures
        end == piece_end(chars@, start as int),
        start <= end <= chars.len(),
{
    let mut end: usize = start;
    while end < chars.len() && chars[end] != '_'
        invariant
            start <= end <= chars.len(),
            piece_end(chars@, end as int) == piece_end(chars@, start as int),
        decreases chars.len() - end,
    {
        end += 1;
    }
    end
}

/// Why a database name does not give an organization and a bucket.
#[derive(Clone, Debug, PartialEq, Eq)]
pub enum NameError {
    /// The piece before the first underscore is no hexadecimal number.
    InvalidOrgId { org_id: String, kind: HexError },
    /// The name holds no underscore, so no bucket follows the organization.
    MissingBucket { database_name: String },
    /// The piece behind the first underscore is no hexadecimal number.
    InvalidBucketId { bucket_id: String, kind: HexError },
    /// A second underscore follows the bucket; `content` is the piece behind it.
    TrailingContent { content: String, database_name: String },
}

/// What a `NameError` says, with its texts as sequences of characters.
pub enum NameErrorView {
    InvalidOrgId { org_id: Seq<char>, kind: HexError },
    MissingBucket { database_name: Seq<char> },
    InvalidBucketId { bucket_id: Seq<char>, kind: HexError },
    TrailingContent { content: Seq<char>, database_name: Seq<char> },
}

impl View for NameError {
    type V = NameErrorView;

    open spec fn view(&self) -> NameErrorView {
        match self {
            NameError::InvalidOrgId { org_id, kind } => NameErrorView::InvalidOrgId {
                org_id: org_id@,
                kind: *kind,
            },
            NameError::MissingBucket { database_name } => NameErrorView::MissingBucket {
                database_name: database_name@,
            },
            NameError::InvalidBucketId { bucket_id, kind } => NameErrorView::InvalidBucketId {
                bucket_id: bucket_id@,
                kind: *kind,
            },
            NameError::TrailingContent { content, database_name } => NameErrorView::TrailingContent {
                content: content@,
                database_name: database_name@,
            },
        }
    }
}

impl NameErrorView {
    /// The fault in words.
    pub open spec fn message(self) -> Seq<char> {
        match self {
            NameErrorView::InvalidOrgId { org_id, kind } => "Can not parse org_id '"@ + org_id
                + "' into u64, required for storage rpc requests: "@ + kind.message(),
            NameErrorView::MissingBucket { database_name } =>
                "Can not find bucket name after a '_' in "@ + database_name,
            NameErrorView::InvalidBucketId { bucket_id, kind } => "Can not parse bucket_id '"@
                + bucket_id + "' into u64, required for storage rpc requests: "@ + kind.message(),
            NameErrorView::TrailingContent { content, database_name } =>
                "Extra trailing content '"@ + content + "' after org and bucket in "@
                    + database_name,
        }
    }
}

impl NameError {
    /// Says the fault in words.
    pub fn to_string(&self) -> (out: String)
        ensures
            out@ == self@.message(),
    {
        match self {
            NameError::InvalidOrgId { org_id, kind } => {
                let mut out = "Can not parse org_id '".to_owned();
                out.append(org_id.as_str());
                out.append("' into u64, required for storage rpc requests: ");
                out.append(kind.to_string().as_str());
                out
            },
            NameError::MissingBucket { database_name } => {
                let mut out = "Can not find bucket name after a '_' in ".to_owned();
                out.append(database_name.as_str());
                out
            },
            NameError::InvalidBucketId { bucket_id, kind } => {
                let mut out = "Can not parse bucket_id '".to_owned();
                out.append(bucket_id.as_str());
                out.append("' into u64, required for storage rpc requests: ");
                out.append(kind.to_string().as_str());
                out
            },
            NameError::TrailingContent { content, database_name } => {
                let mut out = "Extra trailing content '".to_owned();
                out.append(content.as_str());
                out.append("' after org and bucket in ");
                out.append(database_name.as_str());
                out
            },
        }
    }
}

/// The organization id and bucket id that a database name gives, or why it
/// gives none.
///
/// The name is cut at its underscores. The first piece is the organization
/// id, the second the bucket id, and there must be no third. The pieces are
/// looked at in this order, and the first fault decides the error.
pub open spec fn parsed_name(name: Seq<char>) -> Result<(u64, u64), NameErrorView> {
    let org_end = piece_end(name, 0);
    let bucket_end = piece_end(name, org_end + 1);
    match hex_value(piece(name, 0)) {
        Err(kind) => Err(NameErrorView::InvalidOrgId { org_id: piece(name, 0), kind }),
        Ok(org_id) => if org_end == name.len() {
            Err(NameErrorView::MissingBucket { database_name: name })
        } else {
            match hex_value(piece(name, org_end + 1)) {
                Err(kind) => Err(
                    NameErrorView::InvalidBucketId { bucket_id: piece(name, org_end + 1), kind },
                ),
                Ok(bucket_id) => if bucket_end == name.len() {
                    Ok((org_id as u64, bucket_id as u64))
                } else {
                    Err(
                        NameErrorView::TrailingContent {
                            content: piece(name, bucket_end + 1),
                            database_name: name,
                        },
                    )
                },
            }
        },
    }
}

/// Reads the organization id and the bucket id out of a database name.
pub fn parse_database_name(database_name: &str) -> (r: Result<(u64, u64), NameError>)
    ensures
        match r {
            Ok(ids) => parsed_name(database_name@) == Ok::<(u64, u64), NameErrorView>(ids),
            Err(e) => parsed_name(database_name@) == Err::<(u64, u64), NameErrorView>(e@),
        },
{
    let chars = chars_of(database_name);
    let org_end = find_piece_end(&chars, 0);
    let org_id = match parse_hex(&chars, 0, org_end) {
        Ok(org_id) => org_id,
        Err(kind) => {
            return Err(NameError::InvalidOrgId { org_id: string_of(&chars, 0, org_end), kind });
        },
    };
    if org_end == chars.len() {
        return Err(NameError::MissingBucket { database_name: database_name.to_owned() });
    }
    let bucket_end = find_piece_end(&chars, org_end + 1);
    let bucket_id = match parse_hex(&chars, org_end + 1, bucket_end) {
        Ok(bucket_id) => bucket_id,
        Err(kind) => {
            return Err(
                NameError::InvalidBucketId {
                    bucket_id: string_of(&chars, org_end + 1, bucket_end),
                    kind,
                },
            );
        },
    };
    if bucket_end == chars.len() {
        return Ok((org_id, bucket_id));
    }
    let extra_end = find_piece_end(&chars, bucket_end + 1);
    Err(
        NameError::TrailingContent {
            content: string_of(&chars, bucket_end + 1, extra_end),
            database_name: database_name.to_owned(),
        },
    )
}

} // verus!
