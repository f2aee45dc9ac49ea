//! Captured queries: free text, or a structured storage request.

use crate::database_name::{NameError, NameErrorView};
use crate::read_source::{
    blob_of, make_read_source, made_read_source, read_source_of, Any, AnyView, ReadSource,
};
use crate::text::{chars_of, decimal, decimal_text, push_char, same_text};
use vstd::prelude::*;
use vstd::string::StringExecFns;

verus! {

/// A filtered read of the storage interface.
///
/// Of the request only the read source is taken apart; the rest stays in
/// `text`, the readable encoding in which the request was captured. Whoever
/// sends the request takes the read source from `read_source`.
#[derive(Clone, Debug, PartialEq, Eq)]
pub struct ReadFilterRequest {
    pub read_source: Option<Any>,
    pub text: String,
}

/// The kind of storage request that a log entry holds.
#[derive(Clone, Debug, PartialEq, Eq)]
pub enum StorageRpc {
    ReadFilter(ReadFilterRequest),
}

/// A captured query.
#[derive(Clone, Debug, PartialEq, Eq)]
pub enum Query {
    /// The text of an SQL query.
    Sql(String),
    /// A request to the storage interface.
    StorageRpc(StorageRpc),
}

/// Why a query could not be made, or its read source not be told.
#[derive(Clone, Debug, PartialEq, Eq)]
pub enum QueryError {
    /// The query type is none that is known.
    UnsupportedQueryType { query_type: String },
    /// The text of a `read_filter` query does not decode to a request.
    ReadFilterDecode { cause: String },
    /// The request carries no read source.
    NoReadSource,
    /// The blob of the request's read source does not decode.
    UndecodableReadSource,
}

/// What a `ReadFilterRequest` holds.
pub struct ReadFilterRequestView {
    pub read_source: Option<AnyView>,
    pub text: Seq<char>,
}

/// What a `StorageRpc` holds.
pub enum StorageRpcView {
    ReadFilter(ReadFilterRequestView),
}

/// What a `Query` holds.
pub enum QueryView {
    Sql(Seq<char>),
    StorageRpc(StorageRpcView),
}

/// What a `QueryError` says.
pub enum QueryErrorView {
    UnsupportedQueryType { query_type: Seq<char> },
    ReadFilterDecode { cause: Seq<char> },
    NoReadSource,
    UndecodableReadSource,
}

/// What a read source that a request may carry holds.
pub open spec fn blob_view(read_source: Option<Any>) -> Option<AnyView> {
    match read_source {
        Some(any) => Some(any@),
        None => None,
    }
}

impl View for ReadFilterRequest {
    type V = ReadFilterRequestView;

    open spec fn view(&self) -> ReadFilterRequestView {
        ReadFilterRequestView { read_source: blob_view(self.read_source), text: self.text@ }
    }
}

impl View for StorageRpc {
    type V = StorageRpcView;

    open spec fn view(&self) -> StorageRpcView {
        match self {
            StorageRpc::ReadFilter(request) => StorageRpcView::ReadFilter(request@),
        }
    }
}

impl View for Query {
    type V = QueryView;

    open spec fn view(&self) -> QueryView {
        match self {
            Query::Sql(sql) => QueryView::Sql(sql@),
            Query::StorageRpc(rpc) => QueryView::StorageRpc(rpc@),
        }
    }
}

impl View for QueryError {
    type V = QueryErrorView;

    open spec fn view(&self) -> QueryErrorView {
        match self {
            QueryError::UnsupportedQueryType { query_type } => QueryErrorView::UnsupportedQueryType {
                query_type: query_type@,
            },
            QueryError::ReadFilterDecode { cause } => QueryErrorView::ReadFilterDecode {
                cause: cause@,
            },
            QueryError::NoReadSource => QueryErrorView::NoReadSource,
            QueryError::UndecodableReadSource => QueryErrorView::UndecodableReadSource,
        }
    }
}

impl QueryErrorView {
    /// The fault in words.
    pub open spec fn message(self) -> Seq<char> {
        match self {
            QueryErrorView::UnsupportedQueryType { query_type } =>
                "Unsupported query type found: "@ + query_type,
            QueryErrorView::ReadFilterDecode { cause } => "Error creating read_filter request: "@
                + cause,
            QueryErrorView::NoReadSource => "No read source found on request ReadFilter"@,
            QueryErrorView::UndecodableReadSource =>
                "value could not be parsed as a ReadSource message on request ReadFilter"@,
        }
    }
}

impl QueryError {
    /// Says the fault in words.
    pub fn to_string(&self) -> (out: String)
        ensures
            out@ == self@.message(),
    {
        match self {
            QueryError::UnsupportedQueryType { query_type } => {
                let mut out = "Unsupported query type found: ".to_owned();
                out.append(query_type.as_str());
                out
            },
            QueryError::ReadFilterDecode { cause } => {
                let mut out = "Error creating read_filter request: ".to_owned();
                out.append(cause.as_str());
                out
            },
            QueryError::NoReadSource => "No read source found on request ReadFilter".to_owned(),
            QueryError::UndecodableReadSource =>
                "value could not be parsed as a ReadSource message on request ReadFilter".to_owned(),
        }
    }
}

/// `text` with every line feed replaced by a space and cut to `max_chars`
/// characters.
pub open spec fn cleaned(text: Seq<char>, max_chars: nat) -> Seq<char> {
    Seq::new(
        if text.len() < max_chars {
            text.len()
        } else {
            max_chars
        },
        |i: int|
            if text[i] == '\n' {
                ' '
            } else {
                text[i]
            },
    )
}

/// Replaces line feeds by spaces and cuts the text to `max_chars` characters.
pub fn truncate_and_clean(s: &str, max_chars: usize) -> (out: String)
    ensures
        out@ == cleaned(s@, max_chars as nat),
{
    let chars = chars_of(s);
    let len = if chars.len() < max_chars {
        chars.len()
    } else {
        max_chars
    };
    let mut out = String::new();
    let mut i: usize = 0;
    while i < len
        invariant
            i <= len <= chars.len(),
            len <= max_chars,
            out@ == cleaned(chars@, i as nat),
        decreases len - i,
    {
        let c = if chars[i] == '\n' {
            ' '
        } else {
            chars[i]
        };
        push_char(&mut out, c);
        assert(out@ =~= cleaned(chars@, (i + 1) as nat));
        i += 1;
    }
    out
}

impl ReadFilterRequestView {
    /// The request pointed at the database `database_name`: its read source
    /// is the one made from the name, and the rest is as before. Where the
    /// name gives none, there is no such request.
    pub open spec fn with_database(self, database_name: Seq<char>) -> Result<
        ReadFilterRequestView,
        NameErrorView,
    > {
        match made_read_source(database_name) {
            Ok(any) => Ok(ReadFilterRequestView { read_source: Some(any), text: self.text }),
            Err(e) => Err(e),
        }
    }
}

impl ReadFilterRequest {
    /// Points the request at the database `database_name`: its read source
    /// becomes the one made from that name. Where the name gives none, the
    /// request stays as it was.
    pub fn with_database(&mut self, database_name: &str) -> (r: Result<(), NameError>)
        ensures
            match r {
                Ok(()) => old(self)@.with_database(database_name@) == Ok::<
                    ReadFilterRequestView,
                    NameErrorView,
                >(final(self)@),
                Err(e) => old(self)@.with_database(database_name@) == Err::<
                    ReadFilterRequestView,
                    NameErrorView,
                >(e@) && *final(self) == *old(self),
            },
    {
        match make_read_source(database_name) {
            Ok(read_source) => {
                self.read_source = read_source;
                Ok(())
            },
            Err(e) => Err(e),
        }
    }
}

impl StorageRpcView {
    /// The read source blob that the request carries.
    pub open spec fn source_blob(self) -> Option<AnyView> {
        match self {
            StorageRpcView::ReadFilter(request) => request.read_source,
        }
    }

    /// The read source that the request carries, or why it tells none.
    pub open spec fn source(self) -> Result<ReadSource, QueryErrorView> {
        match self.source_blob() {
            Some(any) => match ReadSource::decoded(any.value) {
                Some(source) => Ok(source),
                None => Err(QueryErrorView::UndecodableReadSource),
            },
            None => Err(QueryErrorView::NoReadSource),
        }
    }

    /// How an id is shown: in decimal, or as `UNKNOWN` where the read source
    /// does not tell it.
    pub open spec fn shown_id(id: Option<u64>) -> Seq<char> {
        match id {
            Some(id) => decimal_text(id as nat),
            None => "UNKNOWN"@,
        }
    }

    /// The organization id that the request tells, if it tells one.
    pub open spec fn org_id(self) -> Option<u64> {
        match self.source() {
            Ok(source) => Some(source.org_id),
            Err(_) => None,
        }
    }

    /// The bucket id that the request tells, if it tells one.
    pub open spec fn bucket_id(self) -> Option<u64> {
        match self.source() {
            Ok(source) => Some(source.bucket_id),
            Err(_) => None,
        }
    }

    /// The label of the request:
    /// `<name>(org_id=<id>, bucket_id=<id>, details=<details>)`.
    pub open spec fn description(self) -> Seq<char> {
        "ReadFilter"@ + "(org_id="@ + Self::shown_id(self.org_id()) + ", bucket_id="@
            + Self::shown_id(self.bucket_id()) + ", details="@ + "(Add Predicates)"@ + ")"@
    }

    /// The request pointed at the database `database_name`.
    pub open spec fn with_database(self, database_name: Seq<char>) -> Result<
        StorageRpcView,
        NameErrorView,
    > {
        match self {
            StorageRpcView::ReadFilter(request) => match request.with_database(database_name) {
                Ok(request) => Ok(StorageRpcView::ReadFilter(request)),
                Err(e) => Err(e),
            },
        }
    }
}

impl StorageRpc {
    /// The name of the kind of request.
    pub fn name(&self) -> (name: &'static str)
        ensures
            name@ == "ReadFilter"@,
    {
        match self {
            StorageRpc::ReadFilter(_) => "ReadFilter",
        }
    }

    /// A note on what the request asks for.
    pub fn details(&self) -> (details: &'static str)
        ensures
            details@ == "(Add Predicates)"@,
    {
        match self {
            StorageRpc::ReadFilter(_) => "(Add Predicates)",
        }
    }

    /// The organization id and the bucket id that the request was captured
    /// with, in decimal.
    pub fn read_source(&self) -> (r: Result<(String, String), QueryError>)
        ensures
            match r {
                Ok((org_id, bucket_id)) => {
                    &&& self@.source() matches Ok(source)
                    &&& org_id@ == decimal_text(source.org_id as nat)
                    &&& bucket_id@ == decimal_text(source.bucket_id as nat)
                },
                Err(e) => self@.source() == Err::<ReadSource, QueryErrorView>(e@),
            },
    {
        let read_source = match self {
            StorageRpc::ReadFilter(request) => &request.read_source,
        };
        let any = match read_source {
            Some(any) => any,
            None => { return Err(QueryError::NoReadSource); },
        };
        match ReadSource::decode(any.value.as_slice()) {
            Some(source) => Ok((decimal(source.org_id as u128), decimal(source.bucket_id as u128))),
            None => Err(QueryError::UndecodableReadSource),
        }
    }

    /// A short label for the request.
    pub fn to_string(&self) -> (out: String)
        ensures
            out@ == self@.description(),
    {
        let (org_id, bucket_id) = match self.read_source() {
            Ok(ids) => ids,
            Err(_) => ("UNKNOWN".to_owned(), "UNKNOWN".to_owned()),
        };
        let mut out = self.name().to_owned();
        out.append("(org_id=");
        out.append(org_id.as_str());
        out.append(", bucket_id=");
        out.append(bucket_id.as_str());
        out.append(", details=");
        out.append(self.details());
        out.append(")");
        out
    }
}

/// A request that carries the blob of a read source tells that read source:
/// what is written into a request is read back from it.
pub proof fn lemma_blob_is_read_back(rpc: StorageRpcView, source: ReadSource)
    requires
        rpc.source_blob() == Some(blob_of(source)),
    ensures
        rpc.source() == Ok::<ReadSource, QueryErrorView>(source),
        rpc.org_id() == Some(source.org_id),
        rpc.bucket_id() == Some(source.bucket_id),
{
    source.lemma_decode_encoded();
}

/// A storage request that was pointed at a database tells the ids that the
/// name of the database gives, and the partition id that every such request
/// carries.
pub proof fn lemma_retargeted_request_tells_the_database(
    rpc: StorageRpcView,
    database_name: Seq<char>,
)
    requires
        rpc.with_database(database_name) is Ok,
    ensures
        read_source_of(database_name) matches Ok(source) && rpc.with_database(
            database_name,
        )->Ok_0.source() == Ok::<ReadSource, QueryErrorView>(source),
{
    let source = read_source_of(database_name)->Ok_0;
    lemma_blob_is_read_back(rpc.with_database(database_name)->Ok_0, source);
}

/// The number of characters of an SQL text that a label shows.
pub const SHOWN_SQL_CHARS: usize = 30;

/// What decoding the text of a `read_filter` entry gave, by its view.
pub open spec fn decode_view(read_source: Result<Option<Any>, String>) -> Result<
    Option<AnyView>,
    Seq<char>,
> {
    match read_source {
        Ok(read_source) => Ok(blob_view(read_source)),
        Err(cause) => Err(cause@),
    }
}

/// What making a query gave, by its view.
pub open spec fn made(r: Result<Query, QueryError>) -> Result<QueryView, QueryErrorView> {
    match r {
        Ok(query) => Ok(query@),
        Err(e) => Err(e@),
    }
}

impl QueryView {
    /// The query that a `read_filter` entry with the text `query_text` holds,
    /// where `read_source` is what decoding the text gave: the read source of
    /// the request, or why the text is no request.
    pub open spec fn decoded_read_filter(
        query_text: Seq<char>,
        read_source: Result<Option<AnyView>, Seq<char>>,
    ) -> Result<QueryView, QueryErrorView> {
        match read_source {
            Ok(read_source) => Ok(
                QueryView::StorageRpc(
                    StorageRpcView::ReadFilter(
                        ReadFilterRequestView { read_source, text: query_text },
                    ),
                ),
            ),
            Err(cause) => Err(QueryErrorView::ReadFilterDecode { cause }),
        }
    }

    /// Whether `r` is what making a query from the type and the text of a log
    /// entry gives, with `decode_read_filter` to decode the text of a
    /// `read_filter` entry.
    ///
    /// An `sql` entry holds its text as it stands. A `read_filter` entry holds
    /// what the decoder made of its text. Any other type is refused, by its
    /// name.
    pub open spec fn is_constructed<F: Fn(&str) -> Result<Option<Any>, String>>(
        query_type: Seq<char>,
        query_text: Seq<char>,
        decode_read_filter: &F,
        r: Result<QueryView, QueryErrorView>,
    ) -> bool {
        if query_type == "sql"@ {
            r == Ok::<QueryView, QueryErrorView>(QueryView::Sql(query_text))
        } else if query_type == "read_filter"@ {
            exists|text: &str, read_source: Result<Option<Any>, String>|
                text@ == query_text && #[trigger] call_ensures(
                    decode_read_filter,
                    (text,),
                    read_source,
                ) && r == Self::decoded_read_filter(query_text, decode_view(read_source))
        } else {
            r == Err::<QueryView, QueryErrorView>(
                QueryErrorView::UnsupportedQueryType { query_type },
            )
        }
    }

    /// An SQL query that is made again from its type and its text is the same
    /// query, whatever the decoder.
    pub proof fn lemma_sql_query_is_made_again<F: Fn(&str) -> Result<Option<Any>, String>>(
        sql: Seq<char>,
        decode_read_filter: &F,
        r: Result<QueryView, QueryErrorView>,
    )
        requires
            Self::is_constructed("sql"@, sql, decode_read_filter, r),
        ensures
            r == Ok::<QueryView, QueryErrorView>(QueryView::Sql(sql)),
    {
    }

    /// The label of the query: an SQL text cleaned and cut short, or the
    /// label of the request.
    pub open spec fn description(self) -> Seq<char> {
        match self {
            QueryView::Sql(sql) => "Sql("@ + cleaned(sql, SHOWN_SQL_CHARS as nat) + ")"@,
            QueryView::StorageRpc(rpc) => "StorageRpc("@ + rpc.description() + ")"@,
        }
    }

    /// The query pointed at the database `database_name`. An SQL query names
    /// no database and stays as it is; a storage request gets the read source
    /// made from the name, or fails where the name gives none.
    pub open spec fn retargeted(self, database_name: Seq<char>) -> Result<
        QueryView,
        NameErrorView,
    > {
        match self {
            QueryView::Sql(_) => Ok(self),
            QueryView::StorageRpc(rpc) => match rpc.with_database(database_name) {
                Ok(rpc) => Ok(QueryView::StorageRpc(rpc)),
                Err(e) => Err(e),
            },
        }
    }
}

impl Query {
    /// Makes the query of a `read_filter` entry from what decoding its text
    /// gave.
    pub fn from_read_filter(query_text: String, read_source: Result<Option<Any>, String>) -> (r:
        Result<Query, QueryError>)
        ensures
            made(r) == QueryView::decoded_read_filter(query_text@, decode_view(read_source)),
    {
        match read_source {
            Ok(read_source) => Ok(
                Query::StorageRpc(
                    StorageRpc::ReadFilter(ReadFilterRequest { read_source, text: query_text }),
                ),
            ),
            Err(cause) => Err(QueryError::ReadFilterDecode { cause }),
        }
    }

    /// Makes a query from the type and the text of a log entry.
    ///
    /// An `sql` entry holds its text as it stands. The text of a `read_filter`
    /// entry is handed to `decode_read_filter`, which decodes the request and
    /// tells its read source, or why the text is no request. Any other type is
    /// refused, by its name.
    pub fn try_new<F: Fn(&str) -> Result<Option<Any>, String>>(
        query_type: String,
        query_text: String,
        decode_read_filter: &F,
    ) -> (r: Result<Query, QueryError>)
        requires
            forall|text: &str| call_requires(decode_read_filter, (text,)),
        ensures
            QueryView::is_constructed(query_type@, query_text@, decode_read_filter, made(r)),
    {
        proof {
            reveal_strlit("sql");
            reveal_strlit("read_filter");
            assert("sql"@.len() != "read_filter"@.len());
        }
        if same_text(query_type.as_str(), "sql") {
            Ok(Query::Sql(query_text))
        } else if same_text(query_type.as_str(), "read_filter") {
            let text = query_text.as_str();
            let read_source = decode_read_filter(text);
            assert(call_ensures(decode_read_filter, (text,), read_source));
            Self::from_read_filter(query_text, read_source)
        } else {
            Err(QueryError::UnsupportedQueryType { query_type })
        }
    }

    /// A short label for the query. It is never empty.
    pub fn to_string(&self) -> (out: String)
        ensures
            out@ == self@.description(),
            out@.len() > 0,
    {
        proof {
            reveal_strlit(")");
        }
        match self {
            Query::Sql(sql) => {
                let mut out = "Sql(".to_owned();
                out.append(truncate_and_clean(sql.as_str(), SHOWN_SQL_CHARS).as_str());
                out.append(")");
                out
            },
            Query::StorageRpc(rpc) => {
                let mut out = "StorageRpc(".to_owned();
                out.append(rpc.to_string().as_str());
                out.append(")");
                out
            },
        }
    }

    /// Points the query at the database `database_name`. An SQL query names no
    /// database and stays as it is; a storage request gets the read source
    /// made from the name.
    pub fn retarget(self, database_name: &str) -> (r: Result<Query, NameError>)
        ensures
            match r {
                Ok(query) => self@.retargeted(database_name@) == Ok::<QueryView, NameErrorView>(
                    query@,
                ),
                Err(e) => self@.retargeted(database_name@) == Err::<QueryView, NameErrorView>(e@),
            },
    {
        match self {
            Query::Sql(sql) => Ok(Query::Sql(sql)),
            Query::StorageRpc(StorageRpc::ReadFilter(mut request)) => {
                match request.with_database(database_name) {
                    Ok(()) => Ok(Query::StorageRpc(StorageRpc::ReadFilter(request))),
                    Err(e) => Err(e),
                }
            },
        }
    }
}

} // verus!
