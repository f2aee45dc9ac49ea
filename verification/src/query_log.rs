//! The log of captured queries, as it is stored: a JSON array with one object
//! for each query.

use crate::json::{
    items_view, json_document, keys_of, keys_text, lemma_json_view, members_view, parse_json,
    Json, JsonField, JsonMember, JsonValue,
};
use crate::query::{made, Query, QueryError, QueryErrorView, QueryView};
use crate::read_source::Any;
use crate::text::same_text;
use vstd::prelude::*;
use vstd::string::StringExecFns;

verus! {

/// The SQL query that captures the log: it reads the table of the queries
/// that the database has run. Its result, stored with one object for each row
/// and one member for each column, is what `QueryLog::new_from_json` loads.
pub fn capture_sql() -> (sql: &'static str)
    ensures
        sql@ == "select * from system.queries"@,
{
    "select * from system.queries"
}

/// One captured query: a row of the table of queries.
#[derive(Clone, Debug, PartialEq, Eq)]
pub struct QueryRow {
    /// The time at which the query was issued, as it was written down.
    pub issue_time: String,
    /// The query.
    pub query: Query,
}

/// What a `QueryRow` holds.
pub struct QueryRowView {
    pub issue_time: Seq<char>,
    pub query: QueryView,
}

impl View for QueryRow {
    type V = QueryRowView;

    open spec fn view(&self) -> QueryRowView {
        QueryRowView { issue_time: self.issue_time@, query: self.query@ }
    }
}

impl QueryRow {
    /// The query of the row.
    pub fn into_inner(self) -> (query: Query)
        ensures
            query == self.query,
    {
        self.query
    }
}

/// The captured queries, in the order of the stored log.
#[derive(Clone, Debug, PartialEq, Eq)]
pub struct QueryLog {
    pub queries: Vec<QueryRow>,
}

/// What rows hold, row by row.
pub open spec fn rows_view(rows: Seq<QueryRow>) -> Seq<QueryRowView> {
    Seq::new(rows.len(), |i: int| rows[i]@)
}

impl View for QueryLog {
    type V = Seq<QueryRowView>;

    open spec fn view(&self) -> Seq<QueryRowView> {
        rows_view(self.queries@)
    }
}

/// Why a stored log could not be loaded.
#[derive(Debug, PartialEq, Eq)]
pub enum LoadError {
    /// The text is no JSON document.
    InvalidJson { cause: String },
    /// The document is no array.
    NotAnArray { found: JsonValue },
    /// An item of the array is no object.
    NotAnObject { found: JsonValue },
    /// A record lacks a field; `record` is what was left of the record when
    /// the field was looked for.
    MissingField { field: String, record: Vec<JsonMember> },
    /// The value of a field is no string.
    NotAString { found: JsonValue },
    /// The type and the text of a record make no query.
    Query(QueryError),
}

/// What a `LoadError` says.
pub enum LoadErrorView {
    InvalidJson { cause: Seq<char> },
    NotAnArray { found: Json },
    NotAnObject { found: Json },
    MissingField { field: Seq<char>, record: Seq<JsonField> },
    NotAString { found: Json },
    Query(QueryErrorView),
}

impl View for LoadError {
    type V = LoadErrorView;

    open spec fn view(&self) -> LoadErrorView {
        match self {
            LoadError::InvalidJson { cause } => LoadErrorView::InvalidJson { cause: cause@ },
            LoadError::NotAnArray { found } => LoadErrorView::NotAnArray { found: found@ },
            LoadError::NotAnObject { found } => LoadErrorView::NotAnObject { found: found@ },
            LoadError::MissingField { field, record } => LoadErrorView::MissingField {
                field: field@,
                record: members_view(record@),
            },
            LoadError::NotAString { found } => LoadErrorView::NotAString { found: found@ },
            LoadError::Query(e) => LoadErrorView::Query(e@),
        }
    }
}

impl LoadErrorView {
    /// The fault in words.
    pub open spec fn message(self) -> Seq<char> {
        match self {
            LoadErrorView::InvalidJson { cause } => cause,
            LoadErrorView::NotAnArray { found } =>
                "Expected json array, but got something else: "@ + found.kind(),
            LoadErrorView::NotAnObject { found } => "Expected an object, got "@ + found.kind(),
            LoadErrorView::MissingField { field, record } => "Could not find field "@ + field
                + " in value with fields: "@ + keys_text(record),
            LoadErrorView::NotAString { found } => "Expected an string, got "@ + found.kind(),
            LoadErrorView::Query(e) => e.message(),
        }
    }
}

impl LoadError {
    /// Says the fault in words.
    pub fn to_string(&self) -> (out: String)
        ensures
            out@ == self@.message(),
    {
        match self {
            LoadError::InvalidJson { cause } => cause.clone(),
            LoadError::NotAnArray { found } => {
                let mut out = "Expected json array, but got something else: ".to_owned();
                out.append(found.kind_name());
                out
            },
            LoadError::NotAnObject { found } => {
                let mut out = "Expected an object, got ".to_owned();
                out.append(found.kind_name());
                out
            },
            LoadError::MissingField { field, record } => {
                let mut out = "Could not find field ".to_owned();
                out.append(field.as_str());
                out.append(" in value with fields: ");
                out.append(keys_of(record).as_str());
                out
            },
            LoadError::NotAString { found } => {
                let mut out = "Expected an string, got ".to_owned();
                out.append(found.kind_name());
                out
            },
            LoadError::Query(e) => e.to_string(),
        }
    }
}

/// The text of a JSON string; any other value is refused.
pub open spec fn string_in(value: Json) -> Result<Seq<char>, LoadErrorView> {
    match value {
        Json::String(text) => Ok(text),
        _ => Err(LoadErrorView::NotAString { found: value }),
    }
}

/// The members of a JSON object; any other value is refused.
pub open spec fn members_in(value: Json) -> Result<Seq<JsonField>, LoadErrorView> {
    match value {
        Json::Object(members) => Ok(members),
        _ => Err(LoadErrorView::NotAnObject { found: value }),
    }
}

/// The items of a JSON array; any other value is refused.
pub open spec fn items_in(value: Json) -> Result<Seq<Json>, LoadErrorView> {
    match value {
        Json::Array(items) => Ok(items),
        _ => Err(LoadErrorView::NotAnArray { found: value }),
    }
}

impl JsonValue {
    /// Takes the text out of a JSON string.
    pub fn extract_string(self) -> (r: Result<String, LoadError>)
        ensures
            match r {
                Ok(text) => string_in(self@) == Ok::<Seq<char>, LoadErrorView>(text@),
                Err(e) => string_in(self@) == Err::<Seq<char>, LoadErrorView>(e@),
            },
    {
        match self {
            JsonValue::String(text) => Ok(text),
            other => Err(LoadError::NotAString { found: other }),
        }
    }

    /// Takes the members out of a JSON object.
    pub fn extract_map(self) -> (r: Result<Vec<JsonMember>, LoadError>)
        ensures
            match r {
                Ok(members) => members_in(self@) == Ok::<Seq<JsonField>, LoadErrorView>(
                    members_view(members@),
                ),
                Err(e) => members_in(self@) == Err::<Seq<JsonField>, LoadErrorView>(e@),
            },
    {
        proof {
            lemma_json_view(self);
        }
        match self {
            JsonValue::Object(members) => Ok(members),
            other => Err(LoadError::NotAnObject { found: other }),
        }
    }

    /// Takes the items out of a JSON array.
    pub fn extract_array(self) -> (r: Result<Vec<JsonValue>, LoadError>)
        ensures
            match r {
                Ok(items) => items_in(self@) == Ok::<Seq<Json>, LoadErrorView>(items_view(items@)),
                Err(e) => items_in(self@) == Err::<Seq<Json>, LoadErrorView>(e@),
            },
    {
        proof {
            lemma_json_view(self);
        }
        match self {
            JsonValue::Array(items) => Ok(items),
            other => Err(LoadError::NotAnArray { found: other }),
        }
    }
}

/// The place of the first member from `from` on whose key is `name`; the
/// number of members if there is none.
pub open spec fn member_index(members: Seq<JsonField>, name: Seq<char>, from: int) -> int
    decreases members.len() - from,
{
    if from >= members.len() {
        members.len() as int
    } else if members[from].key == name {
        from
    } else {
        member_index(members, name, from + 1)
    }
}

/// The text of the field `name` of a record, and the record without that
/// field. A record without the field is refused, and so is a field whose value
/// is no string.
pub open spec fn field_in(members: Seq<JsonField>, name: Seq<char>) -> Result<
    (Seq<char>, Seq<JsonField>),
    LoadErrorView,
> {
    let at = member_index(members, name, 0);
    if at >= members.len() {
        Err(LoadErrorView::MissingField { field: name, record: members })
    } else {
        match string_in(members[at].value) {
            Ok(text) => Ok((text, members.remove(at))),
            Err(e) => Err(e),
        }
    }
}

/// Takes the field `field_name` out of a record and hands back its text and
/// what is left of the record.
pub fn get_field(map: Vec<JsonMember>, field_name: &str) -> (r: Result<
    (String, Vec<JsonMember>),
    LoadError,
>)
    ensures
        match r {
            Ok((text, rest)) => field_in(members_view(map@), field_name@) == Ok::<
                (Seq<char>, Seq<JsonField>),
                LoadErrorView,
            >((text@, members_view(rest@))),
            Err(e) => field_in(members_view(map@), field_name@) == Err::<
                (Seq<char>, Seq<JsonField>),
                LoadErrorView,
            >(e@),
        },
{
    let ghost fields = members_view(map@);
    let mut map = map;
    let mut at: usize = 0;
    while at < map.len() && !same_text(map[at].key.as_str(), field_name)
        invariant
            at <= map.len(),
            fields == members_view(map@),
            member_index(fields, field_name@, at as int) == member_index(fields, field_name@, 0),
        decreases map.len() - at,
    {
        at += 1;
    }
    if at == map.len() {
        return Err(LoadError::MissingField { field: field_name.to_owned(), record: map });
    }
    let member = map.remove(at);
    assert(members_view(map@) =~= fields.remove(at as int));
    assert(member@ == fields[at as int]);
    match member.value.extract_string() {
        Ok(text) => Ok((text, map)),
        Err(e) => Err(e),
    }
}

/// The type and the text of the query of a record, and the record without
/// them. The type is looked for first.
pub open spec fn query_fields_in(record: Json) -> Result<
    (Seq<char>, Seq<char>, Seq<JsonField>),
    LoadErrorView,
> {
    match members_in(record) {
        Ok(members) => match field_in(members, "query_type"@) {
            Ok((query_type, rest)) => match field_in(rest, "query_text"@) {
                Ok((query_text, rest)) => Ok((query_type, query_text, rest)),
                Err(e) => Err(e),
            },
            Err(e) => Err(e),
        },
        Err(e) => Err(e),
    }
}

/// The row of a record whose query was made, or failed to be made, as
/// `query` says, where `rest` is the record without the type and the text of
/// the query: the issue time is taken out of the rest.
pub open spec fn row_with(rest: Seq<JsonField>, query: Result<QueryView, QueryErrorView>) -> Result<
    QueryRowView,
    LoadErrorView,
> {
    match query {
        Ok(query) => match field_in(rest, "issue_time"@) {
            Ok((issue_time, _)) => Ok(QueryRowView { issue_time, query }),
            Err(e) => Err(e),
        },
        Err(e) => Err(LoadErrorView::Query(e)),
    }
}

/// Whether `r` is what loading one record gives.
///
/// The record has to be an object. Its query type and query text are taken
/// out and made into a query, and then its issue time is taken out. The
/// first of these steps that fails decides the error. Fields beyond these
/// three are ignored.
pub open spec fn is_row_of<F: Fn(&str) -> Result<Option<Any>, String>>(
    record: Json,
    decode_read_filter: &F,
    r: Result<QueryRowView, LoadErrorView>,
) -> bool {
    match query_fields_in(record) {
        Ok((query_type, query_text, rest)) => exists|query: Result<QueryView, QueryErrorView>|
            #[trigger] QueryView::is_constructed(
                query_type,
                query_text,
                decode_read_filter,
                query,
            ) && r == row_with(rest, query),
        Err(e) => r == Err::<QueryRowView, LoadErrorView>(e),
    }
}

/// What loading a record gave, by its view.
pub open spec fn loaded_row(r: Result<QueryRow, LoadError>) -> Result<QueryRowView, LoadErrorView> {
    match r {
        Ok(row) => Ok(row@),
        Err(e) => Err(e@),
    }
}

/// Loads one record of the stored log.
pub fn row_of<F: Fn(&str) -> Result<Option<Any>, String>>(
    record: JsonValue,
    decode_read_filter: &F,
) -> (r: Result<QueryRow, LoadError>)
    requires
        forall|text: &str| call_requires(decode_read_filter, (text,)),
    ensures
        is_row_of(record@, decode_read_filter, loaded_row(r)),
{
    let map = match record.extract_map() {
        Ok(map) => map,
        Err(e) => { return Err(e); },
    };
    let (query_type, map) = match get_field(map, "query_type") {
        Ok(field) => field,
        Err(e) => { return Err(e); },
    };
    let (query_text, map) = match get_field(map, "query_text") {
        Ok(field) => field,
        Err(e) => { return Err(e); },
    };
    let constructed = Query::try_new(query_type, query_text, decode_read_filter);
    proof {
        let fields = query_fields_in(record@)->Ok_0;
        assert(fields.0 == query_type@ && fields.1 == query_text@ && fields.2 == members_view(
            map@,
        ));
        assert(QueryView::is_constructed(fields.0, fields.1, decode_read_filter, made(constructed)));
    }
    let query = match constructed {
        Ok(query) => query,
        Err(e) => { return Err(LoadError::Query(e)); },
    };
    match get_field(map, "issue_time") {
        Ok((issue_time, _)) => Ok(QueryRow { issue_time, query }),
        Err(e) => Err(e),
    }
}

/// Whether `r` is what loading `records` one after the other gives: a row for
/// each record, in their order, or the error of the first record that does
/// not load.
pub open spec fn are_rows_of<F: Fn(&str) -> Result<Option<Any>, String>>(
    records: Seq<Json>,
    decode_read_filter: &F,
    r: Result<Seq<QueryRowView>, LoadErrorView>,
) -> bool {
    match r {
        Ok(rows) => rows.len() == records.len() && forall|i: int|
            0 <= i < records.len() ==> is_row_of(
                #[trigger] records[i],
                decode_read_filter,
                Ok(rows[i]),
            ),
        Err(e) => exists|rows: Seq<QueryRowView>|
            rows.len() < records.len() && #[trigger] is_row_of(
                records[rows.len() as int],
                decode_read_filter,
                Err(e),
            ) && forall|i: int|
                0 <= i < rows.len() ==> is_row_of(
                    #[trigger] records[i],
                    decode_read_filter,
                    Ok(rows[i]),
                ),
    }
}

/// Whether `r` is what loading the log that `document` stores gives. The
/// document has to be an array; its items are the records.
pub open spec fn is_log_of<F: Fn(&str) -> Result<Option<Any>, String>>(
    document: Json,
    decode_read_filter: &F,
    r: Result<Seq<QueryRowView>, LoadErrorView>,
) -> bool {
    match items_in(document) {
        Ok(records) => are_rows_of(records, decode_read_filter, r),
        Err(e) => r == Err::<Seq<QueryRowView>, LoadErrorView>(e),
    }
}

/// Where the first member named `name` is found, no member before it has
/// that name, and it has.
pub proof fn lemma_member_index(members: Seq<JsonField>, name: Seq<char>, from: int)
    requires
        0 <= from <= members.len(),
    ensures
        from <= member_index(members, name, from) <= members.len(),
        forall|i: int|
            from <= i < member_index(members, name, from) ==> (#[trigger] members[i]).key != name,
        member_index(members, name, from) < members.len() ==> members[member_index(
            members,
            name,
            from,
        )].key == name,
    decreases members.len() - from,
{
    if from < members.len() && members[from].key != name {
        lemma_member_index(members, name, from + 1);
    }
}

/// A record that lacks its query text does not load, and the fault is not
/// passed over: unless the query type is at fault before it, the error names
/// the field `query_text` and holds what is left of the record without the
/// query type.
pub proof fn lemma_record_without_query_text<F: Fn(&str) -> Result<Option<Any>, String>>(
    record: Json,
    decode_read_filter: &F,
    r: Result<QueryRowView, LoadErrorView>,
)
    requires
        members_in(record) matches Ok(members) && member_index(members, "query_text"@, 0)
            >= members.len(),
        is_row_of(record, decode_read_filter, r),
    ensures
        r is Err,
        members_in(record) matches Ok(members) && (field_in(members, "query_type"@) matches Ok(
            (_, rest),
        ) ==> r == Err::<QueryRowView, LoadErrorView>(
            LoadErrorView::MissingField { field: "query_text"@, record: rest },
        )),
{
    let members = members_in(record)->Ok_0;
    reveal_strlit("query_text");
    reveal_strlit("query_type");
    assert("query_text"@.len() != "query_type"@.len() || "query_text"@[7] != "query_type"@[7]);
    if field_in(members, "query_type"@) is Ok {
        let at = member_index(members, "query_type"@, 0);
        let rest = members.remove(at);
        lemma_member_index(members, "query_type"@, 0);
        lemma_member_index(members, "query_text"@, 0);
        lemma_member_index(rest, "query_text"@, 0);
        let found = member_index(rest, "query_text"@, 0);
        if found < rest.len() {
            assert(rest[found] == members[if found < at {
                found
            } else {
                found + 1
            }]);
        }
    }
}

/// A log with a record that does not load does not load either: no record is
/// passed over.
pub proof fn lemma_one_fault_fails_the_load<F: Fn(&str) -> Result<Option<Any>, String>>(
    records: Seq<Json>,
    at: int,
    decode_read_filter: &F,
    r: Result<Seq<QueryRowView>, LoadErrorView>,
)
    requires
        0 <= at < records.len(),
        forall|row: QueryRowView| !is_row_of(records[at], decode_read_filter, Ok(row)),
        are_rows_of(records, decode_read_filter, r),
    ensures
        r is Err,
{
    if r is Ok {
        assert(is_row_of(records[at], decode_read_filter, Ok(r->Ok_0[at])));
    }
}

/// What a load gave, by its view.
pub open spec fn loaded(r: Result<QueryLog, LoadError>) -> Result<Seq<QueryRowView>, LoadErrorView> {
    match r {
        Ok(log) => Ok(log@),
        Err(e) => Err(e@),
    }
}

impl QueryLog {
    /// Loads the log that a JSON value stores.
    ///
    /// The load is all or nothing: the first record that does not load makes
    /// the whole load fail.
    pub fn from_json<F: Fn(&str) -> Result<Option<Any>, String>>(
        document: JsonValue,
        decode_read_filter: &F,
    ) -> (r: Result<QueryLog, LoadError>)
        requires
            forall|text: &str| call_requires(decode_read_filter, (text,)),
        ensures
            is_log_of(document@, decode_read_filter, loaded(r)),
    {
        let records = match document.extract_array() {
            Ok(records) => records,
            Err(e) => { return Err(e); },
        };
        let ghost all = items_view(records@);
        let mut queries: Vec<QueryRow> = Vec::new();
        for record in it: records
            invariant
                forall|text: &str| call_requires(decode_read_filter, (text,)),
                items_in(document@) == Ok::<Seq<Json>, LoadErrorView>(all),
                all == items_view(it.seq()),
                queries.len() == it.index(),
                forall|i: int|
                    0 <= i < queries.len() ==> is_row_of(
                        #[trigger] all[i],
                        decode_read_filter,
                        Ok(queries[i]@),
                    ),
        {
            match row_of(record, decode_read_filter) {
                Ok(row) => {
                    queries.push(row);
                },
                Err(e) => {
                    let ghost rows = rows_view(queries@);
                    assert(is_row_of(all[rows.len() as int], decode_read_filter, Err(e@)));
                    assert(are_rows_of(all, decode_read_filter, Err(e@)));
                    return Err(e);
                },
            }
        }
        Ok(QueryLog { queries })
    }

    /// Loads the log that a JSON text stores.
    pub fn new_from_json<F: Fn(&str) -> Result<Option<Any>, String>>(
        text: &str,
        decode_read_filter: &F,
    ) -> (r: Result<QueryLog, LoadError>)
        requires
            forall|text: &str| call_requires(decode_read_filter, (text,)),
        ensures
            match json_document(text@) {
                Ok(document) => is_log_of(document, decode_read_filter, loaded(r)),
                Err(cause) => loaded(r) == Err::<Seq<QueryRowView>, LoadErrorView>(
                    LoadErrorView::InvalidJson { cause },
                ),
            },
    {
        match parse_json(text) {
            Ok(document) => Self::from_json(document, decode_read_filter),
            Err(cause) => Err(LoadError::InvalidJson { cause }),
        }
    }
}

} // verus!
