use vstd::prelude::*;

use crate::coerce::{coerce_spec, map_value_to_cell, Cell, TypeOid};
use crate::config::ConnParams;
use crate::error::FdwError;
use crate::find::{first_index, lemma_first_index, position, texts};
use crate::json::{id_text, JsonValue};

verus! {

/// A POST request to the remote service: its URL and headers. The body is
/// a request payload handed beside it.
#[derive(Debug, Clone)]
pub struct HttpRequest {
    pub url: String,
    pub headers: Vec<(String, String)>,
}

/// The payload of the listing request: an empty object.
#[derive(Debug, Clone, PartialEq, Eq)]
pub struct ListRowsRequest {}

/// The payload of the row-fetch request.
#[derive(Debug, Clone)]
pub struct GetRowRequest {
    pub cid: String,
    pub table_name: String,
    pub row_id: String,
    pub columns: Vec<String>,
}

/// The body of a listing response: column names, and rows whose first
/// element identifies the row.
#[derive(Debug, Clone)]
pub struct ListRowsResponse {
    pub columns: Vec<String>,
    pub rows: Vec<Vec<JsonValue>>,
}

/// The body of a row-fetch response: `values[i]` is the value of the column
/// named `columns[i]`.
#[derive(Debug, Clone)]
pub struct GetRowResponse {
    pub columns: Vec<String>,
    pub values: Vec<JsonValue>,
}

/// A column that the engine asks for: its name and declared type.
#[derive(Debug, Clone)]
pub struct Column {
    pub name: String,
    pub type_oid: TypeOid,
}

/// The listing endpoint of the configured table.
pub open spec fn rows_url(p: ConnParams) -> Seq<char> {
    p.base_url@ + "/fdw/connections/"@ + p.cid@ + "/tables/"@ + p.object@ + "/rows"@
}

/// The endpoint of one row of the configured table.
pub open spec fn row_url(p: ConnParams, row_id: Seq<char>) -> Seq<char> {
    rows_url(p) + "/"@ + row_id
}

/// The views of a list of header pairs.
pub open spec fn header_texts(h: Seq<(String, String)>) -> Seq<(Seq<char>, Seq<char>)> {
    h.map_values(|p: (String, String)| (p.0@, p.1@))
}

/// The headers sent with every request: a fixed user agent and the bearer
/// credential.
pub open spec fn request_headers(api_key: Seq<char>) -> Seq<(Seq<char>, Seq<char>)> {
    seq![("user-agent"@, "Huruli FDW"@), ("authorization"@, "Bearer "@ + api_key)]
}

fn make_headers(api_key: &String) -> (r: Vec<(String, String)>)
    ensures
        header_texts(r@) == request_headers(api_key@),
{
    let mut h: Vec<(String, String)> = Vec::new();
    h.push((String::from_str("user-agent"), String::from_str("Huruli FDW")));
    h.push((String::from_str("authorization"), String::from_str("Bearer ").concat(api_key.as_str())));
    assert(header_texts(h@) =~= request_headers(api_key@));
    h
}

fn make_rows_url(p: &ConnParams) -> (r: String)
    ensures
        r@ == rows_url(*p),
{
    p.base_url.clone().concat("/fdw/connections/").concat(p.cid.as_str()).concat(
        "/tables/",
    ).concat(p.object.as_str()).concat("/rows")
}

/// The listing request for the configured table.
pub fn list_rows_request(p: &ConnParams) -> (r: HttpRequest)
    ensures
        r.url@ == rows_url(*p),
        header_texts(r.headers@) == request_headers(p.api_key@),
{
    HttpRequest { url: make_rows_url(p), headers: make_headers(&p.api_key) }
}

/// The request and payload that fetch one row, asking for `columns`.
pub fn get_row_request(
    p: &ConnParams,
    row_id: &String,
    columns: &Vec<String>,
) -> (r: (HttpRequest, GetRowRequest))
    ensures
        r.0.url@ == row_url(*p, row_id@),
        header_texts(r.0.headers@) == request_headers(p.api_key@),
        r.1.cid@ == p.cid@,
        r.1.table_name@ == p.object@,
        r.1.row_id@ == row_id@,
        texts(r.1.columns@) == texts(columns@),
{
    let url = make_rows_url(p).concat("/").concat(row_id.as_str());
    let body = GetRowRequest {
        cid: p.cid.clone(),
        table_name: p.object.clone(),
        row_id: row_id.clone(),
        columns: columns.clone(),
    };
    assert(texts(body.columns@) =~= texts(columns@));
    (HttpRequest { url, headers: make_headers(&p.api_key) }, body)
}

/// The identifiers of a listing, in order: the text of each row's first
/// element; a row with no element gives none.
pub open spec fn row_ids(rows: Seq<Vec<JsonValue>>) -> Seq<Seq<char>>
    decreases rows.len(),
{
    if rows.len() == 0 {
        Seq::empty()
    } else {
        let rest = row_ids(rows.drop_last());
        if rows.last()@.len() > 0 {
            rest.push(id_text(rows.last()@[0]))
        } else {
            rest
        }
    }
}

/// Takes the identifier of each row of a listing.
pub fn extract_row_ids(rows: &Vec<Vec<JsonValue>>) -> (r: Vec<String>)
    ensures
        texts(r@) == row_ids(rows@),
{
    let mut out: Vec<String> = Vec::new();
    let mut i: usize = 0;
    while i < rows.len()
        invariant
            i <= rows@.len(),
            texts(out@) == row_ids(rows@.take(i as int)),
        decreases rows.len() - i,
    {
        assert(rows@.take(i + 1).drop_last() =~= rows@.take(i as int));
        if rows[i].len() > 0 {
            let id = rows[i][0].to_id_text();
            out.push(id);
            assert(texts(out@) =~= row_ids(rows@.take(i + 1)));
        }
        i = i + 1;
    }
    assert(rows@.take(i as int) =~= rows@);
    out
}

/// The names of the requested columns.
pub open spec fn column_names(cols: Seq<Column>) -> Seq<Seq<char>> {
    cols.map_values(|c: Column| c.name@)
}

/// Collects the names of the requested columns.
pub fn requested_names(cols: &Vec<Column>) -> (r: Vec<String>)
    ensures
        texts(r@) == column_names(cols@),
{
    let mut out: Vec<String> = Vec::new();
    let mut i: usize = 0;
    while i < cols.len()
        invariant
            i <= cols@.len(),
            out@.len() == i,
            forall|k: int| 0 <= k < i ==> #[trigger] out@[k]@ == cols@[k].name@,
        decreases cols.len() - i,
    {
        out.push(cols[i].name.clone());
        i = i + 1;
    }
    assert(texts(out@) =~= column_names(cols@));
    out
}

/// The cell of a requested column in a fetched row: its value coerced,
/// or absent where the response does not name the column.
pub open spec fn cell_for(col: Column, names: Seq<String>, values: Seq<JsonValue>) -> Option<Cell> {
    match first_index(texts(names), col.name@) {
        Some(i) => coerce_spec(col.type_oid, values[i]),
        None => None,
    }
}

/// A requested column that the fetched row does not name gets an absent
/// cell, not an error; the cells of the other columns are given by their
/// own entries.
pub proof fn lemma_missing_column_absent(col: Column, names: Seq<String>, values: Seq<JsonValue>)
    requires
        forall|k: int| 0 <= k < names.len() ==> names[k]@ != col.name@,
    ensures
        cell_for(col, names, values) is None,
{
    assert forall|k: int| 0 <= k < names.len() implies #[trigger] texts(names)[k] != col.name@ by {
        assert(texts(names)[k] == names[k]@);
    }
    lemma_first_index(texts(names), col.name@, None);
}

/// A fetched row is well formed when it has one value per column name.
pub open spec fn row_response_ok(resp: GetRowResponse) -> bool {
    resp.columns@.len() == resp.values@.len()
}

/// The message given for a row response whose names and values differ in
/// number.
pub open spec fn mismatch_message() -> Seq<char> {
    "row response has a different number of columns and values"@
}

/// Builds one output row: a cell, or an absent one, per requested column.
pub fn build_row(cols: &Vec<Column>, resp: &GetRowResponse) -> (r: Result<Vec<Option<Cell>>, FdwError>)
    ensures
        match r {
            Ok(cells) => {
                &&& row_response_ok(*resp)
                &&& cells@.len() == cols@.len()
                &&& forall|j: int|
                    0 <= j < cols@.len() ==> #[trigger] cells@[j] == cell_for(
                        cols@[j],
                        resp.columns@,
                        resp.values@,
                    )
            },
            Err(e) => !row_response_ok(*resp) && (e matches FdwError::ResponseParse(m) && m@
                == mismatch_message()),
        },
{
    if resp.columns.len() != resp.values.len() {
        return Err(FdwError::ResponseParse(String::from_str("row response has a different number of columns and values")));
    }
    let mut cells: Vec<Option<Cell>> = Vec::new();
    let mut j: usize = 0;
    while j < cols.len()
        invariant
            j <= cols@.len(),
            row_response_ok(*resp),
            cells@.len() == j,
            forall|k: int|
                0 <= k < j ==> #[trigger] cells@[k] == cell_for(cols@[k], resp.columns@, resp.values@),
        decreases cols.len() - j,
    {
        let cell = match position(&resp.columns, &cols[j].name) {
            Some(i) => map_value_to_cell(cols[j].type_oid, &resp.values[i]),
            None => None,
        };
        cells.push(cell);
        j = j + 1;
    }
    Ok(cells)
}

} // verus!
