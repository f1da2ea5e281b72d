//! A row-streaming adapter that exposes a remote HTTP table as a foreign
//! table: a verified scan state machine, value coercion and configuration
//! resolution. The caller performs the HTTP calls and turns JSON text into
//! [`JsonValue`]s and request payloads into JSON text.
mod coerce;
mod config;
mod error;
mod find;
mod json;
mod remote;
mod scan;

pub use coerce::{
    coerce_spec, int_of, map_value_to_cell, parse_i64_spec, str_to_i64, str_to_i6Old, Cell,
    TypeOid,
};
pub use config::{option_or, overlays, ConnParams, Options};
pub use error::FdwError;
pub use find::{first_index, position, texts};
pub use json::{id_text, JsonValue};
pub use remote::{
    build_row, cell_for, extract_row_ids, get_row_request, lemma_missing_column_absent,
    list_rows_request, requested_names, row_ids, Column, GetRowRequest, GetRowResponse,
    HttpRequest, ListRowsRequest, ListRowsResponse,
};
pub use scan::{
    advanced_from, ended_from, is_fetch_run, lemma_end_scan_twice, lemma_scan_length,
    same_state, HuruliFdw,
};
