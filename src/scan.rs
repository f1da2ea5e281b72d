use vstd::prelude::*;

use crate::coerce::Cell;
use crate::config::{default_base_url, default_cid, option_or, overlays, ConnParams, Options};
use crate::error::FdwError;
use crate::find::texts;
use crate::remote::{
    build_row, cell_for, column_names, extract_row_ids, get_row_request, header_texts,
    list_rows_request, request_headers, requested_names, row_ids, row_response_ok, row_url, rows_url, Column,
    GetRowRequest, GetRowResponse, HttpRequest, ListRowsResponse,
};

verus! {

/// The session state of one scan lifecycle: the connection parameters, the
/// buffered row identifiers and the cursor into them.
///
/// The engine calls `init`, then for each scan `begin_scan`,
/// `iter_scan` until it reports no more rows, and `end_scan`. Each remote
/// call is performed by the caller: `begin_scan` and `iter_scan` hand out
/// the request, and `finish_begin_scan` and `finish_iter_scan` take back
/// its outcome.
#[derive(Debug)]
pub struct HuruliFdw {
    params: ConnParams,
    src_rows: Vec<String>,
    src_idx: usize,
}

/// Message of the error that `re_scan` returns.
pub open spec fn rescan_message() -> Seq<char> {
    "re_scan on foreign table is not supported"@
}

/// Message of the error that the write path returns.
pub open spec fn modify_message() -> Seq<char> {
    "modify on foreign table is not supported"@
}

/// `t` is `s` with the cursor one row further on.
pub open spec fn advanced_from(s: HuruliFdw, t: HuruliFdw) -> bool {
    &&& t.conn() == s.conn()
    &&& t.pending() == s.pending()
    &&& t.cursor() == s.cursor() + 1
}

/// `t` is `s` with its buffer released.
pub open spec fn ended_from(s: HuruliFdw, t: HuruliFdw) -> bool {
    &&& t.conn() == s.conn()
    &&& t.pending() == Seq::<Seq<char>>::empty()
    &&& t.cursor() == 0
}

/// `t` holds the same state as `s`.
pub open spec fn same_state(s: HuruliFdw, t: HuruliFdw) -> bool {
    &&& t.conn() == s.conn()
    &&& t.pending() == s.pending()
    &&& t.cursor() == s.cursor()
}

impl HuruliFdw {
    /// The connection parameters.
    pub closed spec fn conn(&self) -> ConnParams {
        self.params
    }

    /// The buffered row identifiers, in listing order.
    pub closed spec fn pending(&self) -> Seq<Seq<char>> {
        texts(self.src_rows@)
    }

    /// The position of the next row to fetch.
    pub closed spec fn cursor(&self) -> nat {
        self.src_idx as nat
    }

    /// The cursor never passes the end of the buffer.
    pub open spec fn wf(&self) -> bool {
        self.cursor() <= self.pending().len()
    }

    /// No row is left to fetch.
    pub open spec fn exhausted(&self) -> bool {
        self.cursor() == self.pending().len()
    }

    /// Creates the session, overlaying the server options onto the compiled
    /// defaults. The buffer is empty.
    pub fn init(server: &Options) -> (r: HuruliFdw)
        ensures
            r.wf(),
            r.conn().base_url@ == option_or(server.pairs@, "api_url"@, default_base_url()),
            r.conn().api_key@ == option_or(server.pairs@, "api_key"@, Seq::empty()),
            r.conn().cid@ == option_or(server.pairs@, "connection_id"@, default_cid()),
            r.conn().object@ == option_or(server.pairs@, "object"@, Seq::empty()),
            r.pending().len() == 0,
            r.cursor() == 0,
    {
        let params = ConnParams::defaults().resolve(server);
        HuruliFdw { params, src_rows: Vec::new(), src_idx: 0 }
    }

    /// The semver requirement on the host.
    pub fn host_version_requirement() -> (r: String)
        ensures
            r@ == "^0.1.0"@,
    {
        String::from_str("^0.1.0")
    }

    /// The connection parameters.
    pub fn params(&self) -> (r: &ConnParams)
        ensures
            *r == self.conn(),
    {
        &self.params
    }

    /// The position of the next row to fetch.
    pub fn cursor_pos(&self) -> (r: usize)
        ensures
            r == self.cursor(),
    {
        self.src_idx
    }

    /// The buffered row identifiers.
    pub fn pending_ids(&self) -> (r: &Vec<String>)
        ensures
            texts(r@) == self.pending(),
    {
        &self.src_rows
    }

    /// Starts a scan: overlays the table options onto the current
    /// parameters, empties the buffer, and returns the listing request to
    /// perform.
    pub fn begin_scan(&mut self, table: &Options) -> (r: HttpRequest)
        ensures
            final(self).wf(),
            overlays(final(self).conn(), table.pairs@, old(self).conn()),
            final(self).pending().len() == 0,
            final(self).cursor() == 0,
            r.url@ == rows_url(final(self).conn()),
            header_texts(r.headers@) == request_headers(final(self).conn().api_key@),
    {
        self.params = self.params.resolve(table);
        self.src_rows = Vec::new();
        self.src_idx = 0;
        list_rows_request(&self.params)
    }

    /// Takes the outcome of the listing request: on success buffers its
    /// identifiers and returns their number; a failure is returned as it
    /// came, with the buffer left empty.
    pub fn finish_begin_scan(
        &mut self,
        resp: Result<ListRowsResponse, FdwError>,
    ) -> (r: Result<usize, FdwError>)
        ensures
            final(self).wf(),
            final(self).conn() == old(self).conn(),
            final(self).cursor() == 0,
            match resp {
                Ok(body) => r == Ok::<usize, FdwError>(final(self).pending().len() as usize)
                    && final(self).pending() == row_ids(body.rows@),
                Err(e) => r == Err::<usize, FdwError>(e) && final(self).pending().len() == 0,
            },
    {
        self.src_idx = 0;
        match resp {
            Ok(body) => {
                self.src_rows = extract_row_ids(&body.rows);
                Ok(self.src_rows.len())
            },
            Err(e) => {
                self.src_rows = Vec::new();
                Err(e)
            },
        }
    }

    /// The fetch of the next row, asking for the given columns; nothing
    /// when the scan is exhausted.
    pub fn iter_scan(&self, cols: &Vec<Column>) -> (r: Option<(HttpRequest, GetRowRequest)>)
        requires
            self.wf(),
        ensures
            r is None <==> self.exhausted(),
            r matches Some(req) ==> {
                &&& req.0.url@ == row_url(self.conn(), self.pending()[self.cursor() as int])
                &&& header_texts(req.0.headers@) == request_headers(self.conn().api_key@)
                &&& req.1.cid@ == self.conn().cid@
                &&& req.1.table_name@ == self.conn().object@
                &&& req.1.row_id@ == self.pending()[self.cursor() as int]
                &&& texts(req.1.columns@) == column_names(cols@)
            },
    {
        if self.src_idx >= self.src_rows.len() {
            return None;
        }
        let names = requested_names(cols);
        Some(get_row_request(&self.params, &self.src_rows[self.src_idx], &names))
    }

    /// Takes the outcome of a row fetch: on success returns one cell per
    /// requested column and moves the cursor one row on. A failed fetch,
    /// or a response with unequal numbers of names and values, is returned
    /// as an error and leaves the state as it was.
    pub fn finish_iter_scan(
        &mut self,
        cols: &Vec<Column>,
        resp: Result<GetRowResponse, FdwError>,
    ) -> (r: Result<Vec<Option<Cell>>, FdwError>)
        requires
            old(self).wf(),
            !old(self).exhausted(),
        ensures
            final(self).wf(),
            match resp {
                Ok(body) => match r {
                    Ok(cells) => {
                        &&& row_response_ok(body)
                        &&& advanced_from(*old(self), *final(self))
                        &&& cells@.len() == cols@.len()
                        &&& forall|j: int|
                            0 <= j < cols@.len() ==> #[trigger] cells@[j] == cell_for(
                                cols@[j],
                                body.columns@,
                                body.values@,
                            )
                    },
                    Err(e) => !row_response_ok(body) && same_state(*old(self), *final(self)),
                },
                Err(e) => r == Err::<Vec<Option<Cell>>, FdwError>(e) && same_state(
                    *old(self),
                    *final(self),
                ),
            },
    {
        let n: usize = self.src_rows.len();
        assert(texts(self.src_rows@).len() == n);
        match resp {
            Ok(body) => match build_row(cols, &body) {
                Ok(cells) => {
                    self.src_idx = self.src_idx + 1;
                    Ok(cells)
                },
                Err(e) => Err(e),
            },
            Err(e) => Err(e),
        }
    }

    /// Rewinding a scan is not supported: always fails, changing nothing.
    pub fn re_scan(&self) -> (r: Result<(), FdwError>)
        ensures
            r matches Err(FdwError::Unsupported(m)) && m@ == rescan_message(),
    {
        Err(FdwError::Unsupported(String::from_str("re_scan on foreign table is not supported")))
    }

    /// Ends the scan: releases the buffered identifiers and keeps the
    /// connection parameters.
    pub fn end_scan(&mut self)
        ensures
            final(self).wf(),
            ended_from(*old(self), *final(self)),
    {
        self.src_rows.clear();
        self.src_idx = 0;
        assert(texts(self.src_rows@) =~= Seq::<Seq<char>>::empty());
    }

    /// The single gate of the write path: writing is not supported.
    fn write_gate() -> (r: Result<(), FdwError>)
        ensures
            r matches Err(FdwError::Unsupported(m)) && m@ == modify_message(),
    {
        Err(FdwError::Unsupported(String::from_str("modify on foreign table is not supported")))
    }

    /// Starting a modification always fails.
    pub fn begin_modify(&self) -> (r: Result<(), FdwError>)
        ensures
            r matches Err(FdwError::Unsupported(m)) && m@ == modify_message(),
    {
        Self::write_gate()
    }

    /// Inserting always fails, whether or not `begin_modify` came first.
    pub fn insert(&self, row: &Vec<Option<Cell>>) -> (r: Result<(), FdwError>)
        ensures
            r matches Err(FdwError::Unsupported(m)) && m@ == modify_message(),
    {
        Self::write_gate()
    }

    /// Updating always fails, whether or not `begin_modify` came first.
    pub fn update(&self, rowid: &Cell, row: &Vec<Option<Cell>>) -> (r: Result<(), FdwError>)
        ensures
            r matches Err(FdwError::Unsupported(m)) && m@ == modify_message(),
    {
        Self::write_gate()
    }

    /// Deleting always fails, whether or not `begin_modify` came first.
    pub fn delete(&self, rowid: &Cell) -> (r: Result<(), FdwError>)
        ensures
            r matches Err(FdwError::Unsupported(m)) && m@ == modify_message(),
    {
        Self::write_gate()
    }

    /// Ending a modification writes nothing and succeeds.
    pub fn end_modify(&self) -> (r: Result<(), FdwError>)
        ensures
            r is Ok,
    {
        Ok(())
    }
}

/// The steps of a run of successful row fetches from the start of a scan:
/// each from a state with rows left to one with the cursor one row on.
pub open spec fn is_fetch_run(states: Seq<HuruliFdw>) -> bool {
    &&& states.len() > 0
    &&& states[0].wf()
    &&& states[0].cursor() == 0
    &&& forall|i: int|
        0 <= i < states.len() - 1 ==> !#[trigger] states[i].exhausted() && advanced_from(
            states[i],
            states[i + 1],
        )
}

proof fn lemma_fetch_run_at(states: Seq<HuruliFdw>, i: int)
    requires
        is_fetch_run(states),
        0 <= i < states.len(),
    ensures
        states[i].cursor() == i,
        states[i].pending() == states[0].pending(),
        states[i].conn() == states[0].conn(),
        states[i].wf(),
    decreases i,
{
    if i > 0 {
        lemma_fetch_run_at(states, i - 1);
        assert(!states[i - 1].exhausted());
    }
}

/// A scan yields exactly as many rows as were buffered. Along a run of
/// successful row fetches from the start of a scan, each moves the cursor
/// one row on and keeps the buffer; the run has at most `pending().len()`
/// steps, and its last state is exhausted exactly when it has that many.
pub proof fn lemma_scan_length(states: Seq<HuruliFdw>)
    requires
        is_fetch_run(states),
    ensures
        states.len() - 1 <= states[0].pending().len(),
        forall|i: int|
            #![trigger states[i]]
            0 <= i < states.len() ==> {
                &&& states[i].cursor() == i
                &&& states[i].pending() == states[0].pending()
                &&& states[i].conn() == states[0].conn()
                &&& states[i].wf()
            },
        states.last().exhausted() <==> states.len() - 1 == states[0].pending().len(),
{
    assert forall|i: int| #![trigger states[i]] 0 <= i < states.len() implies {
        &&& states[i].cursor() == i
        &&& states[i].pending() == states[0].pending()
        &&& states[i].conn() == states[0].conn()
        &&& states[i].wf()
    } by {
        lemma_fetch_run_at(states, i);
    }
    lemma_fetch_run_at(states, states.len() - 1);
}

/// Ending a scan twice in a row is safe: the second call finds the buffer
/// already empty and leaves the same state as the first.
pub proof fn lemma_end_scan_twice(s: HuruliFdw, t: HuruliFdw, u: HuruliFdw)
    requires
        s.wf(),
        ended_from(s, t),
        ended_from(t, u),
    ensures
        t.pending().len() == 0,
        same_state(t, u),
        u.wf(),
        u.conn() == s.conn(),
{
}

} // verus!
