use vstd::prelude::*;

use crate::cell::{copied, decode_row, NativeCell};

verus! {

/// The state of a result set as the binding sees it.
pub struct ResultView {
    /// Address of the native result resource; never zero.
    pub handle: nat,
    /// Number of columns the native result reports.
    pub columns: nat,
    /// Whether the native cursor has already reported its end.
    pub exhausted: bool,
}

/// Sole owner of one native result resource returned by a statement.
pub struct XdbResult {
    handle: usize,
    col_count: u16,
    exhausted: bool,
}

/// The values a fetched row yields, column by column.
pub open spec fn row_values(cells: Seq<NativeCell>) -> Seq<Seq<char>> {
    cells.map_values(|c: NativeCell| c.value())
}

/// What the native cursor reported for one fetch, as a sequence of cells.
pub open spec fn native_row(row: Option<Vec<NativeCell>>) -> Option<Seq<NativeCell>> {
    match row {
        Some(v) => Some(v@),
        None => None,
    }
}

/// What one fetch hands out: nothing once the cursor is exhausted or when it
/// reports its end, else the values of the row it reported.
pub open spec fn fetch_step(exhausted: bool, row: Option<Seq<NativeCell>>) -> Option<
    Seq<Seq<char>>,
> {
    if exhausted {
        None
    } else {
        match row {
            Some(cells) => Some(row_values(cells)),
            None => None,
        }
    }
}

/// Whether a copied row holds exactly the given values.
pub open spec fn holds_values(r: Option<Vec<Option<String>>>, vals: Option<Seq<Seq<char>>>) -> bool {
    match vals {
        None => r is None,
        Some(vs) => r matches Some(v) && v.len() == vs.len() && forall|i: int|
            0 <= i < vs.len() ==> (#[trigger] v[i] matches Some(s) && s@ == vs[i]),
    }
}

/// What successive fetches hand out, given what the native cursor would
/// report at each of them.
pub open spec fn fetch_run(exhausted: bool, cursor: Seq<Option<Seq<NativeCell>>>) -> Seq<
    Option<Seq<Seq<char>>>,
>
    decreases cursor.len(),
{
    if cursor.len() == 0 {
        seq![]
    } else {
        seq![fetch_step(exhausted, cursor[0])] + fetch_run(
            exhausted || cursor[0] is None,
            cursor.drop_first(),
        )
    }
}

impl View for XdbResult {
    type V = ResultView;

    closed spec fn view(&self) -> ResultView {
        ResultView { handle: self.handle as nat, columns: self.col_count as nat, exhausted: self.exhausted }
    }
}

impl XdbResult {
    /// A result always has a native address.
    #[verifier::type_invariant]
    spec fn inv(&self) -> bool {
        self.handle != 0
    }

    pub(crate) fn new(handle: usize, col_count: u16) -> (r: XdbResult)
        requires
            handle != 0,
        ensures
            r@ == (ResultView { handle: handle as nat, columns: col_count as nat, exhausted: false }),
    {
        XdbResult { handle, col_count, exhausted: false }
    }

    /// Address of the native result resource, for the native calls on it.
    pub fn handle(&self) -> (r: usize)
        ensures
            r as nat == self@.handle,
            r != 0,
    {
        proof {
            use_type_invariant(self);
        }
        self.handle
    }

    /// Number of columns in each row.
    pub fn column_count(&self) -> (r: u32)
        ensures
            r as nat == self@.columns,
    {
        self.col_count as u32
    }

    /// Whether the native cursor is still to be asked for a row; once it has
    /// reported its end it is not asked again.
    pub fn wants_row(&self) -> (r: bool)
        ensures
            r == !self@.exhausted,
    {
        !self.exhausted
    }

    /// Hands out the next row, copied into owned text, given what the native
    /// cursor reported (`None` at its end). After the end every fetch yields
    /// `None`, whatever is passed.
    pub fn fetch_row(&mut self, row: Option<Vec<NativeCell>>) -> (r: Option<Vec<Option<String>>>)
        ensures
            holds_values(r, fetch_step(old(self)@.exhausted, native_row(row))),
            final(self)@.handle == old(self)@.handle,
            final(self)@.columns == old(self)@.columns,
            final(self)@.exhausted == (old(self)@.exhausted || row is None),
    {
        proof {
            use_type_invariant(&*self);
        }
        if self.exhausted {
            return None;
        }
        match row {
            None => {
                self.exhausted = true;
                None
            },
            Some(cells) => {
                let v = decode_row(&cells);
                assert forall|i: int| 0 <= i < cells@.len() implies (#[trigger] v[i] matches Some(s)
                    && s@ == row_values(cells@)[i]) by {
                    assert(copied(v[i], cells@[i]));
                }
                Some(v)
            },
        }
    }

    /// Gives up ownership of the native result, returning the address to
    /// release. Taking `self` by value, it can happen only once.
    pub fn close(self) -> (r: usize)
        ensures
            r as nat == self@.handle,
    {
        self.handle
    }
}

/// Rows come out in the native cursor's order and the end comes once: if the
/// cursor reports some rows and then its end, the fetches hand out exactly
/// those rows in order, and every later fetch hands out nothing, whatever
/// the cursor would report.
pub proof fn lemma_rows_in_cursor_order(
    rows: Seq<Seq<NativeCell>>,
    later: Seq<Option<Seq<NativeCell>>>,
)
    ensures
        ({
            let cursor = rows.map_values(|r: Seq<NativeCell>| Some(r)) + seq![None] + later;
            let out = fetch_run(false, cursor);
            &&& out.len() == rows.len() + 1 + later.len()
            &&& forall|i: int| 0 <= i < rows.len() ==> out[i] == Some(row_values(#[trigger] rows[i]))
            &&& forall|i: int| rows.len() <= i < out.len() ==> #[trigger] out[i] is None
        }),
    decreases rows.len(),
{
    let cursor = rows.map_values(|r: Seq<NativeCell>| Some(r)) + seq![None] + later;
    if rows.len() == 0 {
        assert(cursor =~= seq![None] + later);
        assert(cursor.drop_first() =~= later);
        assert(cursor[0] is None);
        lemma_exhausted_stays(later);
        assert(fetch_run(false, cursor) =~= seq![None::<Seq<Seq<char>>>] + fetch_run(true, later));
    } else {
        let rest = rows.drop_first();
        lemma_rows_in_cursor_order(rest, later);
        let rest_cursor = rest.map_values(|r: Seq<NativeCell>| Some(r)) + seq![None] + later;
        assert(cursor.drop_first() =~= rest_cursor);
        assert(cursor[0] == Some(rows[0]));
        let out = fetch_run(false, cursor);
        assert(out =~= seq![Some(row_values(rows[0]))] + fetch_run(false, rest_cursor));
        assert forall|i: int| 0 <= i < rows.len() implies out[i] == Some(
            row_values(#[trigger] rows[i]),
        ) by {
            if i > 0 {
                assert(rows[i] == rest[i - 1]);
            }
        }
    }
}

/// Once exhausted, every fetch hands out nothing.
proof fn lemma_exhausted_stays(cursor: Seq<Option<Seq<NativeCell>>>)
    ensures
        fetch_run(true, cursor).len() == cursor.len(),
        forall|i: int| 0 <= i < cursor.len() ==> #[trigger] fetch_run(true, cursor)[i] is None,
    decreases cursor.len(),
{
    if cursor.len() > 0 {
        lemma_exhausted_stays(cursor.drop_first());
        assert(fetch_run(true, cursor) =~= seq![None::<Seq<Seq<char>>>] + fetch_run(true, cursor.drop_first()));
    }
}

} // verus!
