use vstd::prelude::*;
use vstd::utf8::encode_utf8;

use crate::text::{decimal, decimal_of, lemma_text_round_trip, read_text, text_of_native};

verus! {

/// What the native accessors report for one column of a fetched row: the
/// column's text when it has one, and its integer reading.
pub struct NativeCell {
    pub text: Option<Vec<u8>>,
    pub integer: i64,
}

/// The text a column yields: its own text when the native side has one,
/// else its integer reading written in decimal.
pub open spec fn cell_value(text: Option<Seq<u8>>, v: i64) -> Seq<char> {
    match text {
        Some(b) => read_text(b),
        None => decimal_of(v as int),
    }
}

impl NativeCell {
    /// The text this column yields.
    pub open spec fn value(&self) -> Seq<char> {
        cell_value(
            match self.text {
                Some(b) => Some(b@),
                None => None,
            },
            self.integer,
        )
    }
}

/// Whether a cell copied out of a row holds exactly the value that the
/// native column reports.
pub open spec fn copied(c: Option<String>, n: NativeCell) -> bool {
    c matches Some(s) && s@ == n.value()
}

/// Copies one column into caller-owned text, falling back to the integer
/// reading when the column has no text.
pub fn cell_text(c: &NativeCell) -> (r: String)
    ensures
        copied(Some(r), *c),
{
    match &c.text {
        Some(b) => text_of_native(b.as_slice()),
        None => decimal(c.integer),
    }
}

/// Copies every column of a fetched row, in column order.
pub fn decode_row(cells: &Vec<NativeCell>) -> (r: Vec<Option<String>>)
    ensures
        r.len() == cells.len(),
        forall|i: int| 0 <= i < cells.len() ==> #[trigger] copied(r[i], cells[i]),
{
    let mut out: Vec<Option<String>> = Vec::new();
    let mut i: usize = 0;
    while i < cells.len()
        invariant
            i <= cells.len(),
            out.len() == i,
            forall|j: int| 0 <= j < i ==> #[trigger] copied(out[j], cells[j]),
        decreases cells.len() - i,
    {
        let s = cell_text(&cells[i]);
        out.push(Some(s));
        i = i + 1;
    }
    out
}

/// A value stored as text reads back as that same text; a value with no
/// textual form reads back as its integer in decimal.
pub proof fn lemma_cell_round_trip(s: Seq<char>, v: i64)
    ensures
        cell_value(Some(encode_utf8(s)), v) == s,
        cell_value(None, v) == decimal_of(v as int),
{
    lemma_text_round_trip(s);
}

} // verus!
