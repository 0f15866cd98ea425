//! The display side: a capability contract for a display surface and
//! the paged table renderer that implements it.

use crate::common::Stock;
use vstd::prelude::*;

pub mod mono;

verus! {

/// One operation against the terminal surface. The renderer produces
/// these as plain values; whatever drives it performs them against the
/// physical terminal.
#[derive(Debug)]
pub enum TermOp {
    /// Clear the whole screen.
    ClearAll,
    /// Move the cursor to the given row and column (zero-based).
    MoveTo { row: usize, col: usize },
    /// Clear the line under the cursor.
    ClearLine,
    /// Write the text at the cursor.
    Text(String),
    /// Flush pending output to the terminal.
    Flush,
}

/// The mathematical value of a [`TermOp`]: text as a character
/// sequence, positions as unbounded integers.
pub ghost enum TermOpView {
    ClearAll,
    MoveTo { row: int, col: int },
    ClearLine,
    Text(Seq<char>),
    Flush,
}

impl View for TermOp {
    type V = TermOpView;

    open spec fn view(&self) -> TermOpView {
        match self {
            TermOp::ClearAll => TermOpView::ClearAll,
            TermOp::MoveTo { row, col } => TermOpView::MoveTo { row: *row as int, col: *col as int },
            TermOp::ClearLine => TermOpView::ClearLine,
            TermOp::Text(s) => TermOpView::Text(s@),
            TermOp::Flush => TermOpView::Flush,
        }
    }
}

/// The mathematical value of a sequence of terminal operations.
pub open spec fn ops_view(ops: Seq<TermOp>) -> Seq<TermOpView> {
    ops.map_values(|op: TermOp| op@)
}

/// A capability contract for a display surface: initialize, full
/// render, incremental single-row refresh, command-line refresh.
pub trait Render: Sized {
    /// The display's invariant, established by `init` and preserved
    /// by every operation.
    spec fn inv(&self) -> bool;

    /// Whether the display has room to take one more record.
    spec fn can_accept(&self) -> bool;

    /// A fresh display for a terminal of the given size.
    fn init(width: usize, height: usize) -> (r: Self)
        requires
            3 <= height,
        ensures
            r.inv(),
    ;

    /// Full render of the given records, for startup and for a
    /// terminal resize.
    fn render(
        &mut self,
        width: usize,
        height: usize,
        stocks: Vec<Stock>,
        command: &str,
    ) -> (r: Result<(), String>)
        requires
            old(self).inv(),
            3 <= height,
            forall|i: int, j: int|
                0 <= i < j < stocks@.len() ==> (#[trigger] stocks@[i].symbol@) != (
                #[trigger] stocks@[j].symbol@),
        ensures
            final(self).inv(),
    ;

    /// Applies one arriving record to the display.
    fn refresh_stock(&mut self, stock: Stock)
        requires
            old(self).inv(),
            old(self).can_accept(),
        ensures
            final(self).inv(),
    ;

    /// Rewrites the command line.
    fn refresh_command(&mut self, command: &str)
        requires
            old(self).inv(),
        ensures
            final(self).inv(),
    ;
}

} // verus!
