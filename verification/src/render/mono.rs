//! The paged table renderer: column layout from the terminal width,
//! pagination, a symbol-to-row index, and targeted single-row redraws.

use crate::common::Stock;
use crate::fmt::{
    fmt_fixed2, fmt_fixed3, pad_left, pad_left_string, percent_hundredths, spec_fixed2,
    spec_fixed3, spec_percent,
};
use crate::render::{ops_view, TermOp, TermOpView};
use vstd::prelude::*;

verus! {

/// The field a table column shows. Each kind renders either a record's
/// field or, given no record, the column's header label.
#[derive(Clone, Copy, Debug, PartialEq, Eq, Structural)]
pub enum ColumnKind {
    /// The security's symbol.
    Name,
    /// The open price.
    Open,
    /// The latest price together with its change against the open.
    Last,
    /// The lowest price.
    Low,
    /// The highest price.
    High,
}

/// The column plan for a terminal `width` characters wide: the ordered
/// `(width, kind)` pairs of the row layout.
///
/// Below 24 characters no layout exists. Up to 50 characters the row
/// splits in two, a name column of `width / 23 * 7` characters and the
/// last-price column taking the rest. From 51 characters on, five
/// columns share the row in proportion `7 : 8 : 16 : 8 : 8`, each
/// scaled by `width / 51`.
pub open spec fn spec_layout(width: int) -> Seq<(int, ColumnKind)>
    recommends
        width >= 24,
{
    if width < 51 {
        seq![
            (width / 23 * 7, ColumnKind::Name),
            (width - width / 23 * 7, ColumnKind::Last),
        ]
    } else {
        seq![
            (width / 51 * 7, ColumnKind::Name),
            (width / 51 * 8, ColumnKind::Open),
            (width / 51 * 16, ColumnKind::Last),
            (width / 51 * 8, ColumnKind::Low),
            (width / 51 * 8, ColumnKind::High),
        ]
    }
}

/// Whether a column plan is the one [`spec_layout`] gives for `width`.
pub open spec fn matches_layout(renders: Seq<(usize, ColumnKind)>, width: int) -> bool {
    &&& renders.len() == spec_layout(width).len()
    &&& forall|i: int|
        0 <= i < renders.len() ==> (#[trigger] renders[i]).0 == spec_layout(width)[i].0
            && renders[i].1 == spec_layout(width)[i].1
}

/// The record a column renderer was given, if any.
pub open spec fn opt_record(stock_option: Option<&Stock>) -> Option<Stock> {
    match stock_option {
        Some(stock) => Some(*stock),
        None => None,
    }
}

/// The text of the last-price column for a record: the latest price to
/// three decimal places, then its change against the open in percent
/// to two, as in `101.230(1.23%)`. With an open price of exactly zero
/// the change is undefined and `N/A` is shown instead.
pub open spec fn spec_last_content(stock: Stock) -> Seq<char> {
    if stock.open.milli == 0 {
        "N/A"@
    } else {
        spec_fixed3(stock.last_done.milli as int) + "("@ + spec_fixed2(
            spec_percent(stock.last_done.milli as int, stock.open.milli as int),
        ) + "%)"@
    }
}

/// The unpadded text a column shows: the record's field, or, given no
/// record, the column's header label.
pub open spec fn spec_content(kind: ColumnKind, record: Option<Stock>) -> Seq<char> {
    match record {
        Some(stock) => match kind {
            ColumnKind::Name => stock.symbol@,
            ColumnKind::Open => spec_fixed3(stock.open.milli as int),
            ColumnKind::Last => spec_last_content(stock),
            ColumnKind::Low => spec_fixed3(stock.low.milli as int),
            ColumnKind::High => spec_fixed3(stock.high.milli as int),
        },
        None => match kind {
            ColumnKind::Name => "symbol"@,
            ColumnKind::Open => "open"@,
            ColumnKind::Last => "current"@,
            ColumnKind::Low => "low"@,
            ColumnKind::High => "high"@,
        },
    }
}

/// The text of one table cell: the column's content fit into a field
/// of exactly `limit` characters — right-aligned when shorter, cut to
/// its first `limit` characters when longer — so an over-long value
/// never shifts the cells after it.
pub open spec fn spec_cell(kind: ColumnKind, record: Option<Stock>, limit: int) -> Seq<char> {
    pad_left(spec_content(kind, record), limit)
}

/// The name column: the symbol, or the header label `symbol`.
pub fn render_name(stock_option: Option<&Stock>, limit: usize) -> (cell: String)
    ensures
        cell@ == spec_cell(ColumnKind::Name, opt_record(stock_option), limit as int),
{
    match stock_option {
        Some(stock) => pad_left_string(stock.symbol.clone(), limit),
        None => pad_left_string("symbol".to_owned(), limit),
    }
}

/// The open column: the open price, or the header label `open`.
pub fn render_open(stock_option: Option<&Stock>, limit: usize) -> (cell: String)
    ensures
        cell@ == spec_cell(ColumnKind::Open, opt_record(stock_option), limit as int),
{
    match stock_option {
        Some(stock) => pad_left_string(fmt_fixed3(stock.open), limit),
        None => pad_left_string("open".to_owned(), limit),
    }
}

/// The last-price column: the latest price and its percent change
/// against the open, or the header label `current`.
pub fn render_last(stock_option: Option<&Stock>, limit: usize) -> (cell: String)
    ensures
        cell@ == spec_cell(ColumnKind::Last, opt_record(stock_option), limit as int),
{
    match stock_option {
        Some(stock) => {
            if stock.open.milli == 0 {
                pad_left_string("N/A".to_owned(), limit)
            } else {
                let percent = percent_hundredths(stock.last_done, stock.open);
                let mut text = fmt_fixed3(stock.last_done);
                text.append("(");
                let percent_text = fmt_fixed2(percent);
                text.append(percent_text.as_str());
                text.append("%)");
                proof {
                    assert(text@ =~= spec_last_content(*stock));
                }
                pad_left_string(text, limit)
            }
        },
        None => pad_left_string("current".to_owned(), limit),
    }
}

/// The low column: the lowest price, or the header label `low`.
pub fn render_low(stock_option: Option<&Stock>, limit: usize) -> (cell: String)
    ensures
        cell@ == spec_cell(ColumnKind::Low, opt_record(stock_option), limit as int),
{
    match stock_option {
        Some(stock) => pad_left_string(fmt_fixed3(stock.low), limit),
        None => pad_left_string("low".to_owned(), limit),
    }
}

/// The high column: the highest price, or the header label `high`.
pub fn render_high(stock_option: Option<&Stock>, limit: usize) -> (cell: String)
    ensures
        cell@ == spec_cell(ColumnKind::High, opt_record(stock_option), limit as int),
{
    match stock_option {
        Some(stock) => pad_left_string(fmt_fixed3(stock.high), limit),
        None => pad_left_string("high".to_owned(), limit),
    }
}

/// The record shown in slot `index` of the table, if the slot holds
/// one.
pub open spec fn spec_slot(stocks: Seq<Stock>, index: int) -> Option<Stock> {
    if 0 <= index < stocks.len() {
        Some(stocks[index])
    } else {
        None
    }
}

/// The screen line of slot `index` on its page: line 0 is the header,
/// so rows start at line 1.
pub open spec fn spec_row_line(index: int, page_size: int) -> int
    recommends
        page_size >= 1,
{
    index % page_size + 1
}

/// The text operations that write the cells of one row, one per
/// column of the plan.
pub open spec fn spec_cells_ops(renders: Seq<(usize, ColumnKind)>, record: Option<Stock>) -> Seq<
    TermOpView,
>
    decreases renders.len(),
{
    if renders.len() == 0 {
        Seq::empty()
    } else {
        spec_cells_ops(renders.drop_last(), record) + seq![
            TermOpView::Text(
                spec_cell(renders.last().1, record, renders.last().0 as int),
            ),
        ]
    }
}

/// The operations that redraw one row: position the cursor on its
/// line, clear the line, write every cell, flush.
pub open spec fn spec_row_ops(
    renders: Seq<(usize, ColumnKind)>,
    record: Option<Stock>,
    line: int,
) -> Seq<TermOpView> {
    seq![TermOpView::MoveTo { row: line, col: 0 }, TermOpView::ClearLine] + spec_cells_ops(
        renders,
        record,
    ) + seq![TermOpView::Flush]
}

/// The operations that draw the first `count` slots of the current
/// page, in order.
pub open spec fn spec_rows_ops(
    renders: Seq<(usize, ColumnKind)>,
    stocks: Seq<Stock>,
    page_size: int,
    count: int,
) -> Seq<TermOpView>
    decreases count,
{
    if count <= 0 {
        Seq::empty()
    } else {
        spec_rows_ops(renders, stocks, page_size, count - 1) + spec_row_ops(
            renders,
            spec_slot(stocks, count - 1),
            spec_row_line(count - 1, page_size),
        )
    }
}

/// Every operation a full render emits: clear the screen, the header
/// row, one row per slot of the current page (a slot without a record
/// draws the column placeholders), then the command line.
pub open spec fn spec_full_render_ops(
    renders: Seq<(usize, ColumnKind)>,
    stocks: Seq<Stock>,
    page_size: int,
    command: Seq<char>,
) -> Seq<TermOpView> {
    seq![
        TermOpView::ClearAll,
        TermOpView::MoveTo { row: 0, col: 0 },
        TermOpView::ClearLine,
    ] + spec_cells_ops(renders, None) + spec_rows_ops(renders, stocks, page_size, page_size)
        + seq![
        TermOpView::MoveTo { row: page_size + 1, col: 0 },
        TermOpView::ClearLine,
        TermOpView::Text(command),
    ]
}

/// The paged table renderer. It owns the output surface: every redraw
/// appends terminal operations to `out`, and whatever drives the
/// renderer performs them against the physical terminal.
pub struct MonoRender {
    /// The page on show, 1-based. Fixed at 1 for the renderer's
    /// lifetime.
    pub page_no: usize,
    /// Rows per page: the terminal height less the header line and
    /// the command line.
    pub page_size: usize,
    /// The pending terminal operations, in order.
    pub out: Vec<TermOp>,
    /// The symbol-to-row index: entry `i` holds the symbol of
    /// `stocks[i]` and the position `i`.
    pub stock_index_map: Vec<(String, usize)>,
    /// The records on show, in the order first seen.
    pub stocks: Vec<Stock>,
    /// The column plan: `(width, kind)` per column.
    pub renders: Vec<(usize, ColumnKind)>,
}

impl MonoRender {
    /// The renderer's invariant: the pagination window is sane, and
    /// the symbol-to-row index is exactly consistent with `stocks` —
    /// entry `i` names the symbol of `stocks[i]` and maps it to `i`,
    /// and no symbol appears twice.
    pub open spec fn wf(self) -> bool {
        &&& self.page_no == 1
        &&& 1 <= self.page_size
        &&& self.page_size < usize::MAX
        &&& self.stock_index_map@.len() == self.stocks@.len()
        &&& forall|i: int|
            0 <= i < self.stocks@.len() ==> (#[trigger] self.stock_index_map@[i]).0@
                == self.stocks@[i].symbol@ && self.stock_index_map@[i].1 == i
        &&& forall|i: int, j: int|
            0 <= i < j < self.stocks@.len() ==> (#[trigger] self.stocks@[i].symbol@) != (
            #[trigger] self.stocks@[j].symbol@)
    }

    /// The symbol-to-row index as a map from symbol to position.
    pub open spec fn index_by_symbol(self) -> Map<Seq<char>, int> {
        Map::new(
            |sym: Seq<char>|
                exists|k: int|
                    0 <= k < self.stock_index_map@.len() && (#[trigger] self.stock_index_map@[k]).0@
                        == sym,
            |sym: Seq<char>|
                {
                    let k = choose|k: int|
                        0 <= k < self.stock_index_map@.len() && (
                        #[trigger] self.stock_index_map@[k]).0@ == sym;
                    self.stock_index_map@[k].1 as int
                },
        )
    }

    /// Row-index invariant: in a well-formed renderer, every stored
    /// symbol is registered in the index, and its registered row is
    /// its actual position in `stocks`.
    pub proof fn lemma_row_index_invariant(self)
        requires
            self.wf(),
        ensures
            forall|i: int|
                0 <= i < self.stocks@.len() ==> self.index_by_symbol().dom().contains(
                    (#[trigger] self.stocks@[i]).symbol@,
                ) && self.index_by_symbol()[self.stocks@[i].symbol@] == i,
    {
        assert forall|i: int| 0 <= i < self.stocks@.len() implies self.index_by_symbol().dom()
            .contains((#[trigger] self.stocks@[i]).symbol@) && self.index_by_symbol()[self.stocks@[i].symbol@] == i by {
            let sym = self.stocks@[i].symbol@;
            assert(self.stock_index_map@[i].0@ == sym);
            let k = choose|k: int|
                0 <= k < self.stock_index_map@.len() && (#[trigger] self.stock_index_map@[k]).0@
                    == sym;
            assert(self.stocks@[k].symbol@ == sym);
            if k != i {
                assert(self.stocks@[k].symbol@ != self.stocks@[i].symbol@);
            }
        }
    }

    /// A fresh renderer for a terminal of the given size: page 1, a
    /// page of `height - 2` rows (one line reserved for the header,
    /// one for the command line), nothing on show yet.
    pub fn init(_width: usize, height: usize) -> (r: MonoRender)
        requires
            3 <= height,
        ensures
            r.wf(),
            r.page_no == 1,
            r.page_size == height - 2,
            r.out@.len() == 0,
            r.stock_index_map@.len() == 0,
            r.stocks@.len() == 0,
            r.renders@.len() == 0,
    {
        MonoRender {
            page_no: 1,
            page_size: height - 2,
            out: Vec::new(),
            stock_index_map: Vec::new(),
            stocks: Vec::new(),
            renders: Vec::new(),
        }
    }

    /// Recomputes the column plan for the terminal size. The page
    /// grows or shrinks to `height - 2` rows either way; with a width
    /// under 24 characters no layout exists, the plan is left as it
    /// was, and the error is returned.
    pub fn build_render_map(&mut self, width: usize, height: usize) -> (r: Result<(), String>)
        requires
            3 <= height,
        ensures
            final(self).page_no == old(self).page_no,
            final(self).page_size == height - 2,
            final(self).out == old(self).out,
            final(self).stock_index_map == old(self).stock_index_map,
            final(self).stocks == old(self).stocks,
            r is Err <==> width < 24,
            r matches Err(m) ==> m@ == "Width is too small"@ && final(self).renders == old(
                self,
            ).renders,
            r is Ok ==> matches_layout(final(self).renders@, width as int),
    {
        self.page_size = height - 2;
        if width < 24 {
            Err("Width is too small".to_owned())
        } else if width < 51 {
            let mut plan: Vec<(usize, ColumnKind)> = Vec::new();
            plan.push((width / 23 * 7, ColumnKind::Name));
            plan.push((width - width / 23 * 7, ColumnKind::Last));
            self.renders = plan;
            Ok(())
        } else {
            let mut plan: Vec<(usize, ColumnKind)> = Vec::new();
            plan.push((width / 51 * 7, ColumnKind::Name));
            plan.push((width / 51 * 8, ColumnKind::Open));
            plan.push((width / 51 * 16, ColumnKind::Last));
            plan.push((width / 51 * 8, ColumnKind::Low));
            plan.push((width / 51 * 8, ColumnKind::High));
            self.renders = plan;
            Ok(())
        }
    }

    /// Repositions the cursor and clears the line it lands on.
    fn move_cursor(&mut self, row: usize, col: usize)
        ensures
            final(self).page_no == old(self).page_no,
            final(self).page_size == old(self).page_size,
            final(self).stock_index_map == old(self).stock_index_map,
            final(self).stocks == old(self).stocks,
            final(self).renders == old(self).renders,
            ops_view(final(self).out@) == ops_view(old(self).out@) + seq![
                TermOpView::MoveTo { row: row as int, col: col as int },
                TermOpView::ClearLine,
            ],
    {
        self.out.push(TermOp::MoveTo { row, col });
        self.out.push(TermOp::ClearLine);
        proof {
            assert(ops_view(self.out@) =~= ops_view(old(self).out@) + seq![
                TermOpView::MoveTo { row: row as int, col: col as int },
                TermOpView::ClearLine,
            ]);
        }
    }

    /// Draws the row of slot `index`, which must lie on the page on
    /// show: cursor to its line, clear it, one cell per column —
    /// the record's fields if the slot holds one, the column
    /// placeholders if not — then flush.
    fn draw_slot(&mut self, index: usize)
        requires
            old(self).wf(),
            index as int / old(self).page_size as int + 1 == old(self).page_no,
        ensures
            final(self).page_no == old(self).page_no,
            final(self).page_size == old(self).page_size,
            final(self).stock_index_map == old(self).stock_index_map,
            final(self).stocks == old(self).stocks,
            final(self).renders == old(self).renders,
            ops_view(final(self).out@) == ops_view(old(self).out@) + spec_row_ops(
                old(self).renders@,
                spec_slot(old(self).stocks@, index as int),
                spec_row_line(index as int, old(self).page_size as int),
            ),
    {
        proof {
            vstd::arithmetic::div_mod::lemma_fundamental_div_mod(
                index as int,
                self.page_size as int,
            );
        }
        let cur_page_no = index / self.page_size;
        let line = index - cur_page_no * self.page_size + 1;
        self.move_cursor(line, 0);
        let ghost header_ops = ops_view(self.out@);
        let ghost pre = *old(self);
        let mut c: usize = 0;
        while c < self.renders.len()
            invariant
                pre.wf(),
                self.page_no == pre.page_no,
                self.page_size == pre.page_size,
                self.stock_index_map == pre.stock_index_map,
                self.stocks == pre.stocks,
                self.renders == pre.renders,
                c <= self.renders@.len(),
                ops_view(self.out@) == header_ops + spec_cells_ops(
                    pre.renders@.take(c as int),
                    spec_slot(pre.stocks@, index as int),
                ),
            decreases self.renders@.len() - c,
        {
            let (limit, kind) = self.renders[c];
            let cell = if index < self.stocks.len() {
                render_cell(kind, Some(&self.stocks[index]), limit)
            } else {
                render_cell(kind, None, limit)
            };
            let ghost out0 = self.out@;
            self.out.push(TermOp::Text(cell));
            proof {
                let rends = pre.renders@;
                let rec = spec_slot(pre.stocks@, index as int);
                assert(ops_view(self.out@) =~= ops_view(out0) + seq![TermOpView::Text(cell@)]);
                assert(rends.take(c + 1).drop_last() =~= rends.take(c as int));
                assert(rends.take(c + 1).last() == rends[c as int]);
                assert(cell@ == spec_cell(rends[c as int].1, rec, rends[c as int].0 as int));
                assert(spec_cells_ops(rends.take(c + 1), rec) == spec_cells_ops(
                    rends.take(c as int),
                    rec,
                ) + seq![TermOpView::Text(cell@)]);
                assert(ops_view(self.out@) =~= header_ops + spec_cells_ops(
                    rends.take(c + 1),
                    rec,
                ));
            }
            c = c + 1;
        }
        let ghost out1 = self.out@;
        self.out.push(TermOp::Flush);
        proof {
            assert(ops_view(self.out@) =~= ops_view(out1) + seq![TermOpView::Flush]);
            vstd::arithmetic::div_mod::lemma_fundamental_div_mod(
                index as int,
                pre.page_size as int,
            );
            let rends = pre.renders@;
            let rec = spec_slot(pre.stocks@, index as int);
            assert(line as int == spec_row_line(index as int, pre.page_size as int));
            assert(rends.take(rends.len() as int) =~= rends);
            assert(ops_view(self.out@) =~= header_ops + spec_cells_ops(rends, rec) + seq![
                TermOpView::Flush,
            ]);
            assert(ops_view(self.out@) =~= ops_view(old(self).out@) + spec_row_ops(
                rends,
                rec,
                spec_row_line(index as int, pre.page_size as int),
            ));
        }
    }

    /// Looks a symbol up in the symbol-to-row index.
    pub fn find_index(&self, symbol: &String) -> (r: Option<usize>)
        requires
            self.wf(),
        ensures
            match r {
                Some(i) => i < self.stocks@.len() && self.stocks@[i as int].symbol@ == symbol@,
                None => forall|i: int|
                    0 <= i < self.stocks@.len() ==> (#[trigger] self.stocks@[i]).symbol@
                        != symbol@,
            },
    {
        let mut k: usize = 0;
        while k < self.stock_index_map.len()
            invariant
                self.wf(),
                k <= self.stock_index_map@.len(),
                forall|i: int| 0 <= i < k ==> (#[trigger] self.stocks@[i]).symbol@ != symbol@,
            decreases self.stock_index_map@.len() - k,
        {
            if self.stock_index_map[k].0 == *symbol {
                return Some(self.stock_index_map[k].1);
            }
            k = k + 1;
        }
        None
    }

    /// Redraws the row of slot `index`, if it is visible: a no-op when
    /// the slot's page is not the page on show, and a no-op when the
    /// index lies beyond the records held (a defensive bound check).
    pub fn refresh_stock_index(&mut self, index: usize)
        requires
            old(self).wf(),
            index < usize::MAX,
        ensures
            final(self).page_no == old(self).page_no,
            final(self).page_size == old(self).page_size,
            final(self).stock_index_map == old(self).stock_index_map,
            final(self).stocks == old(self).stocks,
            final(self).renders == old(self).renders,
            ({
                let ps = old(self).page_size as int;
                if index as int / ps + 1 != old(self).page_no {
                    final(self).out == old(self).out
                } else if old(self).stocks@.len() <= index {
                    final(self).out == old(self).out
                } else {
                    ops_view(final(self).out@) == ops_view(old(self).out@) + spec_row_ops(
                        old(self).renders@,
                        Some(old(self).stocks@[index as int]),
                        spec_row_line(index as int, ps),
                    )
                }
            }),
    {
        let cur_page_no = index / self.page_size;
        if cur_page_no + 1 != self.page_no {
            return ;
        }
        if self.stocks.len() <= index {
            return ;
        }
        self.draw_slot(index);
    }

    /// Applies one arriving record: a known symbol's slot is
    /// overwritten in place, an unseen symbol is appended to `stocks`
    /// and registered under the next sequential index; either way only
    /// the affected row is redrawn, and not at all when its page is
    /// not on show.
    pub fn refresh_stock(&mut self, stock: Stock)
        requires
            old(self).wf(),
            old(self).stocks@.len() < usize::MAX,
        ensures
            final(self).wf(),
            final(self).page_no == old(self).page_no,
            final(self).page_size == old(self).page_size,
            final(self).renders == old(self).renders,
            ({
                let stocks0 = old(self).stocks@;
                if exists|i: int|
                    0 <= i < stocks0.len() && (#[trigger] stocks0[i]).symbol@ == stock.symbol@ {
                    let i = choose|i: int|
                        0 <= i < stocks0.len() && (#[trigger] stocks0[i]).symbol@
                            == stock.symbol@;
                    &&& final(self).stocks@ == stocks0.update(i, stock)
                    &&& final(self).stock_index_map == old(self).stock_index_map
                    &&& spec_refresh_out(*old(self), *final(self), stock, i)
                } else {
                    &&& final(self).stocks@ == stocks0.push(stock)
                    &&& final(self).stock_index_map@.len() == stocks0.len() + 1
                    &&& final(self).stock_index_map@.drop_last() == old(self).stock_index_map@
                    &&& final(self).stock_index_map@.last().0@ == stock.symbol@
                    &&& final(self).stock_index_map@.last().1 == stocks0.len()
                    &&& spec_refresh_out(*old(self), *final(self), stock, stocks0.len() as int)
                }
            }),
    {
        let option = self.find_index(&stock.symbol);
        match option {
            Some(i) => {
                proof {
                    let stocks0 = self.stocks@;
                    assert(0 <= i < stocks0.len() && stocks0[i as int].symbol@ == stock.symbol@);
                    let k = choose|k: int|
                        0 <= k < stocks0.len() && (#[trigger] stocks0[k]).symbol@
                            == stock.symbol@;
                    if k < i as int {
                        assert(stocks0[k].symbol@ != stocks0[i as int].symbol@);
                    }
                    if (i as int) < k {
                        assert(stocks0[i as int].symbol@ != stocks0[k].symbol@);
                    }
                    assert(k == i as int);
                }
                self.stocks[i] = stock;
                proof {
                    assert(self.wf());
                }
                self.refresh_stock_index(i);
            },
            None => {
                let symbol = stock.symbol.clone();
                let n = self.stocks.len();
                self.stocks.push(stock);
                self.stock_index_map.push((symbol, n));
                proof {
                    assert(self.stock_index_map@.drop_last() =~= old(self).stock_index_map@);
                    assert(self.wf());
                }
                self.refresh_stock_index(n);
            },
        }
    }

    /// Rewrites the command line: cursor to the reserved status line
    /// under the table, clear it, write `command` verbatim.
    pub fn refresh_command(&mut self, command: &str)
        requires
            old(self).wf(),
        ensures
            final(self).page_no == old(self).page_no,
            final(self).page_size == old(self).page_size,
            final(self).stock_index_map == old(self).stock_index_map,
            final(self).stocks == old(self).stocks,
            final(self).renders == old(self).renders,
            ops_view(final(self).out@) == ops_view(old(self).out@) + seq![
                TermOpView::MoveTo { row: old(self).page_size as int + 1, col: 0 },
                TermOpView::ClearLine,
                TermOpView::Text(command@),
            ],
    {
        let row = self.page_size + 1;
        self.move_cursor(row, 0);
        let ghost out0 = self.out@;
        self.out.push(TermOp::Text(command.to_owned()));
        proof {
            assert(ops_view(self.out@) =~= ops_view(out0) + seq![TermOpView::Text(command@)]);
            assert(ops_view(self.out@) =~= ops_view(old(self).out@) + seq![
                TermOpView::MoveTo { row: old(self).page_size as int + 1, col: 0 },
                TermOpView::ClearLine,
                TermOpView::Text(command@),
            ]);
        }
    }

    /// Full render, for startup and for a terminal resize: replaces
    /// the records on show, rebuilds the symbol-to-row index from
    /// scratch, recomputes the column plan from `width`, then clears
    /// the screen and draws the header row, every slot of the current
    /// page, and the command line. With a width under 24 characters
    /// the layout fails; the state is replaced but nothing is drawn.
    pub fn render(
        &mut self,
        width: usize,
        height: usize,
        stocks: Vec<Stock>,
        command: &str,
    ) -> (r: Result<(), String>)
        requires
            old(self).wf(),
            3 <= height,
            forall|i: int, j: int|
                0 <= i < j < stocks@.len() ==> (#[trigger] stocks@[i].symbol@) != (
                #[trigger] stocks@[j].symbol@),
        ensures
            final(self).wf(),
            final(self).page_no == old(self).page_no,
            final(self).page_size == height - 2,
            final(self).stocks == stocks,
            r is Err <==> width < 24,
            r matches Err(m) ==> m@ == "Width is too small"@ && final(self).renders == old(
                self,
            ).renders && final(self).out == old(self).out,
            r is Ok ==> matches_layout(final(self).renders@, width as int) && ops_view(
                final(self).out@,
            ) == ops_view(old(self).out@) + spec_full_render_ops(
                final(self).renders@,
                stocks@,
                (height - 2) as int,
                command@,
            ),
    {
        self.stocks = stocks;
        self.stock_index_map = Vec::new();
        let mut k: usize = 0;
        while k < self.stocks.len()
            invariant
                self.page_no == old(self).page_no,
                self.page_size == old(self).page_size,
                self.out == old(self).out,
                self.renders == old(self).renders,
                self.stocks == stocks,
                k <= self.stocks@.len(),
                self.stock_index_map@.len() == k as int,
                forall|i: int|
                    0 <= i < k ==> (#[trigger] self.stock_index_map@[i]).0@
                        == self.stocks@[i].symbol@ && self.stock_index_map@[i].1 == i,
            decreases self.stocks@.len() - k,
        {
            let sym = self.stocks[k].symbol.clone();
            self.stock_index_map.push((sym, k));
            k = k + 1;
        }
        match self.build_render_map(width, height) {
            Err(e) => {
                return Err(e);
            },
            Ok(()) => {},
        }
        proof {
            assert(self.wf());
        }
        let ghost base = ops_view(old(self).out@);
        self.out.push(TermOp::ClearAll);
        proof {
            assert(ops_view(self.out@) =~= base + seq![TermOpView::ClearAll]);
        }
        self.move_cursor(0, 0);
        let ghost opening = seq![
            TermOpView::ClearAll,
            TermOpView::MoveTo { row: 0, col: 0 },
            TermOpView::ClearLine,
        ];
        proof {
            assert(ops_view(self.out@) =~= base + opening);
        }
        let ghost pre = *self;
        let mut c: usize = 0;
        while c < self.renders.len()
            invariant
                pre.wf(),
                self.page_no == pre.page_no,
                self.page_size == pre.page_size,
                self.stock_index_map == pre.stock_index_map,
                self.stocks == pre.stocks,
                self.renders == pre.renders,
                c <= self.renders@.len(),
                ops_view(self.out@) == ops_view(pre.out@) + spec_cells_ops(
                    pre.renders@.take(c as int),
                    None,
                ),
            decreases self.renders@.len() - c,
        {
            let (limit, kind) = self.renders[c];
            let cell = render_cell(kind, None, limit);
            let ghost out0 = self.out@;
            self.out.push(TermOp::Text(cell));
            proof {
                let rends = pre.renders@;
                assert(ops_view(self.out@) =~= ops_view(out0) + seq![TermOpView::Text(cell@)]);
                assert(rends.take(c + 1).drop_last() =~= rends.take(c as int));
                assert(rends.take(c + 1).last() == rends[c as int]);
                assert(spec_cells_ops(rends.take(c + 1), None) == spec_cells_ops(
                    rends.take(c as int),
                    None,
                ) + seq![TermOpView::Text(cell@)]);
                assert(ops_view(self.out@) =~= ops_view(pre.out@) + spec_cells_ops(
                    rends.take(c + 1),
                    None,
                ));
            }
            c = c + 1;
        }
        proof {
            assert(pre.renders@.take(pre.renders@.len() as int) =~= pre.renders@);
        }
        let ghost header_done = ops_view(self.out@);
        let mut rix: usize = 0;
        while rix < self.page_size
            invariant
                pre.wf(),
                self.page_no == pre.page_no,
                self.page_size == pre.page_size,
                self.stock_index_map == pre.stock_index_map,
                self.stocks == pre.stocks,
                self.renders == pre.renders,
                rix <= self.page_size,
                ops_view(self.out@) == header_done + spec_rows_ops(
                    pre.renders@,
                    pre.stocks@,
                    pre.page_size as int,
                    rix as int,
                ),
            decreases self.page_size - rix,
        {
            proof {
                assert(self.page_no == 1);
                assert(self.page_no - 1 == 0);
                assert((self.page_no - 1) * self.page_size == 0);
            }
            let j = rix + (self.page_no - 1) * self.page_size;
            proof {
                assert(j == rix);
                assert(j as int / self.page_size as int == 0) by (nonlinear_arith)
                    requires
                        0 <= j < self.page_size,
                ;
            }
            self.draw_slot(j);
            proof {
                assert(ops_view(self.out@) =~= header_done + spec_rows_ops(
                    pre.renders@,
                    pre.stocks@,
                    pre.page_size as int,
                    rix + 1,
                ));
            }
            rix = rix + 1;
        }
        self.refresh_command(command);
        proof {
            assert(ops_view(self.out@) =~= base + spec_full_render_ops(
                pre.renders@,
                pre.stocks@,
                pre.page_size as int,
                command@,
            ));
        }
        Ok(())
    }
}

impl crate::render::Render for MonoRender {
    open spec fn inv(&self) -> bool {
        self.wf()
    }

    open spec fn can_accept(&self) -> bool {
        self.stocks@.len() < usize::MAX
    }

    fn init(width: usize, height: usize) -> (r: MonoRender) {
        MonoRender::init(width, height)
    }

    fn render(
        &mut self,
        width: usize,
        height: usize,
        stocks: Vec<Stock>,
        command: &str,
    ) -> (r: Result<(), String>) {
        MonoRender::render(self, width, height, stocks, command)
    }

    fn refresh_stock(&mut self, stock: Stock) {
        MonoRender::refresh_stock(self, stock)
    }

    fn refresh_command(&mut self, command: &str) {
        MonoRender::refresh_command(self, command)
    }
}

/// Only the affected row was drawn: when slot `index` lies on the page
/// on show, the output grew by exactly that row's redraw; when it does
/// not, the output is untouched.
pub open spec fn spec_refresh_out(
    pre: MonoRender,
    post: MonoRender,
    stock: Stock,
    index: int,
) -> bool {
    if index / pre.page_size as int + 1 == pre.page_no {
        ops_view(post.out@) == ops_view(pre.out@) + spec_row_ops(
            pre.renders@,
            Some(stock),
            spec_row_line(index, pre.page_size as int),
        )
    } else {
        post.out == pre.out
    }
}

/// The cell for one column of the plan.
pub fn render_cell(kind: ColumnKind, stock_option: Option<&Stock>, limit: usize) -> (cell: String)
    ensures
        cell@ == spec_cell(kind, opt_record(stock_option), limit as int),
{
    match kind {
        ColumnKind::Name => render_name(stock_option, limit),
        ColumnKind::Open => render_open(stock_option, limit),
        ColumnKind::Last => render_last(stock_option, limit),
        ColumnKind::Low => render_low(stock_option, limit),
        ColumnKind::High => render_high(stock_option, limit),
    }
}

} // verus!
