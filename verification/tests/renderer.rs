use stockwatch::common::{Fixed3, Stock};
use stockwatch::render::mono::{
    render_high, render_last, render_low, render_name, render_open, ColumnKind, MonoRender,
};
use stockwatch::render::TermOp;

fn stock(symbol: &str, last_done: i64, open: i64) -> Stock {
    Stock {
        symbol: symbol.to_owned(),
        timestamp: 0,
        last_done: Fixed3 { milli: last_done },
        open: Fixed3 { milli: open },
        high: Fixed3 { milli: last_done },
        low: Fixed3 { milli: open },
    }
}

#[test]
fn percent_display_exact() {
    // open 100.000, last done 101.230 shows as 101.230(1.23%)
    let s = stock("700.HK", 101230, 100000);
    assert_eq!(render_last(Some(&s), 16), "  101.230(1.23%)");
}

#[test]
fn over_long_symbol_is_cut_to_its_column() {
    // the cell stays exactly as wide as its column, so a long symbol
    // never shifts the cells after it
    let s = stock("LONGSYMBOL.US", 100000, 100000);
    assert_eq!(render_name(Some(&s), 7), "LONGSYM");
}

#[test]
fn percent_display_zero_open() {
    let s = stock("700.HK", 101230, 0);
    assert_eq!(render_last(Some(&s), 5), "  N/A");
}

#[test]
fn header_row_two_column_regime() {
    // width 30: a 7-character name column and a 23-character last column
    let mut r = MonoRender::init(30, 10);
    assert!(r.build_render_map(30, 10).is_ok());
    assert_eq!(r.renders.len(), 2);
    assert_eq!(r.renders[0], (7, ColumnKind::Name));
    assert_eq!(r.renders[1], (23, ColumnKind::Last));
    assert_eq!(render_name(None, 7), " symbol");
    assert_eq!(render_last(None, 23), "                current");
}

#[test]
fn header_row_five_column_regime() {
    // width 51: five columns of widths 7, 8, 16, 8 and 8
    let mut r = MonoRender::init(51, 10);
    assert!(r.build_render_map(51, 10).is_ok());
    assert_eq!(r.renders.len(), 5);
    assert_eq!(r.renders[0], (7, ColumnKind::Name));
    assert_eq!(r.renders[1], (8, ColumnKind::Open));
    assert_eq!(r.renders[2], (16, ColumnKind::Last));
    assert_eq!(r.renders[3], (8, ColumnKind::Low));
    assert_eq!(r.renders[4], (8, ColumnKind::High));
    assert_eq!(render_name(None, 7), " symbol");
    assert_eq!(render_open(None, 8), "    open");
    assert_eq!(render_last(None, 16), "         current");
    assert_eq!(render_low(None, 8), "     low");
    assert_eq!(render_high(None, 8), "    high");
}

#[test]
fn layout_boundary() {
    // width 23 is unusable, width 24 yields the two-column regime
    let mut r = MonoRender::init(24, 10);
    let rejected = r.build_render_map(23, 10);
    assert_eq!(rejected, Err("Width is too small".to_owned()));
    assert!(r.renders.is_empty());
    assert!(r.build_render_map(24, 10).is_ok());
    assert_eq!(r.renders[0], (7, ColumnKind::Name));
    assert_eq!(r.renders[1], (17, ColumnKind::Last));
}

#[test]
fn render_rejects_narrow_terminal() {
    let mut r = MonoRender::init(23, 10);
    let rejected = r.render(23, 10, Vec::new(), "");
    assert_eq!(rejected, Err("Width is too small".to_owned()));
    assert!(r.out.is_empty());
}

#[test]
fn full_render_ops() {
    // height 3 leaves a single row between the header and the command
    // line; the row is drawn even while it holds no record
    let mut r = MonoRender::init(30, 3);
    assert!(r.render(30, 3, vec![stock("700.HK", 101230, 100000)], "hi").is_ok());
    let texts: Vec<&str> = r
        .out
        .iter()
        .filter_map(|op| match op {
            TermOp::Text(s) => Some(s.as_str()),
            _ => None,
        })
        .collect();
    assert_eq!(
        texts,
        vec![
            " symbol",
            "                current",
            " 700.HK",
            "         101.230(1.23%)",
            "hi",
        ]
    );
    assert!(matches!(r.out[0], TermOp::ClearAll));
    assert!(matches!(r.out[1], TermOp::MoveTo { row: 0, col: 0 }));
    assert!(matches!(r.out[2], TermOp::ClearLine));
}

#[test]
fn full_render_draws_placeholder_rows() {
    let mut r = MonoRender::init(30, 3);
    assert!(r.render(30, 3, Vec::new(), "").is_ok());
    let texts: Vec<&str> = r
        .out
        .iter()
        .filter_map(|op| match op {
            TermOp::Text(s) => Some(s.as_str()),
            _ => None,
        })
        .collect();
    // the header row, one placeholder row, and the empty command line
    assert_eq!(
        texts,
        vec![
            " symbol",
            "                current",
            " symbol",
            "                current",
            "",
        ]
    );
}

#[test]
fn off_page_update_writes_nothing() {
    // page size 10, page 1: an update to the record at index 15 must
    // not touch the terminal
    let mut r = MonoRender::init(80, 12);
    let mut stocks = Vec::new();
    for i in 0..16 {
        stocks.push(stock(&format!("S{:02}.HK", i), 100000 + i, 100000));
    }
    assert!(r.render(80, 12, stocks, "").is_ok());
    let drawn = r.out.len();
    r.refresh_stock(stock("S15.HK", 222000, 100000));
    assert_eq!(r.out.len(), drawn);
    assert_eq!(r.stocks[15].last_done, Fixed3 { milli: 222000 });
}

#[test]
fn on_page_update_redraws_one_row() {
    let mut r = MonoRender::init(80, 12);
    assert!(r.render(80, 12, vec![stock("700.HK", 100000, 100000)], "").is_ok());
    let drawn = r.out.len();
    r.refresh_stock(stock("700.HK", 101230, 100000));
    // cursor move, line clear, five cells, flush
    assert_eq!(r.out.len(), drawn + 8);
    assert!(matches!(r.out[drawn], TermOp::MoveTo { row: 1, col: 0 }));
    assert!(matches!(r.out[drawn + 1], TermOp::ClearLine));
    assert!(matches!(r.out[drawn + 7], TermOp::Flush));
}

#[test]
fn new_symbol_appends_next_index() {
    let mut r = MonoRender::init(80, 12);
    assert!(r.render(80, 12, Vec::new(), "").is_ok());
    r.refresh_stock(stock("700.HK", 101230, 100000));
    assert_eq!(r.stocks.len(), 1);
    assert_eq!(r.stock_index_map[0], ("700.HK".to_owned(), 0));
    r.refresh_stock(stock("AAPL.US", 150000, 140000));
    assert_eq!(r.stocks.len(), 2);
    assert_eq!(r.stock_index_map[1], ("AAPL.US".to_owned(), 1));
    // an update to a known symbol overwrites its slot in place
    r.refresh_stock(stock("700.HK", 102000, 100000));
    assert_eq!(r.stocks.len(), 2);
    assert_eq!(r.stocks[0].last_done, Fixed3 { milli: 102000 });
    assert_eq!(r.stock_index_map.len(), 2);
}

#[test]
fn refresh_command_targets_status_line() {
    let mut r = MonoRender::init(30, 10);
    r.refresh_command("quit");
    assert!(matches!(r.out[0], TermOp::MoveTo { row: 9, col: 0 }));
    assert!(matches!(r.out[1], TermOp::ClearLine));
    assert!(matches!(&r.out[2], TermOp::Text(s) if s == "quit"));
}
