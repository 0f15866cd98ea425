use stockwatch::common::{Fixed3, Stock};
use stockwatch::source::{
    translate_stock, LongPortToken, PushUpdate, Setting, SourceManager, StockConfig,
};

fn entry(symbol: &str, name: &str, source: &str) -> StockConfig {
    StockConfig {
        symbol: symbol.to_owned(),
        name: name.to_owned(),
        source: source.to_owned(),
    }
}

#[test]
fn take_long_port_consumes_credentials() {
    let mut setting = Setting {
        long_port: Some(LongPortToken {
            app_key: "key".to_owned(),
            app_secret: "secret".to_owned(),
            access_token: "token".to_owned(),
        }),
        stock: vec![entry("700.HK", "Tencent", "long_port")],
    };
    let taken = setting.take_long_port();
    assert!(taken.is_ok());
    assert!(setting.long_port.is_none());
    assert_eq!(setting.stock.len(), 1);
    // a second construction attempt cannot reuse them
    let again = setting.take_long_port();
    assert_eq!(again.err(), Some("Long Port TOKEN is nil".to_owned()));
}

#[test]
fn translate_quote_event() {
    let update = PushUpdate::Quote {
        symbol: "700.HK".to_owned(),
        timestamp: 1700000000,
        last_done: Fixed3 { milli: 101230 },
        open: Fixed3 { milli: 100000 },
        high: Fixed3 { milli: 102000 },
        low: Fixed3 { milli: 99000 },
    };
    let record = translate_stock(update).expect("a quote event becomes a record");
    assert_eq!(record.symbol, "700.HK");
    assert_eq!(record.timestamp, 1700000000);
    assert_eq!(record.last_done, Fixed3 { milli: 101230 });
    assert_eq!(record.open, Fixed3 { milli: 100000 });
}

#[test]
fn translate_filters_other_events() {
    assert!(translate_stock(PushUpdate::Other).is_none());
}

#[test]
fn new_manager_arms_every_source_once() {
    let m = SourceManager::new(vec!["long_port".to_owned(), "paper".to_owned()]);
    assert_eq!(m.pending, vec![1, 1]);
    assert_eq!(m.sources.len(), 2);
}

#[test]
fn completion_passes_update_through_and_rearms() {
    let mut m = SourceManager::new(vec!["long_port".to_owned()]);
    let record = Stock {
        symbol: "700.HK".to_owned(),
        timestamp: 0,
        last_done: Fixed3 { milli: 101230 },
        open: Fixed3 { milli: 100000 },
        high: Fixed3 { milli: 101230 },
        low: Fixed3 { milli: 100000 },
    };
    let (update, rearm) = m.recv(&"long_port".to_owned(), Some(record));
    assert!(rearm, "the completed source is re-armed");
    assert_eq!(update.expect("the update is handed out").symbol, "700.HK");
    assert_eq!(m.pending, vec![1], "exactly one receive stays outstanding");
}

#[test]
fn closed_channel_yields_nothing_but_rearms() {
    let mut m = SourceManager::new(vec!["long_port".to_owned()]);
    let (update, rearm) = m.recv(&"long_port".to_owned(), None);
    assert!(update.is_none());
    assert!(rearm);
    assert_eq!(m.pending, vec![1]);
}

#[test]
fn subscription_plan_resolves_sources() {
    let m = SourceManager::new(vec!["long_port".to_owned()]);
    let stocks = vec![
        entry("700.HK", "Tencent", "long_port"),
        entry("AAPL.US", "Apple", "nasdaq"),
        entry("9988.HK", "Alibaba", "long_port"),
    ];
    let plan = m.subscription_plan(&stocks);
    assert_eq!(
        plan,
        vec![
            ("long_port".to_owned(), "700.HK".to_owned()),
            ("long_port".to_owned(), "9988.HK".to_owned()),
        ]
    );
}
