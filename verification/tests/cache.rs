use ex_core::coin_symbol::BookTicker;
use ex_core::coin_symbol::CoinSymbolCache;
use ex_core::coin_symbol::PriceInfo;
use ex_core::decimal::FixedDecimal;

#[test]
fn test_coin_symbols_cache() {
    println!("----- test_coin_symbols cache");
    let mut cache = CoinSymbolCache::new();
    let result = cache.set_coin_symbols("BTC", "BTCUDST");
    println!("coin symbols result: {:?}", result);
    let result = cache.set_coin_symbols("BTC", "BTCBUSD");
    println!("coin symbols result: {:?}", result);
    let result = cache.get_coin_symbols("BTC");
    println!("coin symbols result: {:?}", result);

    let result = cache.set_symbols(
        "BTCUSDT",
        PriceInfo {
            base_asset: "BTC".to_string(),
            quote_asset: "USDT".to_string(),
            price: FixedDecimal::zero(),
            updated: 0,
        },
    );
    println!("symbols result: {:?}", result);
    let result = cache.get_symbols("BTCUSDT");
    println!("symbols result: {:?}", result);
}

#[test]
fn absent_keys_read_as_none() {
    let cache = CoinSymbolCache::new();
    assert!(cache.get_symbols("BTCUSDT").is_none());
    assert!(cache.get_coin_symbols("BTC").is_none());
    assert!(cache.get_book_ticker("BTCUSDT").is_none());
}

#[test]
fn set_symbols_replaces_whole_record() {
    let mut cache = CoinSymbolCache::new();
    cache.set_symbols(
        "ETHUSDT",
        PriceInfo {
            base_asset: "ETH".to_string(),
            quote_asset: "USDT".to_string(),
            price: FixedDecimal { mantissa: 1, scale: 0 },
            updated: 7,
        },
    );
    cache.set_symbols(
        "ETHUSDT",
        PriceInfo {
            base_asset: "ETH".to_string(),
            quote_asset: "USDT".to_string(),
            price: FixedDecimal { mantissa: 25, scale: 1 },
            updated: 9,
        },
    );
    let got = cache.get_symbols("ETHUSDT").unwrap();
    assert_eq!(got.price, FixedDecimal { mantissa: 25, scale: 1 });
    assert_eq!(got.updated, 9);
}

#[test]
fn set_symbols_if_absent_keeps_existing() {
    let mut cache = CoinSymbolCache::new();
    cache.set_symbols(
        "BTCUSDT",
        PriceInfo {
            base_asset: "BTC".to_string(),
            quote_asset: "USDT".to_string(),
            price: FixedDecimal { mantissa: 650005, scale: 1 },
            updated: 1000,
        },
    );
    cache.set_symbols_if_absent(
        "BTCUSDT",
        PriceInfo {
            base_asset: "BTC".to_string(),
            quote_asset: "USDT".to_string(),
            price: FixedDecimal::zero(),
            updated: 0,
        },
    );
    let got = cache.get_symbols("BTCUSDT").unwrap();
    assert_eq!(got.price, FixedDecimal { mantissa: 650005, scale: 1 });
    assert_eq!(got.updated, 1000);
}

#[test]
fn coin_symbols_have_set_semantics() {
    let mut cache = CoinSymbolCache::new();
    cache.set_coin_symbols("BTC", "BTCUSDT");
    cache.set_coin_symbols("BTC", "BTCUSDT");
    cache.set_coin_symbols("BTC", "BTCBUSD");
    let got = cache.get_coin_symbols("BTC").unwrap();
    assert_eq!(got, vec!["BTCUSDT".to_string(), "BTCBUSD".to_string()]);
}

#[test]
fn coin_symbols_snapshot_is_a_copy() {
    let mut cache = CoinSymbolCache::new();
    cache.set_coin_symbols("BTC", "BTCUSDT");
    let snapshot = cache.get_coin_symbols("BTC").unwrap();
    cache.set_coin_symbols("BTC", "BTCBUSD");
    assert_eq!(snapshot, vec!["BTCUSDT".to_string()]);
    let grown = cache.get_coin_symbols("BTC").unwrap();
    assert_eq!(grown.len(), 2);
}

#[test]
fn book_ticker_round_trip() {
    let mut cache = CoinSymbolCache::new();
    cache.set_book_ticker(
        "BTCUSDT",
        BookTicker {
            update_id: 42,
            symbol: "BTCUSDT".to_string(),
            best_bid: FixedDecimal { mantissa: 649999, scale: 1 },
            best_bid_qty: FixedDecimal { mantissa: 5, scale: 0 },
            best_ask: FixedDecimal { mantissa: 650001, scale: 1 },
            best_ask_qty: FixedDecimal { mantissa: 3, scale: 0 },
        },
    );
    let got = cache.get_book_ticker("BTCUSDT").unwrap();
    assert_eq!(got.update_id, 42);
    assert_eq!(got.symbol, "BTCUSDT".to_string());
    assert_eq!(got.best_bid, FixedDecimal { mantissa: 649999, scale: 1 });
    assert_eq!(got.best_ask_qty, FixedDecimal { mantissa: 3, scale: 0 });
}
