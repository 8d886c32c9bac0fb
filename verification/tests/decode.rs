use ex_core::check_diff::CheckDiff;
use ex_core::coin_symbol::BookTicker;
use ex_core::coin_symbol::CoinSymbolCache;
use ex_core::conf::BinanceApiConfig;
use ex_core::conf::Conf;
use ex_core::conf::MysqlConfig;
use ex_core::conf::RedisConfig;
use ex_core::decimal::parse_price_or_zero;
use ex_core::decimal::FixedDecimal;
use ex_core::diag;

#[test]
fn prices_parse_as_exact_fixed_point() {
    assert_eq!(parse_price_or_zero("65000.5"), FixedDecimal { mantissa: 650005, scale: 1 });
    assert_eq!(parse_price_or_zero("2500.25"), FixedDecimal { mantissa: 250025, scale: 2 });
    assert_eq!(parse_price_or_zero("0"), FixedDecimal { mantissa: 0, scale: 0 });
    assert_eq!(parse_price_or_zero("-1.5"), FixedDecimal { mantissa: -15, scale: 1 });
    assert_eq!(
        parse_price_or_zero("0.00000001"),
        FixedDecimal { mantissa: 1, scale: 8 }
    );
}

#[test]
fn unparsable_prices_default_to_zero() {
    assert_eq!(parse_price_or_zero("not-a-number"), FixedDecimal { mantissa: 0, scale: 0 });
    assert_eq!(parse_price_or_zero(""), FixedDecimal { mantissa: 0, scale: 0 });
    assert_eq!(parse_price_or_zero("1.2.3"), FixedDecimal { mantissa: 0, scale: 0 });
}

#[test]
fn book_ticker_step_replaces_the_quote() {
    let mut cache = CoinSymbolCache::new();
    let (cd, _receivers) = CheckDiff::new();
    cd.book_ticker(
        &mut cache,
        BookTicker {
            update_id: 1,
            symbol: "BTCUSDT".to_string(),
            best_bid: FixedDecimal { mantissa: 1, scale: 0 },
            best_bid_qty: FixedDecimal { mantissa: 1, scale: 0 },
            best_ask: FixedDecimal { mantissa: 2, scale: 0 },
            best_ask_qty: FixedDecimal { mantissa: 1, scale: 0 },
        },
    );
    cd.book_ticker(
        &mut cache,
        BookTicker {
            update_id: 2,
            symbol: "BTCUSDT".to_string(),
            best_bid: FixedDecimal { mantissa: 649999, scale: 1 },
            best_bid_qty: FixedDecimal { mantissa: 50, scale: 1 },
            best_ask: FixedDecimal { mantissa: 650001, scale: 1 },
            best_ask_qty: FixedDecimal { mantissa: 25, scale: 1 },
        },
    );
    let got = cache.get_book_ticker("BTCUSDT").unwrap();
    assert_eq!(got.update_id, 2);
    assert_eq!(got.best_bid, FixedDecimal { mantissa: 649999, scale: 1 });
    assert_eq!(got.best_ask, FixedDecimal { mantissa: 650001, scale: 1 });
}

#[test]
fn diag_messages_are_fixed() {
    assert_eq!(diag::event(), "general informational messages relevant to users");
    assert_eq!(diag::test_event(), "hello world event");
    let records = diag::span();
    assert_eq!(records.len(), 6);
    assert_eq!(records[0], "SOMETHING IS SERIOUSLY WRONG!!!");
    assert_eq!(records[5], "general informational messages relevant to users");
}

#[test]
fn binance_api_config_is_handed_out_verbatim() {
    let conf = Conf {
        redis: RedisConfig { url: "redis://localhost".to_string() },
        mysql: MysqlConfig { url: "mysql://localhost".to_string() },
        ip_config: Vec::new(),
        binance_api_config: BinanceApiConfig {
            api_key: "key".to_string(),
            secret_key: "secret".to_string(),
        },
    };
    let (api_key, secret_key) = conf.get_binance_api_config();
    assert_eq!(api_key, "key".to_string());
    assert_eq!(secret_key, "secret".to_string());
}
