//! The shared market-data cache: three namespaces keyed by strings, holding
//! the latest price per symbol, the latest top-of-book quote per symbol, and
//! the asset-to-symbols directory index.
//!
//! The backing store is `dashmap`'s sharded concurrent hash map, so callers
//! get per-key synchronization rather than one global lock. Verification sees
//! each map through an abstract `Map` of its contents; every operation's
//! contract says exactly how those contents change.
use vstd::prelude::*;

use crate::decimal::FixedDecimal;
use dashmap::DashMap;
use std::collections::hash_map::RandomState;

verus! {

/// Relies on `dashmap::DashMap`, a sharded hash map whose operations
/// synchronize per key.
#[verifier::external_type_specification]
#[verifier::external_body]
#[verifier::reject_recursive_types(K)]
#[verifier::reject_recursive_types(V)]
#[verifier::reject_recursive_types(S)]
pub struct ExDashMap<K, V, S>(DashMap<K, V, S>);

/// The last known close price of one tradable symbol.
#[derive(Clone, Debug)]
pub struct PriceInfo {
    pub base_asset: String,
    pub quote_asset: String,
    pub price: FixedDecimal,
    pub updated: u64,
}

/// The mathematical shape of a [`PriceInfo`].
#[verifier::ext_equal]
pub struct PriceRecord {
    pub base_asset: Seq<char>,
    pub quote_asset: Seq<char>,
    pub price: FixedDecimal,
    pub updated: u64,
}

impl View for PriceInfo {
    type V = PriceRecord;

    open spec fn view(&self) -> PriceRecord {
        PriceRecord {
            base_asset: self.base_asset@,
            quote_asset: self.quote_asset@,
            price: self.price,
            updated: self.updated,
        }
    }
}

impl DeepView for PriceInfo {
    type V = PriceRecord;

    open spec fn deep_view(&self) -> PriceRecord {
        self.view()
    }
}

/// The latest top-of-book snapshot of one symbol, replaced wholesale on every
/// quote event.
#[derive(Clone, Debug)]
pub struct BookTicker {
    pub update_id: u64,
    pub symbol: String,
    pub best_bid: FixedDecimal,
    pub best_bid_qty: FixedDecimal,
    pub best_ask: FixedDecimal,
    pub best_ask_qty: FixedDecimal,
}

/// The mathematical shape of a [`BookTicker`].
#[verifier::ext_equal]
pub struct QuoteRecord {
    pub update_id: u64,
    pub symbol: Seq<char>,
    pub best_bid: FixedDecimal,
    pub best_bid_qty: FixedDecimal,
    pub best_ask: FixedDecimal,
    pub best_ask_qty: FixedDecimal,
}

impl View for BookTicker {
    type V = QuoteRecord;

    open spec fn view(&self) -> QuoteRecord {
        QuoteRecord {
            update_id: self.update_id,
            symbol: self.symbol@,
            best_bid: self.best_bid,
            best_bid_qty: self.best_bid_qty,
            best_ask: self.best_ask,
            best_ask_qty: self.best_ask_qty,
        }
    }
}

impl DeepView for BookTicker {
    type V = QuoteRecord;

    open spec fn deep_view(&self) -> QuoteRecord {
        self.view()
    }
}

/// What the asset index holds: each asset's symbol list, as sequences of
/// characters.
pub uninterp spec fn index_map(m: DashMap<String, Vec<String>, RandomState>) -> Map<
    Seq<char>,
    Seq<Seq<char>>,
>;

/// What the price namespace holds: each symbol's latest price record.
pub uninterp spec fn price_map(m: DashMap<String, PriceInfo, RandomState>) -> Map<
    Seq<char>,
    PriceRecord,
>;

/// What the quote namespace holds: each symbol's latest top-of-book record.
pub uninterp spec fn quote_map(m: DashMap<String, BookTicker, RandomState>) -> Map<
    Seq<char>,
    QuoteRecord,
>;

/// An asset's symbol list after one insert-if-absent step.
pub open spec fn appended(l: Seq<Seq<char>>, x: Seq<char>) -> Seq<Seq<char>> {
    if l.contains(x) {
        l
    } else {
        l.push(x)
    }
}

/// An asset's symbol list, or the empty list where the asset has no entry yet.
pub open spec fn list_or_empty(m: Map<Seq<char>, Seq<Seq<char>>>, k: Seq<char>) -> Seq<Seq<char>> {
    if m.dom().contains(k) {
        m[k]
    } else {
        Seq::empty()
    }
}

/// Append `symbol` to the list unless an equal string is already there.
fn push_if_absent(l: &mut Vec<String>, symbol: &str)
    ensures
        final(l).deep_view() == appended(old(l).deep_view(), symbol@),
{
    let owned = symbol.to_owned();
    let mut i: usize = 0;
    while i < l.len()
        invariant
            i <= l@.len(),
            *l == *old(l),
            owned@ == symbol@,
            forall|j: int| 0 <= j < i ==> l@[j]@ != symbol@,
        decreases l@.len() - i,
    {
        if l[i] == owned {
            proof {
                assert(l.deep_view()[i as int] == symbol@);
                assert(l.deep_view().contains(symbol@));
            }
            return ;
        }
        i += 1;
    }
    proof {
        assert(forall|j: int|
            0 <= j < old(l).deep_view().len() ==> old(l).deep_view()[j] != symbol@);
        assert(!old(l).deep_view().contains(symbol@));
    }
    l.push(owned);
    proof {
        assert(l.deep_view() =~= old(l).deep_view().push(symbol@));
    }
}

/// A fresh one-element symbol list.
fn singleton(symbol: &str) -> (r: Vec<String>)
    ensures
        r.deep_view() == Seq::<Seq<char>>::empty().push(symbol@),
{
    let mut r: Vec<String> = Vec::new();
    r.push(symbol.to_owned());
    proof {
        assert(r.deep_view() =~= Seq::<Seq<char>>::empty().push(symbol@));
    }
    r
}

/// The index namespace of a cache with no entries.
pub open spec fn empty_index() -> Map<Seq<char>, Seq<Seq<char>>> {
    Map::empty()
}

/// The price namespace of a cache with no entries.
pub open spec fn empty_prices() -> Map<Seq<char>, PriceRecord> {
    Map::empty()
}

/// The quote namespace of a cache with no entries.
pub open spec fn empty_quotes() -> Map<Seq<char>, QuoteRecord> {
    Map::empty()
}

/// The concurrent cache shared by the supervisor, the router lanes and the
/// reconciler. Reads and writes are atomic per key; no operation fails short
/// of resource exhaustion.
#[derive(Debug)]
pub struct CoinSymbolCache {
    pub coin_symbols: DashMap<String, Vec<String>, RandomState>,
    pub symbols: DashMap<String, PriceInfo, RandomState>,
    pub book_tickers: DashMap<String, BookTicker, RandomState>,
}

impl CoinSymbolCache {
    /// Relies on `DashMap::new`: a newly built map is empty.
    #[verifier::external_body]
    pub fn new() -> (r: CoinSymbolCache)
        ensures
            index_map(r.coin_symbols) == empty_index(),
            price_map(r.symbols) == empty_prices(),
            quote_map(r.book_tickers) == empty_quotes(),
    {
        Self { coin_symbols: DashMap::new(), symbols: DashMap::new(), book_tickers: DashMap::new() }
    }

    /// Add `symbol` to `coin`'s list, creating the list if the asset is new;
    /// a symbol already listed is not added twice. Relies on `DashMap::entry`
    /// holding the key's slot while the closures run: `and_modify` mutates an
    /// occupied slot, `or_insert_with` fills a vacant one.
    #[verifier::external_body]
    pub fn set_coin_symbols(&mut self, coin: &str, symbol: &str)
        ensures
            index_map(final(self).coin_symbols) == index_map(old(self).coin_symbols).insert(
                coin@,
                appended(list_or_empty(index_map(old(self).coin_symbols), coin@), symbol@),
            ),
            final(self).symbols == old(self).symbols,
            final(self).book_tickers == old(self).book_tickers,
    {
        self.coin_symbols
            .entry(coin.to_owned())
            .and_modify(|l| push_if_absent(l, symbol))
            .or_insert_with(|| singleton(symbol));
    }

    /// A snapshot copy of `coin`'s symbol list, or nothing where the asset
    /// has no entry. Relies on `DashMap::get`.
    #[verifier::external_body]
    pub fn get_coin_symbols(&self, coin: &str) -> (r: Option<Vec<String>>)
        ensures
            match r {
                Some(l) => index_map(self.coin_symbols).dom().contains(coin@) && l.deep_view()
                    == index_map(self.coin_symbols)[coin@],
                None => !index_map(self.coin_symbols).dom().contains(coin@),
            },
    {
        match self.coin_symbols.get(coin) {
            Some(guard) => Some(guard.value().clone()),
            None => None,
        }
    }

    /// Replace `symbol`'s price record wholesale. Relies on `DashMap::insert`.
    #[verifier::external_body]
    pub fn set_symbols(&mut self, symbol: &str, price_info: PriceInfo)
        ensures
            price_map(final(self).symbols) == price_map(old(self).symbols).insert(
                symbol@,
                price_info@,
            ),
            final(self).coin_symbols == old(self).coin_symbols,
            final(self).book_tickers == old(self).book_tickers,
    {
        self.symbols.insert(symbol.to_owned(), price_info);
    }

    /// Insert `symbol`'s price record only where the symbol has none yet; the
    /// check and the insert are one atomic step on the key's slot. Relies on
    /// `DashMap::entry` with `Entry::or_insert`.
    #[verifier::external_body]
    pub fn set_symbols_if_absent(&mut self, symbol: &str, price_info: PriceInfo)
        ensures
            price_map(final(self).symbols) == if price_map(old(self).symbols).dom().contains(
                symbol@,
            ) {
                price_map(old(self).symbols)
            } else {
                price_map(old(self).symbols).insert(symbol@, price_info@)
            },
            final(self).coin_symbols == old(self).coin_symbols,
            final(self).book_tickers == old(self).book_tickers,
    {
        self.symbols.entry(symbol.to_owned()).or_insert(price_info);
    }

    /// A copy of `symbol`'s price record, or nothing where the symbol has
    /// none. Relies on `DashMap::get`.
    #[verifier::external_body]
    pub fn get_symbols(&self, symbol: &str) -> (r: Option<PriceInfo>)
        ensures
            match r {
                Some(p) => price_map(self.symbols).dom().contains(symbol@) && p@ == price_map(
                    self.symbols,
                )[symbol@],
                None => !price_map(self.symbols).dom().contains(symbol@),
            },
    {
        match self.symbols.get(symbol) {
            Some(guard) => Some(guard.value().clone()),
            None => None,
        }
    }

    /// Replace `symbol`'s quote record wholesale. Relies on `DashMap::insert`.
    #[verifier::external_body]
    pub fn set_book_ticker(&mut self, symbol: &str, book_ticker: BookTicker)
        ensures
            quote_map(final(self).book_tickers) == quote_map(old(self).book_tickers).insert(
                symbol@,
                book_ticker@,
            ),
            final(self).coin_symbols == old(self).coin_symbols,
            final(self).symbols == old(self).symbols,
    {
        self.book_tickers.insert(symbol.to_owned(), book_ticker);
    }

    /// A copy of `symbol`'s quote record, or nothing where no quote event has
    /// arrived yet. Relies on `DashMap::get`.
    #[verifier::external_body]
    pub fn get_book_ticker(&self, symbol: &str) -> (r: Option<BookTicker>)
        ensures
            match r {
                Some(q) => quote_map(self.book_tickers).dom().contains(symbol@) && q@ == quote_map(
                    self.book_tickers,
                )[symbol@],
                None => !quote_map(self.book_tickers).dom().contains(symbol@),
            },
    {
        match self.book_tickers.get(symbol) {
            Some(guard) => Some(guard.value().clone()),
            None => None,
        }
    }
}

} // verus!
