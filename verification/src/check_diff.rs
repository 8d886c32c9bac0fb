//! The ingestion pipeline: deterministic sharded routing of tick events onto
//! a fixed pool of lanes, the supervisor's per-batch cache update, and the
//! reconciler's fill-if-absent sweep over the exchange's symbol directory.
//!
//! The live stream, the directory fetch and the lane tasks themselves are the
//! caller's business: this module takes decoded events and directory rows as
//! plain values and says exactly what each step does to the cache.
use vstd::prelude::*;

use crate::coin_symbol::appended;
use crate::coin_symbol::list_or_empty;
use crate::coin_symbol::CoinSymbolCache;
use crate::coin_symbol::PriceInfo;
use crate::coin_symbol::PriceRecord;
use crate::coin_symbol::BookTicker;
use crate::coin_symbol::index_map;
use crate::coin_symbol::price_map;
use crate::coin_symbol::quote_map;
use crate::decimal::spec_price_or_zero;
use crate::decimal::parse_price_or_zero;
use crate::decimal::FixedDecimal;
use tokio::sync::mpsc::UnboundedReceiver;
use tokio::sync::mpsc::UnboundedSender;

verus! {

/// The number of router lanes, fixed for the life of the process.
pub const THREADS: i64 = 10;

/// Relies on tokio's `mpsc::UnboundedSender`: the sending half of a lane
/// queue.
#[verifier::external_type_specification]
#[verifier::external_body]
#[verifier::reject_recursive_types(T)]
pub struct ExUnboundedSender<T>(UnboundedSender<T>);

/// Relies on tokio's `mpsc::UnboundedReceiver`: the receiving half of a lane
/// queue.
#[verifier::external_type_specification]
#[verifier::external_body]
#[verifier::reject_recursive_types(T)]
pub struct ExUnboundedReceiver<T>(UnboundedReceiver<T>);

/// One decoded update from the day-ticker stream.
#[derive(Clone, Debug)]
pub struct TickEvent {
    pub symbol: String,
    pub last_trade_id: i64,
    pub current_close: String,
    pub event_time: u64,
}

/// The mathematical shape of a [`TickEvent`].
#[verifier::ext_equal]
pub struct TickRecord {
    pub symbol: Seq<char>,
    pub last_trade_id: i64,
    pub current_close: Seq<char>,
    pub event_time: u64,
}

impl View for TickEvent {
    type V = TickRecord;

    open spec fn view(&self) -> TickRecord {
        TickRecord {
            symbol: self.symbol@,
            last_trade_id: self.last_trade_id,
            current_close: self.current_close@,
            event_time: self.event_time,
        }
    }
}

impl DeepView for TickEvent {
    type V = TickRecord;

    open spec fn deep_view(&self) -> TickRecord {
        self.view()
    }
}

/// One row of the exchange's symbol directory.
#[derive(Clone, Debug)]
pub struct SymbolInfo {
    pub symbol: String,
    pub base_asset: String,
    pub quote_asset: String,
}

/// The mathematical shape of a [`SymbolInfo`].
#[verifier::ext_equal]
pub struct SymbolRecord {
    pub symbol: Seq<char>,
    pub base_asset: Seq<char>,
    pub quote_asset: Seq<char>,
}

impl View for SymbolInfo {
    type V = SymbolRecord;

    open spec fn view(&self) -> SymbolRecord {
        SymbolRecord {
            symbol: self.symbol@,
            base_asset: self.base_asset@,
            quote_asset: self.quote_asset@,
        }
    }
}

impl DeepView for SymbolInfo {
    type V = SymbolRecord;

    open spec fn deep_view(&self) -> SymbolRecord {
        self.view()
    }
}

/// Relies on tokio's `mpsc::unbounded_channel`: a fresh lane queue, returned
/// as its two halves.
#[verifier::external_body]
fn new_lane() -> (UnboundedSender<TickEvent>, UnboundedReceiver<TickEvent>) {
    tokio::sync::mpsc::unbounded_channel()
}

/// Relies on tokio's `UnboundedSender::send`: it fails only when the
/// receiving half has been dropped, so nothing is promised of the outcome.
#[verifier::external_body]
fn send_to_lane(tx: &UnboundedSender<TickEvent>, event: TickEvent) -> bool {
    tx.send(event).is_ok()
}

/// The lane a trade identifier is sharded to: the identifier reduced modulo
/// the lane count.
pub open spec fn route_spec(trade_id: i64) -> int {
    trade_id as int % (THREADS as int)
}

/// Pick the lane for a trade identifier. Routing is a pure function of the
/// identifier: it keeps no state and never fails.
pub fn route(trade_id: i64) -> (lane: usize)
    ensures
        lane == route_spec(trade_id),
        lane < THREADS,
{
    let m: i64 = trade_id % THREADS;
    let lane: i64 = if m < 0 {
        m + THREADS
    } else {
        m
    };
    lane as usize
}

/// Routing is deterministic and hides no state: any two trade identifiers
/// that agree modulo the lane count are routed to the same lane.
pub proof fn lemma_route_consistent(t1: i64, t2: i64)
    requires
        t1 as int % (THREADS as int) == t2 as int % (THREADS as int),
    ensures
        route_spec(t1) == route_spec(t2),
{
}

/// The price record a tick event writes: base and quote asset are preserved
/// from the symbol's existing record (empty for a symbol first seen live);
/// price and update time are replaced from the event, the price defaulting to
/// zero where the wire text does not parse.
pub open spec fn tick_record(m: Map<Seq<char>, PriceRecord>, e: TickRecord) -> PriceRecord {
    PriceRecord {
        base_asset: if m.dom().contains(e.symbol) {
            m[e.symbol].base_asset
        } else {
            Seq::empty()
        },
        quote_asset: if m.dom().contains(e.symbol) {
            m[e.symbol].quote_asset
        } else {
            Seq::empty()
        },
        price: spec_price_or_zero(e.current_close),
        updated: e.event_time,
    }
}

/// The price namespace after one tick event: the symbol's record is replaced
/// wholesale, and no other key changes.
pub open spec fn apply_tick(m: Map<Seq<char>, PriceRecord>, e: TickRecord) -> Map<
    Seq<char>,
    PriceRecord,
> {
    m.insert(e.symbol, tick_record(m, e))
}

/// The price namespace after a batch of tick events, applied in arrival
/// order.
pub open spec fn apply_ticks(m: Map<Seq<char>, PriceRecord>, evs: Seq<TickRecord>) -> Map<
    Seq<char>,
    PriceRecord,
>
    decreases evs.len(),
{
    if evs.len() == 0 {
        m
    } else {
        apply_tick(apply_ticks(m, evs.drop_last()), evs.last())
    }
}

/// The zero-valued price record a directory row seeds for a new symbol.
pub open spec fn zero_record(s: SymbolRecord) -> PriceRecord {
    PriceRecord {
        base_asset: s.base_asset,
        quote_asset: s.quote_asset,
        price: FixedDecimal::spec_zero(),
        updated: 0,
    }
}

/// The price namespace after one fill-if-absent step: a symbol already
/// present is left untouched, a new one gets a zero-valued record.
pub open spec fn seed_price(m: Map<Seq<char>, PriceRecord>, s: SymbolRecord) -> Map<
    Seq<char>,
    PriceRecord,
> {
    if m.dom().contains(s.symbol) {
        m
    } else {
        m.insert(s.symbol, zero_record(s))
    }
}

/// The price namespace after a fill-if-absent sweep over a whole directory,
/// row by row.
pub open spec fn seed_prices(m: Map<Seq<char>, PriceRecord>, d: Seq<SymbolRecord>) -> Map<
    Seq<char>,
    PriceRecord,
>
    decreases d.len(),
{
    if d.len() == 0 {
        m
    } else {
        seed_price(seed_prices(m, d.drop_last()), d.last())
    }
}

/// The asset index after one directory row: the symbol joins its base
/// asset's list unless it is already listed.
pub open spec fn seed_index(m: Map<Seq<char>, Seq<Seq<char>>>, s: SymbolRecord) -> Map<
    Seq<char>,
    Seq<Seq<char>>,
> {
    m.insert(s.base_asset, appended(list_or_empty(m, s.base_asset), s.symbol))
}

/// The asset index after a sweep over a whole directory, row by row.
pub open spec fn seed_indexes(m: Map<Seq<char>, Seq<Seq<char>>>, d: Seq<SymbolRecord>) -> Map<
    Seq<char>,
    Seq<Seq<char>>,
>
    decreases d.len(),
{
    if d.len() == 0 {
        m
    } else {
        seed_index(seed_indexes(m, d.drop_last()), d.last())
    }
}

/// The event router: one sending half per lane. The consuming tasks hold the
/// receiving halves.
#[derive(Debug)]
pub struct CheckDiff {
    pub senders: Vec<UnboundedSender<TickEvent>>,
}

impl CheckDiff {
    /// One sender per lane, so every lane index the router computes is valid.
    pub open spec fn wf(&self) -> bool {
        self.senders@.len() == THREADS
    }

    /// Build the lane pool: one queue per lane. The receiving halves are
    /// handed back for the caller to drive with consuming tasks.
    pub fn new() -> (r: (CheckDiff, Vec<UnboundedReceiver<TickEvent>>))
        ensures
            r.0.wf(),
            r.1@.len() == THREADS,
    {
        let mut senders: Vec<UnboundedSender<TickEvent>> = Vec::new();
        let mut receivers: Vec<UnboundedReceiver<TickEvent>> = Vec::new();
        let mut i: i64 = 0;
        while i < THREADS
            invariant
                0 <= i <= THREADS,
                senders@.len() == i,
                receivers@.len() == i,
            decreases THREADS - i,
        {
            let (tx, rx) = new_lane();
            senders.push(tx);
            receivers.push(rx);
            i = i + 1;
        }
        (CheckDiff { senders }, receivers)
    }

    /// The reconciler's directory sweep over the asset index: every row's
    /// symbol is added to its base asset's list unless already listed. The
    /// price and quote namespaces are untouched.
    pub fn init_coin_symbols(&self, cache: &mut CoinSymbolCache, directory: &Vec<SymbolInfo>)
        ensures
            index_map(final(cache).coin_symbols) == seed_indexes(
                index_map(old(cache).coin_symbols),
                directory.deep_view(),
            ),
            final(cache).symbols == old(cache).symbols,
            final(cache).book_tickers == old(cache).book_tickers,
    {
        let ghost dv = directory.deep_view();
        let mut i: usize = 0;
        while i < directory.len()
            invariant
                i <= directory@.len(),
                dv == directory.deep_view(),
                dv.len() == directory@.len(),
                index_map(cache.coin_symbols) == seed_indexes(
                    index_map(old(cache).coin_symbols),
                    dv.take(i as int),
                ),
                cache.symbols == old(cache).symbols,
                cache.book_tickers == old(cache).book_tickers,
            decreases directory@.len() - i,
        {
            let row = &directory[i];
            cache.set_coin_symbols(row.base_asset.as_str(), row.symbol.as_str());
            proof {
                assert(dv.take(i + 1).drop_last() =~= dv.take(i as int));
                assert(dv.take(i + 1).last() == dv[i as int]);
            }
            i = i + 1;
        }
        proof {
            assert(dv.take(dv.len() as int) =~= dv);
        }
    }

    /// The reconciler's directory sweep over the price namespace: every
    /// symbol the directory returns gets a zero-valued record unless one is
    /// already present; present records are left exactly as they were. The
    /// index and quote namespaces are untouched. Afterwards every symbol of
    /// the directory has a price record.
    pub fn init_symbols(&self, cache: &mut CoinSymbolCache, directory: &Vec<SymbolInfo>)
        ensures
            price_map(final(cache).symbols) == seed_prices(
                price_map(old(cache).symbols),
                directory.deep_view(),
            ),
            final(cache).coin_symbols == old(cache).coin_symbols,
            final(cache).book_tickers == old(cache).book_tickers,
            forall|i: int|
                0 <= i < directory@.len() ==> price_map(final(cache).symbols).dom().contains(
                    directory.deep_view()[i].symbol,
                ),
    {
        let ghost dv = directory.deep_view();
        let mut i: usize = 0;
        while i < directory.len()
            invariant
                i <= directory@.len(),
                dv == directory.deep_view(),
                dv.len() == directory@.len(),
                price_map(cache.symbols) == seed_prices(
                    price_map(old(cache).symbols),
                    dv.take(i as int),
                ),
                cache.coin_symbols == old(cache).coin_symbols,
                cache.book_tickers == old(cache).book_tickers,
            decreases directory@.len() - i,
        {
            let row = &directory[i];
            let seeded = PriceInfo {
                base_asset: row.base_asset.clone(),
                quote_asset: row.quote_asset.clone(),
                price: FixedDecimal::zero(),
                updated: 0,
            };
            proof {
                assert(seeded@ =~= zero_record(dv[i as int]));
            }
            cache.set_symbols_if_absent(row.symbol.as_str(), seeded);
            proof {
                assert(dv.take(i + 1).drop_last() =~= dv.take(i as int));
                assert(dv.take(i + 1).last() == dv[i as int]);
            }
            i = i + 1;
        }
        proof {
            assert(dv.take(dv.len() as int) =~= dv);
            lemma_seed_prices_covers_all(price_map(old(cache).symbols), dv);
        }
    }

    /// The supervisor's per-batch step for the day-ticker stream. Each event
    /// is routed to its lane by trade identifier and a copy is sent there; a
    /// failed send (the lane's receiver is gone) is counted and processing
    /// goes on with the rest of the batch. Independently of routing, each
    /// event's close price is written to the cache as a whole-record
    /// replacement for its symbol. Only the price namespace changes.
    pub fn last_price(&self, cache: &mut CoinSymbolCache, events: &Vec<TickEvent>) -> (failed:
        usize)
        requires
            self.wf(),
        ensures
            price_map(final(cache).symbols) == apply_ticks(
                price_map(old(cache).symbols),
                events.deep_view(),
            ),
            final(cache).coin_symbols == old(cache).coin_symbols,
            final(cache).book_tickers == old(cache).book_tickers,
            failed <= events@.len(),
    {
        let ghost dv = events.deep_view();
        let mut failed: usize = 0;
        let mut i: usize = 0;
        while i < events.len()
            invariant
                self.wf(),
                i <= events@.len(),
                dv == events.deep_view(),
                dv.len() == events@.len(),
                failed <= i,
                price_map(cache.symbols) == apply_ticks(
                    price_map(old(cache).symbols),
                    dv.take(i as int),
                ),
                cache.coin_symbols == old(cache).coin_symbols,
                cache.book_tickers == old(cache).book_tickers,
            decreases events@.len() - i,
        {
            let event = &events[i];
            let lane = route(event.last_trade_id);
            if !send_to_lane(&self.senders[lane], event.clone()) {
                failed = failed + 1;
            }
            let (base_asset, quote_asset) = match cache.get_symbols(event.symbol.as_str()) {
                Some(prior) => (prior.base_asset, prior.quote_asset),
                None => (String::new(), String::new()),
            };
            let replaced = PriceInfo {
                base_asset,
                quote_asset,
                price: parse_price_or_zero(event.current_close.as_str()),
                updated: event.event_time,
            };
            proof {
                assert(replaced@ =~= tick_record(price_map(cache.symbols), dv[i as int]));
            }
            cache.set_symbols(event.symbol.as_str(), replaced);
            proof {
                assert(dv.take(i + 1).drop_last() =~= dv.take(i as int));
                assert(dv.take(i + 1).last() == dv[i as int]);
            }
            i = i + 1;
        }
        proof {
            assert(dv.take(dv.len() as int) =~= dv);
        }
        failed
    }

    /// The supervisor's step for the book-ticker stream: the symbol's quote
    /// is replaced wholesale. Only the quote namespace changes.
    pub fn book_ticker(&self, cache: &mut CoinSymbolCache, event: BookTicker)
        ensures
            quote_map(final(cache).book_tickers) == quote_map(old(cache).book_tickers).insert(
                event.symbol@,
                event@,
            ),
            final(cache).coin_symbols == old(cache).coin_symbols,
            final(cache).symbols == old(cache).symbols,
    {
        let key = event.symbol.clone();
        cache.set_book_ticker(key.as_str(), event);
    }
}

/// A lane consumer's read-only step: look up the event's symbol and, where a
/// price record exists, the record's base-asset symbol list, for diagnostic
/// emission. Nothing is returned unless both lookups succeed, and nothing is
/// written.
pub fn lane_observe(cache: &CoinSymbolCache, event: &TickEvent) -> (r: Option<
    (PriceInfo, Vec<String>),
>)
    ensures
        match r {
            Some(pair) => {
                &&& price_map(cache.symbols).dom().contains(event.symbol@)
                &&& pair.0@ == price_map(cache.symbols)[event.symbol@]
                &&& index_map(cache.coin_symbols).dom().contains(pair.0.base_asset@)
                &&& pair.1.deep_view() == index_map(cache.coin_symbols)[pair.0.base_asset@]
            },
            None => !price_map(cache.symbols).dom().contains(event.symbol@) || !index_map(
                cache.coin_symbols,
            ).dom().contains(price_map(cache.symbols)[event.symbol@].base_asset),
        },
{
    match cache.get_symbols(event.symbol.as_str()) {
        Some(info) => match cache.get_coin_symbols(info.base_asset.as_str()) {
            Some(symbols) => Some((info, symbols)),
            None => None,
        },
        None => None,
    }
}

/// Reconciliation never overwrites: a sweep keeps every price record that
/// was already present, exactly as it was.
pub proof fn lemma_seed_prices_preserves(
    m: Map<Seq<char>, PriceRecord>,
    d: Seq<SymbolRecord>,
    k: Seq<char>,
)
    requires
        m.dom().contains(k),
    ensures
        seed_prices(m, d).dom().contains(k),
        seed_prices(m, d)[k] == m[k],
    decreases d.len(),
{
    if d.len() > 0 {
        lemma_seed_prices_preserves(m, d.drop_last(), k);
    }
}

/// A sweep whose every symbol already has a record changes nothing at all.
proof fn lemma_seed_prices_noop(m: Map<Seq<char>, PriceRecord>, d: Seq<SymbolRecord>)
    requires
        forall|i: int| 0 <= i < d.len() ==> m.dom().contains(d[i].symbol),
    ensures
        seed_prices(m, d) == m,
    decreases d.len(),
{
    if d.len() > 0 {
        assert(forall|i: int|
            0 <= i < d.drop_last().len() ==> m.dom().contains(d.drop_last()[i].symbol));
        lemma_seed_prices_noop(m, d.drop_last());
        assert(d.last() == d[d.len() - 1]);
    }
}

/// The fill-if-absent sweep is idempotent: running it twice with the same
/// directory leaves the price namespace exactly as one run leaves it.
pub proof fn lemma_seed_prices_idempotent(m: Map<Seq<char>, PriceRecord>, d: Seq<SymbolRecord>)
    ensures
        seed_prices(seed_prices(m, d), d) == seed_prices(m, d),
{
    lemma_seed_prices_covers_all(m, d);
    lemma_seed_prices_noop(seed_prices(m, d), d);
}

/// Appending-if-absent always leaves the appended symbol in the list, and
/// loses nothing that was already there.
proof fn lemma_appended_membership(l: Seq<Seq<char>>, x: Seq<char>)
    ensures
        appended(l, x).contains(x),
        forall|y: Seq<char>| l.contains(y) ==> appended(l, x).contains(y),
{
    if !l.contains(x) {
        assert(l.push(x)[l.len() as int] == x);
        assert forall|y: Seq<char>| l.contains(y) implies appended(l, x).contains(y) by {
            let j = choose|j: int| 0 <= j < l.len() && l[j] == y;
            assert(l.push(x)[j] == y);
        }
    }
}

/// After an index sweep, every directory row's symbol is listed under its
/// base asset.
pub proof fn lemma_seed_indexes_covers_all(m: Map<Seq<char>, Seq<Seq<char>>>, d: Seq<SymbolRecord>)
    ensures
        forall|i: int|
            0 <= i < d.len() ==> seed_indexes(m, d).dom().contains(d[i].base_asset)
                && seed_indexes(m, d)[d[i].base_asset].contains(d[i].symbol),
    decreases d.len(),
{
    if d.len() > 0 {
        let prior = seed_indexes(m, d.drop_last());
        let s = d.last();
        lemma_seed_indexes_covers_all(m, d.drop_last());
        lemma_appended_membership(list_or_empty(prior, s.base_asset), s.symbol);
        assert forall|i: int|
            0 <= i < d.len() implies seed_indexes(m, d).dom().contains(d[i].base_asset)
            && seed_indexes(m, d)[d[i].base_asset].contains(d[i].symbol) by {
            if i < d.len() - 1 {
                assert(d.drop_last()[i] == d[i]);
                assert(prior.dom().contains(d[i].base_asset));
                assert(prior[d[i].base_asset].contains(d[i].symbol));
                if d[i].base_asset == s.base_asset {
                    assert(list_or_empty(prior, s.base_asset) == prior[s.base_asset]);
                }
            }
        }
    }
}

/// An index sweep whose every row is already listed changes nothing at all.
proof fn lemma_seed_indexes_noop(m: Map<Seq<char>, Seq<Seq<char>>>, d: Seq<SymbolRecord>)
    requires
        forall|i: int|
            0 <= i < d.len() ==> m.dom().contains(d[i].base_asset) && m[d[i].base_asset].contains(
                d[i].symbol,
            ),
    ensures
        seed_indexes(m, d) == m,
    decreases d.len(),
{
    if d.len() > 0 {
        assert(forall|i: int|
            0 <= i < d.drop_last().len() ==> m.dom().contains(d.drop_last()[i].base_asset)
                && m[d.drop_last()[i].base_asset].contains(d.drop_last()[i].symbol));
        lemma_seed_indexes_noop(m, d.drop_last());
        let s = d.last();
        assert(s == d[d.len() - 1]);
        assert(appended(list_or_empty(m, s.base_asset), s.symbol) == m[s.base_asset]);
        assert(m.insert(s.base_asset, m[s.base_asset]) =~= m);
    }
}

/// The index sweep has set semantics: running it twice with the same
/// directory leaves the asset index exactly as one run leaves it, with no
/// duplicate entries accumulating.
pub proof fn lemma_seed_indexes_idempotent(m: Map<Seq<char>, Seq<Seq<char>>>, d: Seq<SymbolRecord>)
    ensures
        seed_indexes(seed_indexes(m, d), d) == seed_indexes(m, d),
{
    lemma_seed_indexes_covers_all(m, d);
    lemma_seed_indexes_noop(seed_indexes(m, d), d);
}

/// Writes are whole-record replacements: of two tick events for the same
/// symbol applied in order, the later one wins outright, and the outcome is
/// never a mix of the two events' fields.
pub proof fn lemma_tick_last_writer(m: Map<Seq<char>, PriceRecord>, e1: TickRecord, e2: TickRecord)
    requires
        e1.symbol == e2.symbol,
    ensures
        apply_tick(apply_tick(m, e1), e2) == apply_tick(m, e2),
{
    assert(tick_record(apply_tick(m, e1), e2) =~= tick_record(m, e2));
    assert(apply_tick(apply_tick(m, e1), e2) =~= apply_tick(m, e2));
}

/// Over a whole batch of events for one symbol, the last event processed
/// determines the symbol's final record outright: the batch leaves the price
/// namespace exactly as applying its last event alone would.
pub proof fn lemma_batch_last_writer(
    m: Map<Seq<char>, PriceRecord>,
    evs: Seq<TickRecord>,
    s: Seq<char>,
)
    requires
        evs.len() > 0,
        forall|i: int| 0 <= i < evs.len() ==> evs[i].symbol == s,
    ensures
        apply_ticks(m, evs) == apply_tick(m, evs.last()),
    decreases evs.len(),
{
    if evs.len() == 1 {
        assert(apply_ticks(m, evs.drop_last()) == m);
    } else {
        let dl = evs.drop_last();
        assert(forall|i: int| 0 <= i < dl.len() ==> dl[i] == evs[i]);
        lemma_batch_last_writer(m, dl, s);
        lemma_tick_last_writer(m, dl.last(), evs.last());
    }
}

/// The supervisor never invents a symbol: every key present after a batch
/// was either present before or is the symbol of one of the batch's events.
pub proof fn lemma_ticks_invent_no_symbol(
    m: Map<Seq<char>, PriceRecord>,
    evs: Seq<TickRecord>,
    k: Seq<char>,
)
    requires
        apply_ticks(m, evs).dom().contains(k),
    ensures
        m.dom().contains(k) || exists|i: int| 0 <= i < evs.len() && evs[i].symbol == k,
    decreases evs.len(),
{
    if evs.len() > 0 && evs.last().symbol != k {
        lemma_ticks_invent_no_symbol(m, evs.drop_last(), k);
        assert(forall|i: int| 0 <= i < evs.len() - 1 ==> evs.drop_last()[i] == evs[i]);
    }
}

/// The reconciler never invents a symbol: every key present after a sweep
/// was either present before or is the symbol of one of the directory's rows.
pub proof fn lemma_seed_invents_no_symbol(
    m: Map<Seq<char>, PriceRecord>,
    d: Seq<SymbolRecord>,
    k: Seq<char>,
)
    requires
        seed_prices(m, d).dom().contains(k),
    ensures
        m.dom().contains(k) || exists|i: int| 0 <= i < d.len() && d[i].symbol == k,
    decreases d.len(),
{
    if d.len() > 0 && d.last().symbol != k {
        lemma_seed_invents_no_symbol(m, d.drop_last(), k);
        assert(forall|i: int| 0 <= i < d.len() - 1 ==> d.drop_last()[i] == d[i]);
    }
}

/// Every symbol of a swept directory has a price record afterwards.
pub proof fn lemma_seed_prices_covers_all(m: Map<Seq<char>, PriceRecord>, d: Seq<SymbolRecord>)
    ensures
        forall|i: int| 0 <= i < d.len() ==> seed_prices(m, d).dom().contains(d[i].symbol),
    decreases d.len(),
{
    if d.len() > 0 {
        lemma_seed_prices_covers_all(m, d.drop_last());
        assert forall|i: int| 0 <= i < d.len() implies seed_prices(m, d).dom().contains(
            d[i].symbol,
        ) by {
            if i < d.len() - 1 {
                assert(d.drop_last()[i] == d[i]);
                assert(seed_prices(m, d.drop_last()).dom().contains(d[i].symbol));
            }
        }
    }
}

} // verus!
