//! The feed side: typed configuration for the upstream providers, the
//! translation of push events into records, and the decision core of
//! the source multiplexer.
//!
//! The multiplexer merges updates from independently paced sources
//! into one stream while keeping exactly one outstanding receive per
//! source. The waiting itself happens outside this crate; what is
//! modelled here is the discipline: which sources are armed, what a
//! completion delivers, and when a source is re-armed.

use crate::common::{Fixed3, Stock};
use vstd::prelude::*;

verus! {

/// Credentials for the LongPort provider.
#[derive(Debug)]
pub struct LongPortToken {
    pub app_key: String,
    pub app_secret: String,
    pub access_token: String,
}

/// One watch-list entry: a symbol bound to exactly one named source.
#[derive(Debug)]
pub struct StockConfig {
    pub symbol: String,
    pub name: String,
    pub source: String,
}

/// Startup configuration: zero-or-more provider credential blocks and
/// the ordered watch-list.
#[derive(Debug)]
pub struct Setting {
    pub long_port: Option<LongPortToken>,
    pub stock: Vec<StockConfig>,
}

impl Setting {
    /// Takes the LongPort credentials out of the configuration, so
    /// that a construction attempt consumes them and no later attempt
    /// can reuse them. Fails exactly when no credentials are present.
    pub fn take_long_port(&mut self) -> (r: Result<LongPortToken, String>)
        ensures
            final(self).long_port is None,
            final(self).stock == old(self).stock,
            r is Ok <==> old(self).long_port is Some,
            r matches Ok(t) ==> old(self).long_port == Some(t),
            r matches Err(m) ==> m@ == "Long Port TOKEN is nil"@,
    {
        let taken = self.long_port.take();
        match taken {
            Some(t) => Ok(t),
            None => Err("Long Port TOKEN is nil".to_owned()),
        }
    }
}

/// One push event from an upstream feed, reduced to the details this
/// watcher reads.
pub enum PushUpdate {
    /// A quote event: the price state of a subscribed symbol.
    Quote {
        symbol: String,
        timestamp: i64,
        last_done: Fixed3,
        open: Fixed3,
        high: Fixed3,
        low: Fixed3,
    },
    /// Any other event kind.
    Other,
}

/// Translates one push event into a record. Only quote events carry
/// price state; every other kind is silently filtered, which is a
/// deliberate narrow translation, not an error.
pub fn translate_stock(event: PushUpdate) -> (r: Option<Stock>)
    ensures
        match event {
            PushUpdate::Quote { symbol, timestamp, last_done, open, high, low } => {
                r matches Some(s) && s.symbol == symbol && s.timestamp == timestamp
                    && s.last_done == last_done && s.open == open && s.high == high && s.low == low
            },
            PushUpdate::Other => r is None,
        },
{
    match event {
        PushUpdate::Quote { symbol, timestamp, last_done, open, high, low } => Some(
            Stock { symbol, timestamp, last_done, open, high, low },
        ),
        PushUpdate::Other => None,
    }
}

/// One completion: the outstanding receive of the named source
/// finished and produced `update` (nothing when that source's channel
/// is closed).
pub ghost struct Completion {
    pub key: Seq<char>,
    pub update: Option<Stock>,
}

/// The updates a run of completions carries, in arrival order.
pub open spec fn spec_outputs(events: Seq<Completion>) -> Seq<Option<Stock>> {
    events.map_values(|e: Completion| e.update)
}

/// The decision core of the source multiplexer.
///
/// `sources` names the active sources, `pending[i]` counts the
/// outstanding receives against `sources[i]`. The two ghost fields
/// record the history of a run: every completion consumed and every
/// update handed out.
pub struct SourceManager {
    /// The active sources, in the order constructed.
    pub sources: Vec<String>,
    /// Outstanding receives per source.
    pub pending: Vec<usize>,
    /// Every completion consumed so far, in arrival order.
    pub completed: Ghost<Seq<Completion>>,
    /// Every update handed out so far, in order.
    pub delivered: Ghost<Seq<Option<Stock>>>,
}

impl SourceManager {
    /// The multiplexer's invariant: one pending counter per source, no
    /// source named twice, and the updates handed out are exactly the
    /// updates of the completions consumed.
    pub open spec fn wf(self) -> bool {
        &&& self.pending@.len() == self.sources@.len()
        &&& forall|i: int, j: int|
            0 <= i < j < self.sources@.len() ==> (#[trigger] self.sources@[i]@) != (
            #[trigger] self.sources@[j]@)
        &&& self.delivered@ == spec_outputs(self.completed@)
    }

    /// Fan-in fairness bound: at most one outstanding receive per
    /// source.
    pub open spec fn fanin_bound(self) -> bool {
        forall|i: int| 0 <= i < self.pending@.len() ==> (#[trigger] self.pending@[i]) <= 1
    }

    /// Every source has exactly one outstanding receive.
    pub open spec fn fully_armed(self) -> bool {
        &&& self.wf()
        &&& forall|i: int| 0 <= i < self.pending@.len() ==> (#[trigger] self.pending@[i]) == 1
    }

    /// A receive against the named source is outstanding, so a
    /// completion for it can arrive.
    pub open spec fn has_pending(self, key: Seq<char>) -> bool {
        exists|i: int|
            0 <= i < self.sources@.len() && (#[trigger] self.sources@[i]@) == key
                && self.pending@[i] >= 1
    }

    /// A fresh multiplexer over the given sources, each armed with
    /// exactly one receive, with nothing consumed or delivered yet.
    pub fn new(sources: Vec<String>) -> (s: SourceManager)
        requires
            forall|i: int, j: int|
                0 <= i < j < sources@.len() ==> (#[trigger] sources@[i]@) != (
                #[trigger] sources@[j]@),
        ensures
            s.wf(),
            s.fully_armed(),
            s.fanin_bound(),
            s.sources == sources,
            s.completed@.len() == 0,
            s.delivered@.len() == 0,
    {
        let mut pending: Vec<usize> = Vec::new();
        let n = sources.len();
        let mut k: usize = 0;
        while k < n
            invariant
                k <= n,
                pending@.len() == k as int,
                forall|i: int| 0 <= i < k ==> (#[trigger] pending@[i]) == 1,
            decreases n - k,
        {
            pending.push(1);
            k = k + 1;
        }
        let s = SourceManager {
            sources,
            pending,
            completed: Ghost(Seq::empty()),
            delivered: Ghost(Seq::empty()),
        };
        proof {
            assert(s.delivered@ =~= spec_outputs(s.completed@));
        }
        s
    }

    /// The position of a source name in the active set.
    pub fn position(&self, key: &String) -> (r: Option<usize>)
        ensures
            match r {
                Some(i) => i < self.sources@.len() && self.sources@[i as int]@ == key@,
                None => forall|i: int|
                    0 <= i < self.sources@.len() ==> (#[trigger] self.sources@[i]@) != key@,
            },
    {
        let mut k: usize = 0;
        while k < self.sources.len()
            invariant
                k <= self.sources@.len(),
                forall|i: int| 0 <= i < k ==> (#[trigger] self.sources@[i]@) != key@,
            decreases self.sources@.len() - k,
        {
            if self.sources[k] == *key {
                return Some(k);
            }
            k = k + 1;
        }
        None
    }

    /// Consumes one completion and decides what follows: the update is
    /// handed out unchanged, and when the completed source is still in
    /// the active set it is re-armed — exactly once, so it never
    /// starves and never carries two concurrent receives.
    ///
    /// The returned flag says whether to arm a fresh receive against
    /// the source named `key`.
    pub fn recv(&mut self, key: &String, update: Option<Stock>) -> (r: (Option<Stock>, bool))
        requires
            old(self).wf(),
            old(self).fanin_bound(),
            old(self).has_pending(key@),
        ensures
            final(self).wf(),
            final(self).fanin_bound(),
            final(self).sources == old(self).sources,
            final(self).pending@ == old(self).pending@,
            r.0 == update,
            r.1,
            final(self).completed@ == old(self).completed@.push(
                Completion { key: key@, update },
            ),
            final(self).delivered@ == old(self).delivered@.push(update),
            old(self).fully_armed() ==> final(self).fully_armed(),
    {
        let pos = self.position(key);
        match pos {
            Some(i) => {
                proof {
                    let srcs = self.sources@;
                    let w = choose|w: int|
                        0 <= w < srcs.len() && (#[trigger] srcs[w]@) == key@ && self.pending@[w]
                            >= 1;
                    if w < i as int {
                        assert(srcs[w]@ != srcs[i as int]@);
                    }
                    if (i as int) < w {
                        assert(srcs[i as int]@ != srcs[w]@);
                    }
                    assert(w == i as int);
                }
                // the completed receive leaves the pending set ...
                let p = self.pending[i];
                self.pending[i] = p - 1;
                // ... and the source, still active, is re-armed once
                self.pending[i] = p - 1 + 1;
                self.completed = Ghost(
                    self.completed@.push(Completion { key: key@, update }),
                );
                self.delivered = Ghost(self.delivered@.push(update));
                proof {
                    assert(self.pending@ =~= old(self).pending@);
                    assert(self.delivered@ =~= spec_outputs(self.completed@));
                }
                (update, true)
            },
            None => {
                // unreachable under the precondition: a completion
                // only arrives from an armed, active source
                self.completed = Ghost(
                    self.completed@.push(Completion { key: key@, update }),
                );
                self.delivered = Ghost(self.delivered@.push(update));
                proof {
                    assert(self.delivered@ =~= spec_outputs(self.completed@));
                }
                (update, false)
            },
        }
    }

    /// The subscriptions to perform: for every watch-list entry whose
    /// declared source is active, the `(source, symbol)` pair, in
    /// watch-list order. Entries bound to an unknown or failed source
    /// are skipped.
    pub fn subscription_plan(&self, stocks: &Vec<StockConfig>) -> (plan: Vec<(String, String)>)
        ensures
            plan_view(plan@) == spec_plan(stocks@, *self),
    {
        let mut plan: Vec<(String, String)> = Vec::new();
        let mut k: usize = 0;
        while k < stocks.len()
            invariant
                k <= stocks@.len(),
                plan_view(plan@) == spec_plan(stocks@.take(k as int), *self),
            decreases stocks@.len() - k,
        {
            let ghost plan0 = plan@;
            let entry = &stocks[k];
            let pos = self.position(&entry.source);
            if pos.is_some() {
                plan.push((entry.source.clone(), entry.symbol.clone()));
            }
            proof {
                assert(stocks@.take(k + 1).drop_last() =~= stocks@.take(k as int));
                assert(stocks@.take(k + 1).last() == stocks@[k as int]);
                if spec_active(*self, stocks@[k as int].source@) {
                    assert(plan_view(plan@) =~= plan_view(plan0) + seq![
                        (stocks@[k as int].source@, stocks@[k as int].symbol@),
                    ]);
                } else {
                    assert(plan@ == plan0);
                }
                assert(plan_view(plan@) =~= spec_plan(stocks@.take(k + 1), *self));
            }
            k = k + 1;
        }
        proof {
            assert(stocks@.take(stocks@.len() as int) =~= stocks@);
        }
        plan
    }
}

/// Whether the multiplexer holds an active source of this name.
pub open spec fn spec_active(s: SourceManager, name: Seq<char>) -> bool {
    exists|i: int| 0 <= i < s.sources@.len() && (#[trigger] s.sources@[i]@) == name
}

/// The `(source, symbol)` pairs of a subscription plan, as character
/// sequences.
pub open spec fn plan_view(plan: Seq<(String, String)>) -> Seq<(Seq<char>, Seq<char>)> {
    plan.map_values(|p: (String, String)| (p.0@, p.1@))
}

/// The subscriptions owed for a watch-list: every entry whose source
/// is active, in order, as a `(source, symbol)` pair.
pub open spec fn spec_plan(stocks: Seq<StockConfig>, s: SourceManager) -> Seq<
    (Seq<char>, Seq<char>),
>
    decreases stocks.len(),
{
    if stocks.len() == 0 {
        Seq::empty()
    } else {
        let rest = spec_plan(stocks.drop_last(), s);
        if spec_active(s, stocks.last().source@) {
            rest + seq![(stocks.last().source@, stocks.last().symbol@)]
        } else {
            rest
        }
    }
}

/// No lost or duplicated updates: in every reachable multiplexer
/// state, the updates handed out are exactly the updates of the
/// completions consumed — one for one, in arrival order. Together
/// with the per-source fan-in bound this means every update a source
/// produces is delivered exactly once, in its emission order.
pub proof fn lemma_exact_delivery(s: SourceManager)
    requires
        s.wf(),
    ensures
        s.delivered@.len() == s.completed@.len(),
        forall|i: int|
            0 <= i < s.completed@.len() ==> s.delivered@[i] == (#[trigger] s.completed@[i]).update,
{
}

} // verus!
