//! A model of the metric sink: the last written raw value of every time
//! series, keyed by metric and label set. Writes are absolute — each one
//! replaces the series' value, it never adds — which is what the bridge
//! asks of its registry, and what the laws at the end of this module pin
//! down.

use vstd::prelude::*;

use crate::data::{HealthData, StatsView};
use crate::mapping::{
    gauge_of_bool, spec_health_ops, spec_stats_ops, MetricId, MetricOp, MetricOpView,
};

verus! {

/// The label pair of a per-user time series.
#[derive(Clone, Debug)]
pub struct LabelPair {
    pub internal_id: u64,
    pub slack_id: String,
}

/// Mathematical image of a [`LabelPair`].
pub struct LabelPairView {
    pub internal_id: u64,
    pub slack_id: Seq<char>,
}

impl View for LabelPair {
    type V = LabelPairView;

    open spec fn view(&self) -> LabelPairView {
        LabelPairView { internal_id: self.internal_id, slack_id: self.slack_id@ }
    }
}

/// What identifies one time series: a metric, and its labels if any.
#[derive(Clone, Debug)]
pub struct MetricKey {
    pub metric: MetricId,
    pub labels: Option<LabelPair>,
}

/// Mathematical image of a [`MetricKey`].
pub struct MetricKeyView {
    pub metric: MetricId,
    pub labels: Option<LabelPairView>,
}

impl View for MetricKey {
    type V = MetricKeyView;

    open spec fn view(&self) -> MetricKeyView {
        match self.labels {
            Some(ref l) => MetricKeyView { metric: self.metric, labels: Some(l@) },
            None => MetricKeyView { metric: self.metric, labels: None },
        }
    }
}

/// The key of an unlabeled series.
pub open spec fn unlabeled(metric: MetricId) -> MetricKeyView {
    MetricKeyView { metric, labels: None }
}

/// The key of a per-user series.
pub open spec fn labeled(metric: MetricId, internal_id: u64, slack_id: Seq<char>) -> MetricKeyView {
    MetricKeyView { metric, labels: Some(LabelPairView { internal_id, slack_id }) }
}

/// The series a write addresses.
pub open spec fn op_key(op: MetricOpView) -> MetricKeyView {
    match op {
        MetricOpView::SetGauge { metric, .. } => unlabeled(metric),
        MetricOpView::SetGaugeBits { metric, .. } => unlabeled(metric),
        MetricOpView::SetCounterAbsolute { metric, .. } => unlabeled(metric),
        MetricOpView::SetLabeledCounterAbsolute { metric, internal_id, slack_id, .. } => labeled(
            metric,
            internal_id,
            slack_id,
        ),
        MetricOpView::SetLabeledGauge { metric, internal_id, slack_id, .. } => labeled(
            metric,
            internal_id,
            slack_id,
        ),
    }
}

/// The raw value a write leaves on its series: the integer itself, or
/// the bit pattern of a floating-point gauge.
pub open spec fn op_raw_value(op: MetricOpView) -> u64 {
    match op {
        MetricOpView::SetGauge { value, .. } => value,
        MetricOpView::SetGaugeBits { bits, .. } => bits.0,
        MetricOpView::SetCounterAbsolute { value, .. } => value,
        MetricOpView::SetLabeledCounterAbsolute { value, .. } => value,
        MetricOpView::SetLabeledGauge { value, .. } => value,
    }
}

/// The store after a sequence of writes, each replacing its series'
/// value.
pub open spec fn spec_apply_ops(
    m: Map<MetricKeyView, u64>,
    ops: Seq<MetricOpView>,
) -> Map<MetricKeyView, u64>
    decreases ops.len(),
{
    if ops.len() == 0 {
        m
    } else {
        spec_apply_ops(m, ops.drop_last()).insert(op_key(ops.last()), op_raw_value(ops.last()))
    }
}

/// One stored series.
#[derive(Clone, Debug)]
struct StoreEntry {
    key: MetricKey,
    value: u64,
}

/// The map a sequence of stored series amounts to.
spec fn store_map(s: Seq<StoreEntry>) -> Map<MetricKeyView, u64>
    decreases s.len(),
{
    if s.len() == 0 {
        Map::empty()
    } else {
        store_map(s.drop_last()).insert(s.last().key@, s.last().value)
    }
}

/// Each series occurs at most once.
spec fn unique_keys(s: Seq<StoreEntry>) -> bool {
    forall|i: int, j: int| 0 <= i < j < s.len() ==> s[i].key@ != s[j].key@
}

proof fn lemma_unique_keys_drop_last(s: Seq<StoreEntry>)
    requires
        s.len() > 0,
        unique_keys(s),
    ensures
        unique_keys(s.drop_last()),
{
    assert forall|i: int, j: int|
        0 <= i < j < s.drop_last().len() implies s.drop_last()[i].key@ != s.drop_last()[j].key@ by {
        assert(s.drop_last()[i] == s[i]);
        assert(s.drop_last()[j] == s[j]);
    }
}

/// With pairwise-distinct keys, the entry at `i` is what the map holds
/// for its key.
proof fn lemma_store_map_of_entry(s: Seq<StoreEntry>, i: int)
    requires
        0 <= i < s.len(),
        unique_keys(s),
    ensures
        store_map(s).contains_key(s[i].key@),
        store_map(s)[s[i].key@] == s[i].value,
    decreases s.len(),
{
    if i < s.len() - 1 {
        lemma_unique_keys_drop_last(s);
        lemma_store_map_of_entry(s.drop_last(), i);
        assert(s.drop_last()[i] == s[i]);
        assert(s[i].key@ != s.last().key@);
    }
}

/// A key no entry carries is absent from the map.
proof fn lemma_store_map_of_absent(s: Seq<StoreEntry>, k: MetricKeyView)
    requires
        forall|i: int| 0 <= i < s.len() ==> s[i].key@ != k,
    ensures
        !store_map(s).contains_key(k),
    decreases s.len(),
{
    if s.len() > 0 {
        assert forall|i: int| 0 <= i < s.drop_last().len() implies s.drop_last()[i].key@ != k by {
            assert(s.drop_last()[i] == s[i]);
        }
        lemma_store_map_of_absent(s.drop_last(), k);
    }
}

/// Replacing the entry at `i` by one with the same key rewrites exactly
/// that key's value.
proof fn lemma_store_map_update(s: Seq<StoreEntry>, i: int, e: StoreEntry)
    requires
        0 <= i < s.len(),
        unique_keys(s),
        e.key@ == s[i].key@,
    ensures
        store_map(s.update(i, e)) == store_map(s).insert(e.key@, e.value),
    decreases s.len(),
{
    let t = s.update(i, e);
    if i == s.len() - 1 {
        assert(t.drop_last() =~= s.drop_last());
        assert(t.last() == e);
        assert(store_map(s.drop_last()).insert(e.key@, e.value) =~= store_map(
            s.drop_last(),
        ).insert(s.last().key@, s.last().value).insert(e.key@, e.value));
    } else {
        lemma_unique_keys_drop_last(s);
        assert(t.drop_last() =~= s.drop_last().update(i, e));
        lemma_store_map_update(s.drop_last(), i, e);
        assert(t.last() == s.last());
        assert(e.key@ != s.last().key@);
        assert(store_map(s.drop_last()).insert(e.key@, e.value).insert(
            s.last().key@,
            s.last().value,
        ) =~= store_map(s.drop_last()).insert(s.last().key@, s.last().value).insert(
            e.key@,
            e.value,
        ));
    }
}

/// Whether two keys name the same series.
fn key_eq(a: &MetricKey, b: &MetricKey) -> (r: bool)
    ensures
        r == (a@ == b@),
{
    if !(a.metric == b.metric) {
        return false;
    }
    match (&a.labels, &b.labels) {
        (None, None) => true,
        (Some(x), Some(y)) => x.internal_id == y.internal_id && x.slack_id == y.slack_id,
        _ => false,
    }
}

/// The series and raw value a write addresses.
fn op_key_value(op: &MetricOp) -> (kv: (MetricKey, u64))
    ensures
        kv.0@ == op_key(op@),
        kv.1 == op_raw_value(op@),
{
    match op {
        MetricOp::SetGauge { metric, value } => (
            (MetricKey { metric: *metric, labels: None }, *value)
        ),
        MetricOp::SetGaugeBits { metric, bits } => (
            (MetricKey { metric: *metric, labels: None }, bits.0)
        ),
        MetricOp::SetCounterAbsolute { metric, value } => (
            (MetricKey { metric: *metric, labels: None }, *value)
        ),
        MetricOp::SetLabeledCounterAbsolute { metric, internal_id, slack_id, value } => (
            (
                MetricKey {
                    metric: *metric,
                    labels: Some(
                        LabelPair { internal_id: *internal_id, slack_id: slack_id.clone() },
                    ),
                },
                *value,
            )
        ),
        MetricOp::SetLabeledGauge { metric, internal_id, slack_id, value } => (
            (
                MetricKey {
                    metric: *metric,
                    labels: Some(
                        LabelPair { internal_id: *internal_id, slack_id: slack_id.clone() },
                    ),
                },
                *value,
            )
        ),
    }
}

/// The last written raw value of every time series. A faithful stand-in
/// for the external registry in tests, and the object of the laws below.
#[derive(Debug)]
pub struct MetricStore {
    entries: Vec<StoreEntry>,
}

impl View for MetricStore {
    type V = Map<MetricKeyView, u64>;

    closed spec fn view(&self) -> Map<MetricKeyView, u64> {
        store_map(self.entries@)
    }
}

impl MetricStore {
    /// Pairwise-distinct series: the type's validity condition.
    pub closed spec fn wf(&self) -> bool {
        unique_keys(self.entries@)
    }

    /// An empty store: nothing has been written yet.
    pub fn new() -> (s: MetricStore)
        ensures
            s.wf(),
            s@ == Map::<MetricKeyView, u64>::empty(),
    {
        MetricStore { entries: Vec::new() }
    }

    /// The last raw value written to a series, or `None` when the
    /// series was never written.
    pub fn get(&self, key: &MetricKey) -> (r: Option<u64>)
        requires
            self.wf(),
        ensures
            match r {
                Some(v) => self@.contains_key(key@) && v == self@[key@],
                None => !self@.contains_key(key@),
            },
    {
        let n = self.entries.len();
        let mut i: usize = 0;
        while i < n
            invariant
                n == self.entries@.len(),
                i <= n,
                self.wf(),
                forall|j: int| 0 <= j < i as int ==> self.entries@[j].key@ != key@,
            decreases n - i,
        {
            if key_eq(&self.entries[i].key, key) {
                proof {
                    lemma_store_map_of_entry(self.entries@, i as int);
                }
                return Some(self.entries[i].value);
            }
            i += 1;
        }
        proof {
            lemma_store_map_of_absent(self.entries@, key@);
        }
        None
    }

    /// One absolute write: the op's series takes the op's raw value,
    /// every other series keeps its own.
    pub fn apply(&mut self, op: &MetricOp)
        requires
            old(self).wf(),
        ensures
            final(self).wf(),
            final(self)@ == old(self)@.insert(op_key(op@), op_raw_value(op@)),
    {
        let (key, value) = op_key_value(op);
        let n = self.entries.len();
        let mut i: usize = 0;
        while i < n
            invariant
                n == self.entries@.len(),
                self.wf(),
                self.entries@ == old(self).entries@,
                i <= n,
                key@ == op_key(op@),
                value == op_raw_value(op@),
                forall|j: int| 0 <= j < i as int ==> self.entries@[j].key@ != key@,
            decreases n - i,
        {
            if key_eq(&self.entries[i].key, &key) {
                let ghost pre = self.entries@;
                self.entries[i] = StoreEntry { key, value };
                proof {
                    lemma_store_map_update(pre, i as int, StoreEntry { key: self.entries@[i as int].key, value });
                    assert(self.entries@ =~= pre.update(i as int, self.entries@[i as int]));
                    assert forall|p: int, q: int|
                        0 <= p < q < self.entries@.len() implies self.entries@[p].key@
                        != self.entries@[q].key@ by {
                        assert(pre[p].key@ != pre[q].key@);
                    }
                }
                return;
            }
            i += 1;
        }
        let ghost pre = self.entries@;
        self.entries.push(StoreEntry { key, value });
        proof {
            assert(self.entries@.drop_last() =~= pre);
            assert forall|p: int, q: int|
                0 <= p < q < self.entries@.len() implies self.entries@[p].key@
                != self.entries@[q].key@ by {
                if q < pre.len() {
                    assert(pre[p].key@ != pre[q].key@);
                }
            }
        }
    }

    /// A sequence of absolute writes, first to last.
    pub fn apply_all(&mut self, ops: &Vec<MetricOp>)
        requires
            old(self).wf(),
        ensures
            final(self).wf(),
            final(self)@ == spec_apply_ops(old(self)@, ops.deep_view()),
    {
        let ghost m0 = self@;
        let n = ops.len();
        let mut i: usize = 0;
        while i < n
            invariant
                n == ops@.len(),
                i <= n,
                self.wf(),
                self@ == spec_apply_ops(m0, ops.deep_view().take(i as int)),
            decreases n - i,
        {
            let ghost pre_take = ops.deep_view().take(i as int);
            let op = &ops[i];
            self.apply(op);
            i += 1;
            proof {
                let d = ops.deep_view();
                assert(d.take(i as int).drop_last() =~= pre_take);
                assert(d.take(i as int).last() == d[i - 1]);
                assert(d[i - 1] == ops@[i - 1].deep_view());
            }
        }
        proof {
            assert(ops.deep_view().take(n as int) =~= ops.deep_view());
        }
    }
}

/// When the op at `i` is the last writer of a series, the store ends up
/// holding that op's value for it.
proof fn lemma_apply_ops_at_key(
    m: Map<MetricKeyView, u64>,
    ops: Seq<MetricOpView>,
    k: MetricKeyView,
    i: int,
)
    requires
        0 <= i < ops.len(),
        op_key(ops[i]) == k,
        forall|j: int| i < j < ops.len() ==> op_key(ops[j]) != k,
    ensures
        spec_apply_ops(m, ops).contains_key(k),
        spec_apply_ops(m, ops)[k] == op_raw_value(ops[i]),
    decreases ops.len(),
{
    if i < ops.len() - 1 {
        assert forall|j: int| i < j < ops.drop_last().len() implies op_key(
            ops.drop_last()[j],
        ) != k by {
            assert(ops.drop_last()[j] == ops[j]);
        }
        assert(ops.drop_last()[i] == ops[i]);
        lemma_apply_ops_at_key(m, ops.drop_last(), k, i);
        assert(op_key(ops.last()) != k);
    }
}

/// Law of absolute semantics: writing a series twice leaves the later
/// observed cumulative value — never a sum of the two.
pub proof fn lemma_absolute_set_overwrites(
    m: Map<MetricKeyView, u64>,
    key: MetricKeyView,
    v1: u64,
    v2: u64,
)
    ensures
        m.insert(key, v1).insert(key, v2) == m.insert(key, v2),
{
    assert(m.insert(key, v1).insert(key, v2) =~= m.insert(key, v2));
}

/// Law of the health mapping: after the writes of any health payload,
/// each of the three health gauges reads exactly the 0/1 image of its
/// source flag — whatever the store held before.
pub proof fn lemma_health_gauges_reflect_payload(m: Map<MetricKeyView, u64>, h: HealthData)
    ensures
        spec_apply_ops(m, spec_health_ops(h)).contains_key(unlabeled(MetricId::OverallUp)),
        spec_apply_ops(m, spec_health_ops(h)).contains_key(unlabeled(MetricId::SlackUp)),
        spec_apply_ops(m, spec_health_ops(h)).contains_key(unlabeled(MetricId::DatabaseUp)),
        spec_apply_ops(m, spec_health_ops(h))[unlabeled(MetricId::OverallUp)] == gauge_of_bool(
            h.healthy,
        ),
        spec_apply_ops(m, spec_health_ops(h))[unlabeled(MetricId::SlackUp)] == gauge_of_bool(
            h.slack,
        ),
        spec_apply_ops(m, spec_health_ops(h))[unlabeled(MetricId::DatabaseUp)] == gauge_of_bool(
            h.database,
        ),
{
    let ops = spec_health_ops(h);
    lemma_apply_ops_at_key(m, ops, unlabeled(MetricId::OverallUp), 0);
    lemma_apply_ops_at_key(m, ops, unlabeled(MetricId::SlackUp), 1);
    lemma_apply_ops_at_key(m, ops, unlabeled(MetricId::DatabaseUp), 2);
}

/// Law of the total-tickets counter: after the writes of any statistics
/// payload, the counter's reported value equals the payload's total
/// exactly — the write replaces, it never adds.
pub proof fn lemma_total_tickets_absolute(m: Map<MetricKeyView, u64>, s: StatsView)
    ensures
        spec_apply_ops(m, spec_stats_ops(s)).contains_key(unlabeled(MetricId::TicketsTotal)),
        spec_apply_ops(m, spec_stats_ops(s))[unlabeled(MetricId::TicketsTotal)] == s.total_tickets,
{
    let ops = spec_stats_ops(s);
    let k = unlabeled(MetricId::TicketsTotal);
    assert(ops[0] == MetricOpView::SetCounterAbsolute {
        metric: MetricId::TicketsTotal,
        value: s.total_tickets,
    });
    assert forall|j: int| 0 < j < ops.len() implies op_key(ops[j]) != k by {
        lemma_stats_op_shape(s, j);
    }
    lemma_apply_ops_at_key(m, ops, k, 0);
}

/// Every statistics write other than the first touches either another
/// unlabeled metric or a labeled series.
proof fn lemma_stats_op_shape(s: StatsView, j: int)
    requires
        0 < j < spec_stats_ops(s).len(),
    ensures
        op_key(spec_stats_ops(s)[j]) != unlabeled(MetricId::TicketsTotal),
{
    let ops = spec_stats_ops(s);
    let cur = s.total_top_3_users_with_closed_tickets;
    let prev = s.prev_day_top_3_users_with_closed_tickets;
    if j < 5 {
    } else if j < 5 + cur.len() {
        assert(ops[j] == crate::mapping::spec_user_counter_ops(cur)[j - 5]);
    } else if j < 10 + cur.len() {
        assert(ops[j] == crate::mapping::spec_prev_day_aggregate_ops(s)[j - 5 - cur.len()]);
    } else {
        assert(ops[j] == crate::mapping::spec_prev_user_gauge_ops(prev)[j - 10 - cur.len()]);
    }
}

/// Law of the per-user counters: when the current-window top-user
/// entries name pairwise-distinct series, each entry's labeled counter
/// ends up at exactly that entry's closed-ticket count.
pub proof fn lemma_user_counters_reflect_entries(m: Map<MetricKeyView, u64>, s: StatsView, i: int)
    requires
        0 <= i < s.total_top_3_users_with_closed_tickets.len(),
        forall|p: int, q: int|
            0 <= p < q < s.total_top_3_users_with_closed_tickets.len()
                ==> !(s.total_top_3_users_with_closed_tickets[p].user_id
                == s.total_top_3_users_with_closed_tickets[q].user_id
                && s.total_top_3_users_with_closed_tickets[p].slack_id
                == s.total_top_3_users_with_closed_tickets[q].slack_id),
    ensures
        spec_apply_ops(m, spec_stats_ops(s)).contains_key(
            labeled(
                MetricId::UserClosedTicketsTotal,
                s.total_top_3_users_with_closed_tickets[i].user_id,
                s.total_top_3_users_with_closed_tickets[i].slack_id,
            ),
        ),
        spec_apply_ops(m, spec_stats_ops(s))[labeled(
            MetricId::UserClosedTicketsTotal,
            s.total_top_3_users_with_closed_tickets[i].user_id,
            s.total_top_3_users_with_closed_tickets[i].slack_id,
        )] == s.total_top_3_users_with_closed_tickets[i].closed_ticket_count,
{
    let ops = spec_stats_ops(s);
    let cur = s.total_top_3_users_with_closed_tickets;
    let prev = s.prev_day_top_3_users_with_closed_tickets;
    let u = cur[i];
    let k = labeled(MetricId::UserClosedTicketsTotal, u.user_id, u.slack_id);
    assert(ops[5 + i] == crate::mapping::spec_user_counter_ops(cur)[i]);
    assert(op_key(ops[5 + i]) == k);
    assert forall|j: int| 5 + i < j < ops.len() implies op_key(ops[j]) != k by {
        if j < 5 + cur.len() {
            assert(ops[j] == crate::mapping::spec_user_counter_ops(cur)[j - 5]);
            assert(!(cur[j - 5].user_id == u.user_id && cur[j - 5].slack_id == u.slack_id));
        } else if j < 10 + cur.len() {
            assert(ops[j] == crate::mapping::spec_prev_day_aggregate_ops(s)[j - 5 - cur.len()]);
        } else {
            assert(ops[j] == crate::mapping::spec_prev_user_gauge_ops(prev)[j - 10 - cur.len()]);
        }
    }
    lemma_apply_ops_at_key(m, ops, k, 5 + i);
}

} // verus!
