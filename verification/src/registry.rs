//! Concurrent label registry: maps a caller-chosen label to the number of
//! units of work currently in flight under it.  An entry with count zero is
//! removed rather than kept, so the registry's size is exactly the number of
//! labels with strictly positive in-flight work.

use vstd::prelude::*;
use std::collections::hash_map::RandomState;

verus! {

#[verifier::external_type_specification]
#[verifier::external_body]
#[verifier::reject_recursive_types(K)]
#[verifier::reject_recursive_types(V)]
#[verifier::reject_recursive_types(S)]
pub struct ExDashMap<K, V, S>(dashmap::DashMap<K, V, S>);

/// What a sharded label map holds, as a mathematical map from label to count.
pub uninterp spec fn dash_view(m: dashmap::DashMap<u32, u32, RandomState>) -> Map<u32, u32>;

/// The empty registry map.
pub open spec fn empty_reg() -> Map<u32, u32> {
    Map::empty()
}

/// Relies on dashmap::DashMap::new: a freshly made map holds no entries.
#[verifier::external_body]
fn dm_new() -> (m: dashmap::DashMap<u32, u32, RandomState>)
    ensures
        dash_view(m) == empty_reg(),
{
    dashmap::DashMap::new()
}

/// Relies on dashmap::DashMap::get: returns the value the key maps to, if any.
#[verifier::external_body]
fn dm_get(m: &dashmap::DashMap<u32, u32, RandomState>, k: u32) -> (r: Option<u32>)
    ensures
        dash_view(*m).contains_key(k) ==> r == Some(dash_view(*m)[k]),
        !dash_view(*m).contains_key(k) ==> r is None,
{
    m.get(&k).map(|e| *e.value())
}

/// Relies on dashmap::DashMap::insert: afterwards the key maps to the value,
/// and no other entry changes.
#[verifier::external_body]
fn dm_insert(m: &mut dashmap::DashMap<u32, u32, RandomState>, k: u32, v: u32)
    ensures
        dash_view(*final(m)) == dash_view(*old(m)).insert(k, v),
{
    m.insert(k, v);
}

/// Relies on dashmap::DashMap::remove: afterwards the key maps to nothing,
/// and no other entry changes.
#[verifier::external_body]
fn dm_remove(m: &mut dashmap::DashMap<u32, u32, RandomState>, k: u32)
    ensures
        dash_view(*final(m)) == dash_view(*old(m)).remove(k),
{
    m.remove(&k);
}

/// Relies on dashmap::DashMap::len: the number of entries in the map.
#[verifier::external_body]
fn dm_len(m: &dashmap::DashMap<u32, u32, RandomState>) -> (n: usize)
    ensures
        n == dash_view(*m).dom().len(),
{
    m.len()
}

/// Relies on dashmap::DashMap::contains_key: whether the key has an entry.
#[verifier::external_body]
fn dm_contains(m: &dashmap::DashMap<u32, u32, RandomState>, k: u32) -> (b: bool)
    ensures
        b == dash_view(*m).contains_key(k),
{
    m.contains_key(&k)
}

/// The in-flight count a registry map records for a label: the entry's value
/// when present, zero when absent.
pub open spec fn count_of(m: Map<u32, u32>, label: u32) -> u32 {
    if m.contains_key(label) {
        m[label]
    } else {
        0
    }
}

/// The registry map after an increment of the label's count.
pub open spec fn reg_inc(m: Map<u32, u32>, label: u32) -> Map<u32, u32>
    recommends
        count_of(m, label) < u32::MAX,
{
    m.insert(label, (count_of(m, label) + 1) as u32)
}

/// The registry map after a decrement of the label's count: a no-op on an
/// absent label, removal when the count drops to zero.
pub open spec fn reg_dec(m: Map<u32, u32>, label: u32) -> Map<u32, u32> {
    if !m.contains_key(label) {
        m
    } else if m[label] <= 1 {
        m.remove(label)
    } else {
        m.insert(label, (m[label] - 1) as u32)
    }
}

/// One registry operation on a fixed label: an increment (true) or a
/// decrement (false).
pub open spec fn reg_step(m: Map<u32, u32>, label: u32, is_inc: bool) -> Map<u32, u32> {
    if is_inc {
        reg_inc(m, label)
    } else {
        reg_dec(m, label)
    }
}

/// The registry map after a sequence of operations on one label, applied in
/// order.
pub open spec fn reg_apply(m: Map<u32, u32>, label: u32, ops: Seq<bool>) -> Map<u32, u32>
    decreases ops.len(),
{
    if ops.len() == 0 {
        m
    } else {
        reg_apply(reg_step(m, label, ops[0]), label, ops.drop_first())
    }
}

/// The net change a sequence of operations makes to a label's count:
/// increments minus decrements.
pub open spec fn net_change(ops: Seq<bool>) -> int
    decreases ops.len(),
{
    if ops.len() == 0 {
        0int
    } else {
        (if ops[0] {
            1int
        } else {
            -1int
        }) + net_change(ops.drop_first())
    }
}

proof fn lemma_net_change_take_shift(ops: Seq<bool>, i: int)
    requires
        ops.len() >= 1,
        0 <= i <= ops.len() - 1,
    ensures
        net_change(ops.take(i + 1)) == (if ops[0] {
            1int
        } else {
            -1int
        }) + net_change(ops.drop_first().take(i)),
{
    let pre = ops.take(i + 1);
    assert(pre.len() == i + 1);
    assert(pre[0] == ops[0]);
    assert(pre.drop_first() =~= ops.drop_first().take(i));
}

/// After a sequence of operations on one label whose running net change
/// never drives the count negative or past the count type's range, the
/// label's count has moved by exactly the net change, a positive count is
/// recorded exactly when it is present, and every other label is untouched.
pub proof fn lemma_reg_apply_net(m: Map<u32, u32>, label: u32, ops: Seq<bool>)
    requires
        m.contains_key(label) ==> m[label] >= 1,
        forall|i: int| 0 <= i <= ops.len() ==> 0 <= count_of(m, label) + net_change(#[trigger] ops.take(i)) <= u32::MAX,
    ensures
        count_of(reg_apply(m, label, ops), label) == count_of(m, label) + net_change(ops),
        reg_apply(m, label, ops).contains_key(label) <==> count_of(m, label) + net_change(ops) >= 1,
        forall|l: u32| l != label ==> #[trigger] reg_apply(m, label, ops).contains_key(l) == m.contains_key(l),
        forall|l: u32| l != label && m.contains_key(l) ==> #[trigger] reg_apply(m, label, ops)[l] == m[l],
    decreases ops.len(),
{
    if ops.len() == 0 {
        assert(ops.take(0) =~= ops);
    } else {
        let c = count_of(m, label);
        let step: int = if ops[0] {
            1int
        } else {
            -1int
        };
        assert(ops.take(0) =~= Seq::<bool>::empty());
        assert(net_change(ops.take(0)) == 0);
        assert(ops.take(1) =~= seq![ops[0]]);
        assert(ops.take(1).drop_first() =~= Seq::<bool>::empty());
        assert(net_change(ops.take(1)) == step);
        let m1 = reg_step(m, label, ops[0]);
        assert(count_of(m1, label) == c + step) by {
            if ops[0] {
                assert(0 <= c + 1 <= u32::MAX);
            } else {
                assert(0 <= c - 1);
                assert(m.contains_key(label));
            }
        }
        let tail = ops.drop_first();
        assert forall|i: int| 0 <= i <= tail.len() implies 0 <= count_of(m1, label) + net_change(
            #[trigger] tail.take(i),
        ) <= u32::MAX by {
            lemma_net_change_take_shift(ops, i);
            assert(0 <= c + net_change(ops.take(i + 1)) <= u32::MAX);
        }
        lemma_reg_apply_net(m1, label, tail);
        assert(net_change(ops) == step + net_change(tail));
    }
}

/// After any sequence of paired increments and decrements on one label --
/// every decrement matching an earlier increment, all pairs complete -- the
/// label is absent from the registry and the registry map is exactly what
/// it was before the first operation.
pub proof fn lemma_paired_ops_restore_registry(m: Map<u32, u32>, label: u32, ops: Seq<bool>)
    requires
        !m.contains_key(label),
        net_change(ops) == 0,
        forall|i: int| 0 <= i <= ops.len() ==> 0 <= net_change(#[trigger] ops.take(i)) <= u32::MAX,
    ensures
        !reg_apply(m, label, ops).contains_key(label),
        count_of(reg_apply(m, label, ops), label) == 0,
        reg_apply(m, label, ops) == m,
{
    lemma_reg_apply_net(m, label, ops);
    assert(reg_apply(m, label, ops) =~= m);
}

/// A decrement right after an increment of the same label restores the
/// registry map exactly: the bookkeeping around one dispatched unit of work
/// leaves no trace.
pub proof fn lemma_inc_dec_cancel(m: Map<u32, u32>, label: u32)
    requires
        m.contains_key(label) ==> m[label] >= 1,
        count_of(m, label) < u32::MAX,
    ensures
        reg_dec(reg_inc(m, label), label) == m,
{
    assert(reg_dec(reg_inc(m, label), label) =~= m);
}

/// Mapping from label to in-flight count, backed by a sharded concurrent map
/// so that unrelated labels are not serialized behind one lock.
pub struct LabelRegistry {
    map: dashmap::DashMap<u32, u32, RandomState>,
}

impl View for LabelRegistry {
    type V = Map<u32, u32>;

    closed spec fn view(&self) -> Map<u32, u32> {
        dash_view(self.map)
    }
}

impl LabelRegistry {
    /// Every recorded count is strictly positive and the set of recorded
    /// labels is finite: an entry is created by the first increment and
    /// removed by the decrement that returns its count to zero.
    pub open spec fn wf(self) -> bool {
        &&& self@.dom().finite()
        &&& forall|l: u32| #[trigger] self@.contains_key(l) ==> self@[l] >= 1
    }

    pub fn new() -> (r: Self)
        ensures
            r.wf(),
            r@ == empty_reg(),
    {
        LabelRegistry { map: dm_new() }
    }

    /// Current in-flight count for the label, zero if it is absent.
    pub fn count(&self, label: u32) -> (c: u32)
        ensures
            c == count_of(self@, label),
    {
        match dm_get(&self.map, label) {
            Some(c) => c,
            None => 0,
        }
    }

    /// Whether the label currently has in-flight work.
    pub fn contains(&self, label: u32) -> (b: bool)
        ensures
            b == self@.contains_key(label),
    {
        dm_contains(&self.map, label)
    }

    /// Number of distinct labels with in-flight work.
    pub fn active_label_count(&self) -> (n: usize)
        ensures
            n == self@.dom().len(),
    {
        dm_len(&self.map)
    }

    /// Records one more unit of in-flight work under the label, creating the
    /// entry with count one if the label was absent.
    pub fn increment(&mut self, label: u32)
        requires
            old(self).wf(),
            count_of(old(self)@, label) < u32::MAX,
        ensures
            final(self).wf(),
            final(self)@ == reg_inc(old(self)@, label),
    {
        match dm_get(&self.map, label) {
            Some(c) => {
                dm_insert(&mut self.map, label, c + 1);
            }
            None => {
                dm_insert(&mut self.map, label, 1);
            }
        }
    }

    /// Records the completion of one unit of work under the label, removing
    /// the entry when its count returns to zero.  A decrement on an absent
    /// label is a defensive no-op.
    pub fn decrement(&mut self, label: u32)
        requires
            old(self).wf(),
        ensures
            final(self).wf(),
            final(self)@ == reg_dec(old(self)@, label),
    {
        match dm_get(&self.map, label) {
            Some(c) => {
                if c <= 1 {
                    dm_remove(&mut self.map, label);
                } else {
                    dm_insert(&mut self.map, label, c - 1);
                }
            }
            None => {}
        }
    }
}

} // verus!
