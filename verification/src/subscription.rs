//! The listeners of an audio loop, and what is delivered to them.
use crate::listener::Listener;
use std::collections::hash_map::Entry;
use std::collections::HashMap;
use vstd::prelude::*;
use vstd::std_specs::iter::IteratorSpec;

verus! {

/// One call of a listener: the key it is registered under, the callback, and the update that it
/// was called with.
pub struct Delivery<T, F> {
    pub key: u64,
    pub callback: F,
    pub update: T,
}

/// A registered listener. It is given out by a subscription and handed back to end it.
pub struct Subscription(u64);

impl Subscription {
    /// The key that the listener is registered under.
    pub closed spec fn key(self) -> u64 {
        self.0
    }
}

/// Whether `callback` can be called with any update.
pub open spec fn accepts_updates<T, F: FnMut(&T)>(callback: F) -> bool {
    forall|update: T| #[trigger] call_requires(callback, (&update,))
}

/// Whether the callback was called with the update and returned.
pub open spec fn took_place<T, F: FnMut(&T)>(call: Delivery<T, F>) -> bool {
    call_ensures(call.callback, (&call.update,), ())
}

/// Whether `order` runs through the keys of `callbacks`, each once.
pub open spec fn is_order_of<F>(order: Seq<u64>, callbacks: Map<u64, F>) -> bool {
    &&& order.no_duplicates()
    &&& order.to_set() == callbacks.dom()
}

/// The calls that deliver `updates` to the listeners in `order`: one round of all listeners for
/// each update, the updates oldest first.
pub open spec fn rounds<T, F>(
    updates: Seq<T>,
    order: Seq<u64>,
    callbacks: Map<u64, F>,
) -> Seq<Delivery<T, F>> {
    let n = order.len() as int;
    Seq::new(
        (updates.len() * order.len()) as nat,
        |i: int|
            Delivery {
                key: order[i % n],
                callback: callbacks[order[i % n]],
                update: updates[i / n],
            },
    )
}

/// What the listener under `key` has received in the calls `log`, oldest first.
pub open spec fn received<T, F>(log: Seq<Delivery<T, F>>, key: u64) -> Seq<T>
    decreases log.len(),
{
    if log.len() == 0 {
        Seq::empty()
    } else if log.last().key == key {
        received(log.drop_last(), key).push(log.last().update)
    } else {
        received(log.drop_last(), key)
    }
}

/// The listeners for updates of type `T`, each under a key of its own.
///
/// Keys count up from zero and are never given out twice.
pub struct SubscriptionMap<T, F> {
    map: HashMap<u64, Listener<T, F>>,
    next_key: u64,
    log: Ghost<Seq<Delivery<T, F>>>,
}

impl<T, F: FnMut(&T)> SubscriptionMap<T, F> {
    /// The callbacks that are registered, by key.
    pub closed spec fn callbacks(self) -> Map<u64, F> {
        self.map@.map_values(|listener: Listener<T, F>| listener.callback())
    }

    /// The updates that the callback under `key` was called with since it is registered, oldest
    /// first: one for each call.
    pub closed spec fn heard(self, key: u64) -> Seq<T> {
        self.map@[key].heard()
    }

    /// The key that the next listener gets; the number of listeners ever registered.
    pub closed spec fn next_key(self) -> u64 {
        self.next_key
    }

    /// Every call of a listener so far, oldest first.
    pub closed spec fn log(self) -> Seq<Delivery<T, F>> {
        self.log@
    }

    /// What holds between calls: every key was given out before, every callback can be called,
    /// every logged call took place, and the log has as many calls of a callback, with the same
    /// updates and in the same order, as were made.
    pub open spec fn wf(self) -> bool {
        &&& forall|key: u64| #[trigger]
            self.callbacks().contains_key(key) ==> key < self.next_key() && accepts_updates::<T, F>(
                self.callbacks()[key],
            )
        &&& forall|i: int|
            0 <= i < self.log().len() ==> took_place(#[trigger] self.log()[i]) && self.log()[i].key
                < self.next_key()
        &&& forall|key: u64| #[trigger]
            self.callbacks().contains_key(key) ==> self.heard(key) == received(self.log(), key)
    }

    /// No listeners.
    pub fn new() -> (r: Self)
        ensures
            r.wf(),
            r.callbacks() == Map::<u64, F>::empty(),
            r.next_key() == 0,
            r.log() == Seq::<Delivery<T, F>>::empty(),
    {
        SubscriptionMap { map: HashMap::new(), next_key: 0, log: Ghost(Seq::empty()) }
    }

    /// Tests whether there is a key left for another listener.
    pub fn can_subscribe(&self) -> (r: bool)
        ensures
            r == (self.next_key() < u64::MAX),
    {
        self.next_key < u64::MAX
    }

    /// Registers `callback` under a key that no listener had before.
    pub fn insert(&mut self, callback: F) -> (key: u64)
        requires
            old(self).wf(),
            old(self).next_key() < u64::MAX,
            accepts_updates::<T, F>(callback),
        ensures
            final(self).wf(),
            key == old(self).next_key(),
            !old(self).callbacks().contains_key(key),
            final(self).callbacks() == old(self).callbacks().insert(key, callback),
            final(self).next_key() == old(self).next_key() + 1,
            final(self).log() == old(self).log(),
            final(self).heard(key) == Seq::<T>::empty(),
            forall|other: u64| #[trigger]
                old(self).callbacks().contains_key(other) ==> final(self).heard(other) == old(
                    self,
                ).heard(other),
    {
        broadcast use vstd::std_specs::hash::group_hash_axioms;

        let key: u64 = self.next_key;
        self.next_key = self.next_key + 1;
        assert(!old(self).callbacks().contains_key(key));
        self.map.insert(key, Listener::new(callback));
        assert(self.callbacks() =~= old(self).callbacks().insert(key, callback));
        assert(self.log() == old(self).log());
        proof {
            lemma_nothing_received(self.log(), key);
        }
        assert forall|k: u64| #[trigger] self.callbacks().contains_key(k) implies k
            < self.next_key() && accepts_updates::<T, F>(self.callbacks()[k]) && self.heard(k)
            == received(self.log(), k) by {
            if k != key {
                assert(old(self).callbacks().contains_key(k));
            }
        }
        key
    }

    /// Removes the listener under `key`; tells whether there was one.
    pub fn remove(&mut self, key: u64) -> (r: bool)
        requires
            old(self).wf(),
        ensures
            final(self).wf(),
            r == old(self).callbacks().contains_key(key),
            final(self).callbacks() == old(self).callbacks().remove(key),
            final(self).next_key() == old(self).next_key(),
            final(self).log() == old(self).log(),
            forall|other: u64| #[trigger]
                final(self).callbacks().contains_key(other) ==> final(self).heard(other) == old(
                    self,
                ).heard(other),
    {
        broadcast use vstd::std_specs::hash::group_hash_axioms;

        let removed = self.map.remove(&key).is_some();
        assert(self.map@ =~= old(self).map@.remove(key));
        assert(self.callbacks() =~= old(self).callbacks().remove(key));
        assert(self.log() == old(self).log());
        assert forall|k: u64| #[trigger] self.callbacks().contains_key(k) implies k
            < self.next_key() && accepts_updates::<T, F>(self.callbacks()[k]) && self.heard(k)
            == received(self.log(), k) by {
            assert(old(self).callbacks().contains_key(k));
        }
        removed
    }

    /// The keys of all listeners, each once, in the order in which the map holds them.
    pub(crate) fn keys(&self) -> (r: Vec<u64>)
        ensures
            is_order_of(r@, self.callbacks()),
    {
        broadcast use vstd::std_specs::hash::group_hash_axioms;

        let mut keys: Vec<u64> = Vec::new();
        for key in it: self.map.keys()
            invariant
                keys@.len() == it.index(),
                forall|i: int| 0 <= i < keys@.len() ==> keys@[i] == *it.seq()[i],
        {
            keys.push(*key);
        }
        assert(self.callbacks().dom() =~= self.map@.dom());
        assert(keys@ =~= vstd::std_specs::hash::spec_keys_iter(&self.map).remaining().unref());
        keys
    }

    /// Calls the listener under `key` with `update`, once. No other function calls a listener, or
    /// adds to the log.
    pub(crate) fn notify(&mut self, key: u64, update: &T)
        requires
            old(self).wf(),
            old(self).callbacks().contains_key(key),
        ensures
            final(self).wf(),
            final(self).callbacks() == old(self).callbacks(),
            final(self).next_key() == old(self).next_key(),
            final(self).log() == old(self).log().push(
                (Delivery { key, callback: old(self).callbacks()[key], update: *update }),
            ),
            final(self).heard(key) == old(self).heard(key).push(*update),
            forall|other: u64| #[trigger]
                old(self).callbacks().contains_key(other) && other != key ==> final(self).heard(
                    other,
                ) == old(self).heard(other),
    {
        broadcast use vstd::std_specs::hash::group_hash_axioms;

        let ghost callback = self.callbacks()[key];
        assert(self.callbacks().contains_key(key));
        if let Entry::Occupied(entry) = self.map.entry(key) {
            let listener = entry.into_mut();
            listener.hear(update);
            assert(took_place(Delivery { key, callback, update: *update }));
        }
        assert(self.callbacks() =~= old(self).callbacks());
        proof {
            self.log@ = self.log@.push(Delivery { key, callback, update: *update });
        }
        assert forall|i: int| 0 <= i < self.log().len() implies took_place(
            #[trigger] self.log()[i],
        ) && self.log()[i].key < self.next_key() by {
            if i < old(self).log().len() {
                assert(self.log()[i] == old(self).log()[i]);
            }
        }
        assert(self.log().drop_last() =~= old(self).log());
        assert forall|k: u64| #[trigger] self.callbacks().contains_key(k) implies self.heard(k)
            == received(self.log(), k) by {
            assert(old(self).callbacks().contains_key(k));
        }
    }

    /// Registers a listener for updates.
    pub fn subscribe(&mut self, callback: F) -> (r: Subscription)
        requires
            old(self).wf(),
            old(self).next_key() < u64::MAX,
            accepts_updates::<T, F>(callback),
        ensures
            final(self).wf(),
            r.key() == old(self).next_key(),
            !old(self).callbacks().contains_key(r.key()),
            final(self).callbacks() == old(self).callbacks().insert(r.key(), callback),
            final(self).next_key() == old(self).next_key() + 1,
            final(self).log() == old(self).log(),
            final(self).heard(r.key()) == Seq::<T>::empty(),
            forall|other: u64| #[trigger]
                old(self).callbacks().contains_key(other) ==> final(self).heard(other) == old(
                    self,
                ).heard(other),
    {
        Subscription(self.insert(callback))
    }

    /// Unregisters a listener; tells whether it was registered.
    pub fn unsubscribe(&mut self, subscription: Subscription) -> (r: bool)
        requires
            old(self).wf(),
        ensures
            final(self).wf(),
            r == old(self).callbacks().contains_key(subscription.key()),
            final(self).callbacks() == old(self).callbacks().remove(subscription.key()),
            final(self).next_key() == old(self).next_key(),
            final(self).log() == old(self).log(),
            forall|other: u64| #[trigger]
                final(self).callbacks().contains_key(other) ==> final(self).heard(other) == old(
                    self,
                ).heard(other),
    {
        self.remove(subscription.0)
    }
}

/// A listener that is in no call has received nothing.
proof fn lemma_nothing_received<T, F>(log: Seq<Delivery<T, F>>, key: u64)
    requires
        forall|i: int| 0 <= i < log.len() ==> (#[trigger] log[i]).key != key,
    ensures
        received(log, key) == Seq::<T>::empty(),
    decreases log.len(),
{
    if log.len() > 0 {
        assert forall|i: int| 0 <= i < log.drop_last().len() implies (
        #[trigger] log.drop_last()[i]).key != key by {
            assert(log.drop_last()[i] == log[i]);
        }
        lemma_nothing_received(log.drop_last(), key);
    }
}

/// What a listener receives in two stretches of calls is what it receives in the first and then
/// in the second.
proof fn lemma_received_concat<T, F>(a: Seq<Delivery<T, F>>, b: Seq<Delivery<T, F>>, key: u64)
    ensures
        received(a + b, key) == received(a, key) + received(b, key),
    decreases b.len(),
{
    if b.len() == 0 {
        assert(a + b =~= a);
        assert(received(a, key) + received(b, key) =~= received(a, key));
    } else {
        lemma_received_concat(a, b.drop_last(), key);
        assert((a + b).drop_last() =~= a + b.drop_last());
        assert((a + b).last() == b.last());
        assert(received(a + b, key) =~= received(a, key) + received(b, key));
    }
}

/// The calls of one round, cut short after the first `k` listeners.
spec fn round<T, F>(update: T, order: Seq<u64>, callbacks: Map<u64, F>, k: int) -> Seq<
    Delivery<T, F>,
> {
    Seq::new(
        k as nat,
        |i: int| Delivery { key: order[i], callback: callbacks[order[i]], update },
    )
}

/// In a round, a listener among the first `k` receives the update once, and any other nothing.
proof fn lemma_received_round<T, F>(
    update: T,
    order: Seq<u64>,
    callbacks: Map<u64, F>,
    k: int,
    key: u64,
)
    requires
        order.no_duplicates(),
        0 <= k <= order.len(),
    ensures
        received(round(update, order, callbacks, k), key) == if order.take(k).contains(key) {
            seq![update]
        } else {
            Seq::empty()
        },
    decreases k,
{
    let calls = round(update, order, callbacks, k);
    if k > 0 {
        lemma_received_round(update, order, callbacks, k - 1, key);
        assert(calls.drop_last() =~= round(update, order, callbacks, k - 1));
        assert(order.take(k) =~= order.take(k - 1).push(order[k - 1]));
        if order[k - 1] == key {
            assert(order.take(k)[k - 1] == key);
            if order.take(k - 1).contains(key) {
                let i = order.take(k - 1).index_of(key);
                assert(order[i] == order[k - 1]);
            }
            assert(received(calls, key) =~= seq![update]);
        } else {
            if order.take(k).contains(key) {
                let i = order.take(k).index_of(key);
                assert(order.take(k - 1)[i] == key);
            }
            if order.take(k - 1).contains(key) {
                let i = order.take(k - 1).index_of(key);
                assert(order.take(k)[i] == key);
            }
        }
    }
}

/// The calls that deliver one more update are the calls before it and one more round.
proof fn lemma_rounds_push<T, F>(updates: Seq<T>, order: Seq<u64>, callbacks: Map<u64, F>)
    requires
        updates.len() > 0,
    ensures
        rounds(updates, order, callbacks) == rounds(updates.drop_last(), order, callbacks) + round(
            updates.last(),
            order,
            callbacks,
            order.len() as int,
        ),
{
    let n = order.len() as int;
    let m = updates.len() - 1;
    let before = rounds(updates.drop_last(), order, callbacks);
    let last = round(updates.last(), order, callbacks, n);
    let all = rounds(updates, order, callbacks);
    assert(m * n + n == (m + 1) * n) by (nonlinear_arith);
    assert(before.len() == m * n);
    assert forall|i: int| 0 <= i < all.len() implies all[i] == (before + last)[i] by {
        if i < m * n {
            assert(0 <= i / n < m) by (nonlinear_arith)
                requires
                    0 <= i < m * n,
                    0 <= n,
                    0 <= m,
            ;
        } else {
            vstd::arithmetic::div_mod::lemma_fundamental_div_mod_converse(i, n, m, i - m * n);
        }
    }
    assert(all =~= before + last);
}

/// Every listener receives every update that is dispatched while it is registered, once and in
/// order, and nobody else receives any of them.
pub proof fn law_every_listener_receives_every_update<T, F>(
    log: Seq<Delivery<T, F>>,
    updates: Seq<T>,
    order: Seq<u64>,
    callbacks: Map<u64, F>,
    key: u64,
)
    requires
        is_order_of(order, callbacks),
    ensures
        received(log + rounds(updates, order, callbacks), key) == received(log, key) + (
        if callbacks.contains_key(key) {
            updates
        } else {
            Seq::empty()
        }),
    decreases updates.len(),
{
    lemma_received_concat(log, rounds(updates, order, callbacks), key);
    let n = order.len() as int;
    assert(order.take(n) =~= order);
    assert(order.to_set().contains(key) <==> order.contains(key));
    if updates.len() == 0 {
        assert(rounds(updates, order, callbacks) =~= Seq::empty());
        assert(updates =~= Seq::empty());
    } else {
        let before = rounds(updates.drop_last(), order, callbacks);
        let last = round(updates.last(), order, callbacks, n);
        law_every_listener_receives_every_update(
            Seq::empty(),
            updates.drop_last(),
            order,
            callbacks,
            key,
        );
        assert(Seq::empty() + before =~= before);
        lemma_rounds_push(updates, order, callbacks);
        lemma_received_concat(before, last, key);
        lemma_received_round(updates.last(), order, callbacks, n, key);
        assert(updates =~= updates.drop_last().push(updates.last()));
        assert(received(rounds(updates, order, callbacks), key) =~= if callbacks.contains_key(key) {
            updates
        } else {
            Seq::empty()
        });
    }
}

/// Ending a subscription undoes starting it: the listeners are those from before.
pub proof fn law_unsubscribe_undoes_subscribe<T, F: FnMut(&T)>(
    before: SubscriptionMap<T, F>,
    callback: F,
)
    requires
        before.wf(),
    ensures
        before.callbacks().insert(before.next_key(), callback).contains_key(before.next_key()),
        before.callbacks().insert(before.next_key(), callback).remove(before.next_key())
            == before.callbacks(),
{
    assert(!before.callbacks().contains_key(before.next_key()));
    assert(before.callbacks().insert(before.next_key(), callback).remove(before.next_key())
        =~= before.callbacks());
}

/// A subscription that has ended stays ended: whoever is registered later gets another key.
pub proof fn law_ended_subscription_stays_ended<T, F: FnMut(&T)>(
    ended: SubscriptionMap<T, F>,
    key: u64,
    callback: F,
)
    requires
        ended.wf(),
        key < ended.next_key(),
        !ended.callbacks().contains_key(key),
    ensures
        !ended.callbacks().insert(ended.next_key(), callback).contains_key(key),
{
}

/// What a map says that a callback has heard is what the listener itself has heard, and its
/// callback is the one that the listener calls.
proof fn law_map_tells_what_its_listeners_heard<T, F: FnMut(&T)>(
    map: SubscriptionMap<T, F>,
    key: u64,
)
    ensures
        map.callbacks().contains_key(key) <==> map.map@.contains_key(key),
        map.map@.contains_key(key) ==> map.heard(key) == map.map@[key].heard(),
        map.map@.contains_key(key) ==> map.callbacks()[key] == map.map@[key].callback(),
{
}

/// A callback is called exactly as often as the log says, with the same updates and in the same
/// order: the calls that were made are the entries of the log under its key.
pub proof fn law_log_counts_every_call<T, F: FnMut(&T)>(map: SubscriptionMap<T, F>, key: u64)
    requires
        map.wf(),
        map.callbacks().contains_key(key),
    ensures
        map.heard(key) == map.log().filter(|call: Delivery<T, F>| call.key == key).map_values(
            |call: Delivery<T, F>| call.update,
        ),
{
    lemma_received_filter(map.log(), key);
}

/// What a listener received is what the entries under its key hold.
proof fn lemma_received_filter<T, F>(log: Seq<Delivery<T, F>>, key: u64)
    ensures
        received(log, key) == log.filter(|call: Delivery<T, F>| call.key == key).map_values(
            |call: Delivery<T, F>| call.update,
        ),
    decreases log.len(),
{
    reveal(Seq::filter);
    let under = |call: Delivery<T, F>| call.key == key;
    let update = |call: Delivery<T, F>| call.update;
    if log.len() > 0 {
        lemma_received_filter(log.drop_last(), key);
        let before = log.drop_last().filter(under);
        if log.last().key == key {
            assert(before.push(log.last()).map_values(update) =~= before.map_values(update).push(
                log.last().update,
            ));
        }
    } else {
        assert(log.filter(under).map_values(update) =~= Seq::<T>::empty());
    }
}

/// Every registered callback is called once for each update that is dispatched, oldest first, and
/// not once more: what it has heard grows by the updates, neither fewer nor more.
pub proof fn law_callback_is_called_once_for_each_update<T, F: FnMut(&T)>(
    before: SubscriptionMap<T, F>,
    after: SubscriptionMap<T, F>,
    updates: Seq<T>,
    order: Seq<u64>,
    key: u64,
)
    requires
        before.wf(),
        after.wf(),
        is_order_of(order, before.callbacks()),
        after.callbacks() == before.callbacks(),
        after.log() == before.log() + rounds(updates, order, before.callbacks()),
        before.callbacks().contains_key(key),
    ensures
        after.heard(key) == before.heard(key) + updates,
        after.heard(key).len() == before.heard(key).len() + updates.len(),
{
    law_every_listener_receives_every_update(
        before.log(),
        updates,
        order,
        before.callbacks(),
        key,
    );
}

/// Nobody is told an update before everybody has been told the one before it: call `l` of round
/// `u` stands at its place in the log, and there is nothing else in it.
pub proof fn law_rounds_follow_each_other<T, F>(
    updates: Seq<T>,
    order: Seq<u64>,
    callbacks: Map<u64, F>,
    u: int,
    l: int,
)
    requires
        0 <= u < updates.len(),
        0 <= l < order.len(),
    ensures
        rounds(updates, order, callbacks).len() == updates.len() * order.len(),
        0 <= u * order.len() + l < updates.len() * order.len(),
        rounds(updates, order, callbacks)[u * order.len() + l].key == order[l],
        rounds(updates, order, callbacks)[u * order.len() + l].callback == callbacks[order[l]],
        rounds(updates, order, callbacks)[u * order.len() + l].update == updates[u],
{
    let n = order.len() as int;
    let m = updates.len() as int;
    assert(0 <= u * n && u * n + n <= m * n) by (nonlinear_arith)
        requires
            0 <= u < m,
            0 <= n,
    ;
    vstd::arithmetic::div_mod::lemma_fundamental_div_mod_converse(u * n + l, n, u, l);
}

/// An order of the listeners has every registered key once and no other.
pub proof fn law_order_has_every_key_once<F>(order: Seq<u64>, callbacks: Map<u64, F>)
    ensures
        is_order_of(order, callbacks) <==> {
            &&& forall|k: u64| order.contains(k) <==> #[trigger] callbacks.contains_key(k)
            &&& forall|i: int, j: int|
                0 <= i < j < order.len() ==> #[trigger] order[i] != #[trigger] order[j]
        },
{
    if is_order_of(order, callbacks) {
        assert forall|k: u64| order.contains(k) <==> #[trigger] callbacks.contains_key(k) by {
            assert(order.to_set().contains(k) <==> callbacks.dom().contains(k));
        }
    }
    if (forall|k: u64| order.contains(k) <==> #[trigger] callbacks.contains_key(k)) {
        assert forall|k: u64| order.to_set().contains(k) <==> callbacks.dom().contains(k) by {
            assert(order.contains(k) <==> callbacks.contains_key(k));
        }
        assert(order.to_set() =~= callbacks.dom());
    }
}

/// A callback that can be called with every update can be registered.
pub proof fn law_total_callbacks_are_accepted<T, F: FnMut(&T)>(callback: F)
    requires
        forall|update: T| #[trigger] call_requires(callback, (&update,)),
    ensures
        accepts_updates::<T, F>(callback),
{
}

} // verus!
