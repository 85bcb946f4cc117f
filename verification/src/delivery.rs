//! The delivery of updates to the listeners.
//!
//! A listener is called, and its call logged, in one place, [`SubscriptionMap::notify`]. What is
//! delivered, and in which order, is decided here, where neither the listeners nor the log can be
//! reached in any other way.
use crate::subscription::{
    is_order_of, law_every_listener_receives_every_update, rounds, SubscriptionMap,
};
use vstd::prelude::*;

verus! {

impl<T, F: FnMut(&T)> SubscriptionMap<T, F> {
    /// Delivers `updates` to every listener and empties it: for each update, oldest first, every
    /// listener is called once.
    ///
    /// The order of the listeners within a round is that of the map, which is not specified.
    pub fn dispatch(&mut self, updates: &mut Vec<T>)
        requires
            old(self).wf(),
        ensures
            final(self).wf(),
            final(updates)@ == Seq::<T>::empty(),
            final(self).callbacks() == old(self).callbacks(),
            final(self).next_key() == old(self).next_key(),
            exists|order: Seq<u64>| #[trigger]
                is_order_of(order, old(self).callbacks()) && final(self).log() == old(self).log()
                    + rounds(old(updates)@, order, old(self).callbacks()),
            forall|key: u64| #[trigger]
                old(self).callbacks().contains_key(key) ==> final(self).heard(key) == old(
                    self,
                ).heard(key) + old(updates)@,
    {
        let order: Vec<u64> = self.keys();
        let ghost callbacks = self.callbacks();
        let ghost all = rounds(updates@, order@, callbacks);
        let n: usize = order.len();
        let len: usize = updates.len();
        assert(all.take(0) =~= Seq::empty());
        assert(self.log() =~= old(self).log() + all.take(0));
        assert(0 * n == 0 && 0 <= len * n) by (nonlinear_arith);
        for i in 0..len
            invariant
                len == updates@.len(),
                n == order@.len(),
                updates@ == old(updates)@,
                is_order_of(order@, callbacks),
                callbacks == old(self).callbacks(),
                all == rounds(updates@, order@, callbacks),
                all.len() == len * n,
                self.wf(),
                self.callbacks() == callbacks,
                self.next_key() == old(self).next_key(),
                self.log() == old(self).log() + all.take(i * n),
                0 <= i * n <= len * n,
        {
            proof {
                lemma_round_bounds(i as int, len as int, n as int);
            }
            for j in 0..n
                invariant
                    0 <= i < len,
                    len == updates@.len(),
                    n == order@.len(),
                    updates@ == old(updates)@,
                    is_order_of(order@, callbacks),
                    callbacks == old(self).callbacks(),
                    all == rounds(updates@, order@, callbacks),
                    all.len() == len * n,
                    self.wf(),
                    self.callbacks() == callbacks,
                    self.next_key() == old(self).next_key(),
                    self.log() == old(self).log() + all.take(i * n + j),
                    0 <= i * n,
                    i * n + n <= len * n,
            {
                let key: u64 = order[j];
                assert(order@.to_set().contains(key));
                proof {
                    vstd::arithmetic::div_mod::lemma_fundamental_div_mod_converse(
                        i * n + j,
                        n as int,
                        i as int,
                        j as int,
                    );
                }
                self.notify(key, &updates[i]);
                assert(all.take(i * n + j + 1) =~= all.take(i * n + j).push(all[i * n + j]));
                assert(self.log() =~= old(self).log() + all.take(i * n + j + 1));
            }
            assert(i * n + n == (i + 1) * n) by (nonlinear_arith);
        }
        assert(all.take(len * n) =~= all);
        assert forall|key: u64| #[trigger] old(self).callbacks().contains_key(key) implies
            self.heard(key) == old(self).heard(key) + old(updates)@ by {
            assert(self.callbacks().contains_key(key));
            law_every_listener_receives_every_update(
                old(self).log(),
                old(updates)@,
                order@,
                callbacks,
                key,
            );
        }
        updates.clear();
    }
}

/// Round `i` of `len` rounds of `n` calls ends within all calls.
proof fn lemma_round_bounds(i: int, len: int, n: int)
    requires
        0 <= i < len,
        0 <= n,
    ensures
        0 <= i * n,
        i * n + n <= len * n,
{
    assert(0 <= i * n && i * n + n <= len * n) by (nonlinear_arith)
        requires
            0 <= i < len,
            0 <= n,
    ;
}

} // verus!
