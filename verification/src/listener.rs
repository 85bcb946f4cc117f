//! A listener, and what it has heard.
//!
//! The callback of a listener is out of reach everywhere but here, and here it is only known to be
//! something that can be called once. So it is called exactly as often as the listener is handed
//! an update, whatever the rest of the library does.
use vstd::prelude::*;

verus! {

/// A callback for updates of type `T`, and the updates that it was called with.
pub struct Listener<T, F> {
    callback: F,
    heard: Ghost<Seq<T>>,
}

impl<T, F> Listener<T, F> {
    /// The callback.
    pub closed spec fn callback(self) -> F {
        self.callback
    }

    /// The updates that the callback was called with, oldest first: one for each call.
    pub closed spec fn heard(self) -> Seq<T> {
        self.heard@
    }

    /// A listener that has heard nothing.
    pub fn new(callback: F) -> (r: Self)
        ensures
            r.callback() == callback,
            r.heard() == Seq::<T>::empty(),
    {
        Listener { callback, heard: Ghost(Seq::empty()) }
    }

    /// Calls the callback with `update`.
    ///
    /// What the callback can be called as is a reference that lives as long as the borrow of the
    /// listener. There is only one, and the call uses it up.
    pub fn hear<'a>(&'a mut self, update: &T) where &'a mut F: FnOnce(&T)
        requires
            forall|call: &'a mut F|
                *call == old(self).callback() ==> #[trigger] call_requires(call, (update,)),
        ensures
            final(self).heard() == old(self).heard().push(*update),
            exists|call: &'a mut F|
                *call == old(self).callback() && *final(call) == final(self).callback()
                    && #[trigger] call_ensures(call, (update,), ()),
    {
        proof {
            self.heard@ = self.heard@.push(*update);
        }
        let call: &'a mut F = &mut self.callback;
        call_with(call, update);
    }
}

/// Calls `call` with `update`. It can be called once.
fn call_with<T, G: FnOnce(&T)>(call: G, update: &T)
    requires
        call_requires(call, (update,)),
    ensures
        call_ensures(call, (update,), ()),
{
    call(update)
}

} // verus!
