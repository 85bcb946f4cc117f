//! The ring buffer that carries updates from the audio thread to the update thread, and what is
//! believed of it.
//!
//! The two ends of a ring live on different threads, so each is described by its own history: what
//! the ring accepted from the one, and what was taken out through the other. Which ends belong
//! together is said by an identity that both have. These are values for contracts alone: no code
//! computes them, and the functions below, which make the calls, are believed to keep them.
//! Nothing but this module makes an end of a ring.
use vstd::prelude::*;

verus! {

/// The writing end of a ring, from the `rtrb` crate.
#[verifier::external_type_specification]
#[verifier::external_body]
#[verifier::reject_recursive_types(T)]
pub struct ExProducer<T>(rtrb::Producer<T>);

/// The reading end of a ring, from the `rtrb` crate.
#[verifier::external_type_specification]
#[verifier::external_body]
#[verifier::reject_recursive_types(T)]
pub struct ExConsumer<T>(rtrb::Consumer<T>);

/// Sends updates to the update thread.
#[verifier::reject_recursive_types(T)]
pub struct UpdateSender<T> {
    producer: rtrb::Producer<T>,
    ring: Ghost<int>,
    capacity: Ghost<nat>,
    accepted: Ghost<Seq<T>>,
    offered: Ghost<Seq<T>>,
    freed: Ghost<nat>,
}

/// Receives updates from the audio thread.
#[verifier::reject_recursive_types(T)]
pub struct UpdateReceiver<T> {
    consumer: rtrb::Consumer<T>,
    ring: Ghost<int>,
    capacity: Ghost<nat>,
    taken: Ghost<Seq<T>>,
    known: Ghost<Seq<T>>,
}

impl<T> UpdateSender<T> {
    /// The identity of the ring.
    pub closed spec fn ring(self) -> int {
        self.ring@
    }

    /// How many updates the ring holds at most.
    pub closed spec fn capacity(self) -> nat {
        self.capacity@
    }

    /// The updates that the ring accepted, oldest first.
    pub closed spec fn accepted(self) -> Seq<T> {
        self.accepted@
    }

    /// The updates that were handed to the ring, whether it accepted them or not.
    pub closed spec fn offered(self) -> Seq<T> {
        self.offered@
    }

    /// How many updates are known to have been taken out of the ring. More may have been taken in
    /// the meantime.
    pub closed spec fn freed(self) -> nat {
        self.freed@
    }
}

impl<T> UpdateReceiver<T> {
    /// The identity of the ring.
    pub closed spec fn ring(self) -> int {
        self.ring@
    }

    /// How many updates the ring holds at most.
    pub closed spec fn capacity(self) -> nat {
        self.capacity@
    }

    /// The updates that were taken out of the ring, oldest first.
    pub closed spec fn taken(self) -> Seq<T> {
        self.taken@
    }

    /// The updates that the ring is known to have accepted, oldest first. It may have accepted
    /// more in the meantime.
    pub closed spec fn known(self) -> Seq<T> {
        self.known@
    }
}

/// Whether `after` is the writing end `before` once `value` was offered to the ring. A ring that
/// is known to have room accepts the value.
pub open spec fn pushed<T>(
    before: UpdateSender<T>,
    after: UpdateSender<T>,
    value: T,
    accepted: bool,
) -> bool {
    &&& after.ring() == before.ring()
    &&& after.capacity() == before.capacity()
    &&& after.offered() == before.offered().push(value)
    &&& after.freed() == before.freed()
    &&& after.accepted() == if accepted {
        before.accepted().push(value)
    } else {
        before.accepted()
    }
    &&& before.accepted().len() - before.freed() < before.capacity() ==> accepted
}

/// Whether the ring has accepted everything that was offered to it.
pub open spec fn nothing_dropped<T>(sender: UpdateSender<T>) -> bool {
    sender.accepted() == sender.offered()
}

/// Whether `after` is the reading end `before`, read once more: at most one ring's load of updates
/// further on, and past everything that the ring was known to have accepted.
pub open spec fn advanced<T>(before: UpdateReceiver<T>, after: UpdateReceiver<T>) -> bool {
    &&& after.ring() == before.ring()
    &&& after.capacity() == before.capacity()
    &&& after.known() == before.known()
    &&& before.taken().is_prefix_of(after.taken())
    &&& before.known().is_prefix_of(after.taken())
    &&& after.taken().len() - before.taken().len() <= before.capacity()
}

/// The updates that were received between `before` and `after`.
pub open spec fn newly_taken<T>(before: UpdateReceiver<T>, after: UpdateReceiver<T>) -> Seq<T> {
    after.taken().skip(before.taken().len() as int)
}

/// How the two ends of one ring stand to each other: what was taken out is the beginning of what
/// was accepted, and what is left in the ring is no more than it can hold.
pub open spec fn linked<T>(sender: UpdateSender<T>, receiver: UpdateReceiver<T>) -> bool {
    &&& sender.ring() == receiver.ring()
    &&& sender.capacity() == receiver.capacity()
    &&& receiver.taken().is_prefix_of(sender.accepted())
    &&& sender.accepted().len() - receiver.taken().len() <= sender.capacity()
}

/// Whether `sender_after` and `receiver_after` are the two ends from before, once they were
/// compared: nothing was done to them, and if they are ends of one ring, each knows what has
/// happened at the other.
pub open spec fn compared<T>(
    sender: UpdateSender<T>,
    receiver: UpdateReceiver<T>,
    sender_after: UpdateSender<T>,
    receiver_after: UpdateReceiver<T>,
    same: bool,
) -> bool {
    &&& sender_after.ring() == sender.ring()
    &&& sender_after.capacity() == sender.capacity()
    &&& sender_after.accepted() == sender.accepted()
    &&& sender_after.offered() == sender.offered()
    &&& receiver_after.ring() == receiver.ring()
    &&& receiver_after.capacity() == receiver.capacity()
    &&& receiver_after.taken() == receiver.taken()
    &&& if same {
        &&& linked(sender, receiver)
        &&& sender.freed() <= receiver.taken().len()
        &&& receiver.known().is_prefix_of(sender.accepted())
        &&& sender_after.freed() == receiver.taken().len()
        &&& receiver_after.known() == sender.accepted()
    } else {
        &&& sender_after.freed() == sender.freed()
        &&& receiver_after.known() == receiver.known()
    }
}

/// What reading a ring for the last time comes to, with the writing end at hand if `returned` is
/// one of the same ring: everything that it accepted has been taken out then.
pub open spec fn drained<T>(
    before: UpdateReceiver<T>,
    returned: Option<UpdateSender<T>>,
    after: UpdateReceiver<T>,
) -> bool {
    &&& after.ring() == before.ring()
    &&& after.capacity() == before.capacity()
    &&& before.taken().is_prefix_of(after.taken())
    &&& before.known().is_prefix_of(after.taken())
    &&& after.taken().len() - before.taken().len() <= before.capacity()
    &&& returned matches Some(sender) ==> sender.ring() == before.ring() ==> after.taken()
        == sender.accepted()
}

/// Whether the memory for `capacity` updates can be asked for: its size has to fit in `isize`.
pub open spec fn ring_fits<T>(capacity: nat) -> bool {
    &&& capacity <= isize::MAX
    &&& capacity * vstd::layout::size_of::<T>() <= isize::MAX
}

/// `rtrb::RingBuffer::new`: the two ends of a new ring for `capacity` updates. Both have the
/// identity of the ring, and nothing has been accepted or taken yet.
#[verifier::external_body]
pub(crate) fn ring_new<T>(capacity: usize) -> (r: (UpdateSender<T>, UpdateReceiver<T>))
    requires
        ring_fits::<T>(capacity as nat),
    ensures
        r.0.ring() == r.1.ring(),
        r.0.capacity() == capacity,
        r.1.capacity() == capacity,
        r.0.accepted() == Seq::<T>::empty(),
        r.0.offered() == Seq::<T>::empty(),
        r.0.freed() == 0,
        r.1.taken() == Seq::<T>::empty(),
        r.1.known() == Seq::<T>::empty(),
{
    let (producer, consumer) = rtrb::RingBuffer::new(capacity);
    let ring: Ghost<int> = Ghost(arbitrary());
    let capacity: Ghost<nat> = Ghost(capacity as nat);
    let none: Ghost<Seq<T>> = Ghost(Seq::empty());
    (
        UpdateSender { producer, ring, capacity, accepted: none, offered: none, freed: Ghost(0) },
        UpdateReceiver { consumer, ring, capacity, taken: none, known: none },
    )
}

/// `rtrb::Producer::push`: the ring accepts `value`, or hands it back where it is full. A ring is
/// not full while it has accepted fewer updates than it can hold beyond those that are known to
/// have been taken out. Past that, whether there is room depends on how far the reading thread has
/// come, and nothing is said of it here; that no more is accepted than there is room for,
/// [`ring_same`] says.
#[verifier::external_body]
pub(crate) fn ring_push<T>(sender: &mut UpdateSender<T>, value: T) -> (r: Result<(), T>)
    ensures
        pushed(*old(sender), *final(sender), value, r is Ok),
        r matches Err(back) ==> back == value,
{
    match sender.producer.push(value) {
        Ok(()) => Ok(()),
        Err(rtrb::PushError::Full(back)) => Err(back),
    }
}

/// `rtrb::Consumer::read_chunk`, asked for all `rtrb::Consumer::slots`: takes the next updates out
/// of the ring, in the order in which they were accepted, and at most as many as it can hold. All
/// that the ring is known to have accepted has been taken out then. Whether it has accepted more
/// depends on how far the sending thread has come, and nothing is said of it.
#[verifier::external_body]
pub(crate) fn ring_read<T>(receiver: &mut UpdateReceiver<T>) -> (r: Vec<T>)
    ensures
        advanced(*old(receiver), *final(receiver)),
        final(receiver).taken() == old(receiver).taken() + r@,
{
    match receiver.consumer.read_chunk(receiver.consumer.slots()) {
        Ok(chunk) => chunk.into_iter().collect(),
        Err(_) => Vec::new(),
    }
}

/// `==` on `rtrb::Producer::buffer` and `rtrb::Consumer::buffer`: whether the two are ends of one
/// ring. If so, updates came out as they went in, and no more are left than the ring can hold.
/// Whoever has both ends at hand, has them with everything that was done to either, so each end
/// knows from now on what has happened at the other. What it knew before is still so.
#[verifier::external_body]
pub(crate) fn ring_same<T>(sender: &mut UpdateSender<T>, receiver: &mut UpdateReceiver<T>) -> (r:
    bool)
    ensures
        r == (old(sender).ring() == old(receiver).ring()),
        compared(*old(sender), *old(receiver), *final(sender), *final(receiver), r),
{
    sender.producer.buffer() == receiver.consumer.buffer()
}

/// A ring can be made whenever its memory can be asked for.
pub proof fn law_every_capacity_that_fits_is_allowed<T>(capacity: nat)
    requires
        capacity <= isize::MAX,
        capacity * vstd::layout::size_of::<T>() <= isize::MAX,
    ensures
        ring_fits::<T>(capacity),
{
}

/// A read takes updates out behind those that were taken before, leaves none of those that were
/// known behind, and takes no more than the ring can hold. What it took is what is new.
pub proof fn law_read_goes_on_where_the_last_one_ended<T>(
    before: UpdateReceiver<T>,
    after: UpdateReceiver<T>,
    i: int,
)
    requires
        advanced(before, after),
        0 <= i < newly_taken(before, after).len(),
    ensures
        after.taken().len() == before.taken().len() + newly_taken(before, after).len(),
        newly_taken(before, after).len() <= before.capacity(),
        newly_taken(before, after)[i] == after.taken()[before.taken().len() + i],
{
}

/// A read leaves nothing behind that was known to be there, and the last read of a ring does not
/// either. Both go on where the read before them ended, and take no more than the ring can hold.
/// With the writing end at hand, the last read takes all that the ring ever accepted.
pub proof fn law_read_leaves_nothing_known_behind<T>(
    before: UpdateReceiver<T>,
    after: UpdateReceiver<T>,
    returned: Option<UpdateSender<T>>,
)
    ensures
        advanced(before, after) || drained(before, returned, after) ==> {
            &&& before.known().is_prefix_of(after.taken())
            &&& before.taken().is_prefix_of(after.taken())
            &&& after.taken().len() - before.taken().len() <= before.capacity()
            &&& after.ring() == before.ring()
            &&& after.capacity() == before.capacity()
        },
        drained(before, returned, after) && returned is Some && returned->0.ring() == before.ring()
            ==> after.taken() == returned->0.accepted(),
{
}

} // verus!
