//! Broadcast fan-out: one item offered to every downstream channel.
use vstd::prelude::*;
use std::sync::mpsc::Receiver;
use std::sync::mpsc::Sender;
use std::sync::Arc;

verus! {

/// The sending end of a channel of the standard library.
#[verifier::external_type_specification]
#[verifier::external_body]
#[verifier::reject_recursive_types(T)]
pub struct ExSender<T>(Sender<T>);

/// The receiving end of a channel of the standard library.
#[verifier::external_type_specification]
#[verifier::external_body]
#[verifier::reject_recursive_types(T)]
pub struct ExReceiver<T>(Receiver<T>);

/// `std::sync::mpsc::channel`: a new channel without a bound on what it
/// holds, as its two ends.
#[verifier::external_body]
pub(crate) fn open_channel<T>() -> (ends: (Sender<T>, Receiver<T>)) {
    std::sync::mpsc::channel()
}

/// `Sender::send`: hands `item` to the channel. The answer is whether the
/// channel took it; it refuses once its receiving end is gone. Nothing is
/// known of the answer beforehand.
#[verifier::external_body]
pub(crate) fn send_item<T>(sender: &Sender<T>, item: T) -> (accepted: bool) {
    sender.send(item).is_ok()
}

/// `Sender::clone`: another sending end of the same channel.
#[verifier::external_body]
pub(crate) fn another_sender<T>(sender: &Sender<T>) -> (cloned: Sender<T>) {
    sender.clone()
}

/// The value that a shared item points to.
pub open spec fn shared_value<T>(item: Arc<T>) -> T {
    *item
}

/// What a loop found on its inbound channel: the next item, or that the
/// channel is closed and nothing will arrive any more.
pub enum Inbound<T> {
    Item(Arc<T>),
    Closed,
}

/// The sending end of one downstream channel, with the record of what has
/// been offered to it.
#[verifier::reject_recursive_types(T)]
pub struct Outlet<T> {
    sender: Sender<Arc<T>>,
    offered: Ghost<Seq<T>>,
}

impl<T> Outlet<T> {
    /// Every item offered to this channel so far, oldest first, whether the
    /// channel took it or not.
    pub closed spec fn offered(&self) -> Seq<T> {
        self.offered@
    }

    /// An outlet for `sender`, to which nothing has been offered yet.
    pub fn new(sender: Sender<Arc<T>>) -> (outlet: Outlet<T>)
        ensures
            outlet.offered() == Seq::<T>::empty(),
    {
        Outlet { sender, offered: Ghost(Seq::empty()) }
    }

    /// Offers `item` to the channel and tells whether the channel took it. A
    /// refusal is not an error: the item is dropped.
    pub fn offer(&mut self, item: Arc<T>) -> (accepted: bool)
        ensures
            final(self).offered() == old(self).offered().push(shared_value(item)),
    {
        let ghost log = self.offered@.push(shared_value(item));
        self.offered = Ghost(log);
        send_item(&self.sender, item)
    }
}

/// The downstream side of a stage: one outlet per consumer, each of which is
/// offered every item.
#[verifier::reject_recursive_types(T)]
pub struct FanOut<T> {
    outlets: Vec<Outlet<T>>,
}

impl<T> FanOut<T> {
    /// The number of downstream channels.
    pub closed spec fn width(&self) -> nat {
        self.outlets@.len()
    }

    /// Every item offered so far to channel `i`, oldest first.
    pub closed spec fn offered(&self, i: int) -> Seq<T> {
        self.outlets@[i].offered()
    }

    /// A fan-out without any channel.
    pub fn new() -> (fan_out: FanOut<T>)
        ensures
            fan_out.width() == 0,
    {
        FanOut { outlets: Vec::new() }
    }

    /// The number of downstream channels.
    pub fn len(&self) -> (n: usize)
        ensures
            n == self.width(),
    {
        self.outlets.len()
    }

    /// Adds `sender` as the last downstream channel. What was offered to the
    /// other channels stays as it is.
    pub fn attach(&mut self, sender: Sender<Arc<T>>)
        ensures
            final(self).width() == old(self).width() + 1,
            final(self).offered(old(self).width() as int) == Seq::<T>::empty(),
            forall|i: int|
                0 <= i < old(self).width() ==> #[trigger] final(self).offered(i) == old(
                    self,
                ).offered(i),
    {
        self.outlets.push(Outlet::new(sender));
    }

    /// Opens a private channel for one more consumer: its sending end becomes
    /// the last downstream channel, its receiving end is handed out.
    pub fn open(&mut self) -> (inbox: Receiver<Arc<T>>)
        ensures
            final(self).width() == old(self).width() + 1,
            final(self).offered(old(self).width() as int) == Seq::<T>::empty(),
            forall|i: int|
                0 <= i < old(self).width() ==> #[trigger] final(self).offered(i) == old(
                    self,
                ).offered(i),
    {
        let (sender, inbox) = open_channel::<Arc<T>>();
        self.attach(sender);
        inbox
    }

    /// Offers `item` to every downstream channel, in channel order. A channel
    /// that refuses the item does not keep it from the others.
    pub fn broadcast(&mut self, item: Arc<T>) -> (accepted: usize)
        ensures
            final(self).width() == old(self).width(),
            forall|i: int|
                0 <= i < old(self).width() ==> #[trigger] final(self).offered(i) == old(
                    self,
                ).offered(i).push(shared_value(item)),
            accepted <= old(self).width(),
    {
        let mut accepted: usize = 0;
        let mut i: usize = 0;
        while i < self.outlets.len()
            invariant
                i <= self.outlets.len(),
                accepted <= i,
                self.width() == old(self).width(),
                forall|j: int|
                    0 <= j < i ==> (#[trigger] self.outlets@[j]).offered() == old(
                        self,
                    ).outlets@[j].offered().push(shared_value(item)),
                forall|j: int|
                    i <= j < self.width() ==> (#[trigger] self.outlets@[j]).offered() == old(
                        self,
                    ).outlets@[j].offered(),
            decreases self.outlets.len() - i,
        {
            if self.outlets[i].offer(item.clone()) {
                accepted = accepted + 1;
            }
            i = i + 1;
        }
        accepted
    }

    /// Drops every sending end. A channel whose only sending end was held
    /// here is closed by this: its consumer finds what was sent before, and
    /// then the end.
    pub fn close(&mut self)
        ensures
            final(self).width() == 0,
    {
        self.outlets.clear();
    }

    /// One turn of a loop that relays an inbound channel to this fan-out. An
    /// item is broadcast, and the loop goes on. Closure is passed on: every
    /// sending end is dropped, and the loop is over.
    pub fn relay(&mut self, inbound: Inbound<T>) -> (go_on: bool)
        ensures
            go_on == (inbound is Item),
            inbound matches Inbound::Item(item) ==> {
                &&& final(self).width() == old(self).width()
                &&& forall|i: int|
                    0 <= i < old(self).width() ==> #[trigger] final(self).offered(i) == old(
                        self,
                    ).offered(i).push(shared_value(item))
            },
            inbound is Closed ==> final(self).width() == 0,
    {
        match inbound {
            Inbound::Item(item) => {
                let _ = self.broadcast(item);
                true
            },
            Inbound::Closed => {
                self.close();
                false
            },
        }
    }
}

} // verus!
