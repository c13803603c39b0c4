use vstd::prelude::*;
use crate::observer::Observer;
use crate::subscription::{IntoShared, LocalSubscription, SharedSubscription, SubscriptionLike};

verus! {

/// The kind of a notification that reached an observer.
pub enum Signal {
    Next,
    Error,
    Complete,
}

pub open spec fn is_terminal(s: Signal) -> bool {
    !(s is Next)
}

/// A notification as a value, so that it can be handed to a scheduled task.
pub enum Notification<Item, Error> {
    Next(Item),
    Error(Error),
    Complete,
}

pub open spec fn signal_of<Item, Error>(n: Notification<Item, Error>) -> Signal {
    match n {
        Notification::Next(_) => Signal::Next,
        Notification::Error(_) => Signal::Error,
        Notification::Complete => Signal::Complete,
    }
}

/// What handling `n` did to an observer that went from `before` to `after`.
pub open spec fn observed<O: Observer<Item, Error>, Item, Error>(
    before: O,
    after: O,
    n: Notification<Item, Error>,
) -> bool {
    match n {
        Notification::Next(v) => before.on_next(after, v),
        Notification::Error(e) => before.on_error(after, e),
        Notification::Complete => before.on_complete(after),
    }
}

/// The number of terminal signals in a sequence of delivered signals.
pub open spec fn terminal_count(h: Seq<Signal>) -> nat
    decreases h.len(),
{
    if h.len() == 0 {
        0
    } else {
        terminal_count(h.drop_last()) + if is_terminal(h.last()) {
            1nat
        } else {
            0nat
        }
    }
}

/// Binds an observer to a subscription: a notification is forwarded only while
/// the subscription is open, and a terminal one closes it.
pub struct Subscriber<O, S> {
    observer: O,
    subscription: S,
    delivered: Ghost<Seq<Signal>>,
}

impl<O, S: SubscriptionLike> Subscriber<O, S> {
    /// The notifications that reached the observer, in order.
    pub closed spec fn history(&self) -> Seq<Signal> {
        self.delivered@
    }

    pub closed spec fn observer(&self) -> O {
        self.observer
    }

    pub closed spec fn subscription(&self) -> S {
        self.subscription
    }

    /// Only the last delivered signal may be terminal, and once it is, the
    /// subscription is closed.
    pub open spec fn wf(&self) -> bool {
        &&& forall|i: int| 0 <= i < self.history().len() - 1 ==> #[trigger] self.history()[i] is Next
        &&& (self.history().len() > 0 && is_terminal(self.history().last()))
            ==> self.subscription().closed()
    }

    pub fn new(observer: O, subscription: S) -> (r: Self)
        ensures
            r.wf(),
            r.history() == Seq::<Signal>::empty(),
            r.observer() == observer,
            r.subscription() == subscription,
    {
        Subscriber { observer, subscription, delivered: Ghost(Seq::empty()) }
    }

    pub fn is_closed(&self) -> (r: bool)
        ensures
            self.subscription().closed() ==> r,
            r ==> self.subscription().may_be_closed(),
    {
        self.subscription.is_closed()
    }

    /// Cancels the relationship: nothing is forwarded afterwards.
    pub fn unsubscribe(&mut self)
        requires
            old(self).wf(),
        ensures
            final(self).wf(),
            final(self).subscription().closed(),
            final(self).history() == old(self).history(),
            final(self).observer() == old(self).observer(),
    {
        self.subscription.unsubscribe();
    }
}

impl<O> Subscriber<O, LocalSubscription> {
    /// A subscriber for a pipeline that stays on one thread.
    pub fn local(observer: O) -> (r: Self)
        ensures
            r.wf(),
            r.history() == Seq::<Signal>::empty(),
            r.observer() == observer,
            !r.subscription().closed(),
    {
        Subscriber::new(observer, LocalSubscription::new())
    }
}

impl<O> Subscriber<O, SharedSubscription> {
    /// A subscriber whose subscription may be cancelled from other threads.
    pub fn shared(observer: O) -> (r: Self)
        ensures
            r.wf(),
            r.history() == Seq::<Signal>::empty(),
            r.observer() == observer,
            !r.subscription().closed(),
    {
        Subscriber::new(observer, SharedSubscription::new())
    }

    /// Another handle on this subscriber's subscription.
    pub fn subscription_handle(&self) -> (r: SharedSubscription)
        ensures
            !r.closed(),
    {
        self.subscription.clone()
    }
}

impl<O: IntoShared> IntoShared for Subscriber<O, LocalSubscription> {
    type Shared = Subscriber<O::Shared, SharedSubscription>;

    /// Promotes the subscriber to the cross-thread form, keeping what it has
    /// delivered and whether it is closed.
    fn to_shared(self) -> (r: Subscriber<O::Shared, SharedSubscription>)
        ensures
            self.wf() ==> r.wf(),
            r.history() == self.history(),
            r.subscription().closed() == self.subscription().closed(),
    {
        let observer = self.observer.to_shared();
        let subscription = self.subscription.to_shared();
        Subscriber { observer, subscription, delivered: self.delivered }
    }
}

impl<O, S: SubscriptionLike> Subscriber<O, S> {
    /// Forwards `value` unless the subscription is found closed; returns
    /// whether it was forwarded.
    pub fn next<Item, Error>(&mut self, value: Item) -> (delivered: bool) where
        O: Observer<Item, Error>,

        requires
            old(self).wf(),
            old(self).observer().ready(),
        ensures
            final(self).wf(),
            final(self).observer().ready(),
            final(self).subscription() == old(self).subscription(),
            old(self).subscription().closed() ==> !delivered,
            !old(self).subscription().may_be_closed() ==> delivered,
            delivered ==> final(self).history() == old(self).history().push(Signal::Next),
            delivered ==> old(self).observer().on_next(final(self).observer(), value),
            !delivered ==> final(self).history() == old(self).history(),
            !delivered ==> final(self).observer() == old(self).observer(),
    {
        if self.subscription.is_closed() {
            false
        } else {
            self.observer.next(value);
            self.delivered = Ghost(self.delivered@.push(Signal::Next));
            true
        }
    }

    /// Forwards `err` unless the subscription is found closed, then closes it;
    /// returns whether it was forwarded.
    pub fn error<Item, Error>(&mut self, err: Error) -> (delivered: bool) where
        O: Observer<Item, Error>,

        requires
            old(self).wf(),
            old(self).observer().ready(),
        ensures
            final(self).wf(),
            final(self).observer().ready(),
            old(self).subscription().closed() ==> !delivered,
            !old(self).subscription().may_be_closed() ==> delivered,
            delivered ==> final(self).history() == old(self).history().push(Signal::Error),
            delivered ==> old(self).observer().on_error(final(self).observer(), err),
            delivered ==> final(self).subscription().closed(),
            !delivered ==> final(self).history() == old(self).history(),
            !delivered ==> final(self).observer() == old(self).observer(),
            !delivered ==> final(self).subscription() == old(self).subscription(),
    {
        if self.subscription.is_closed() {
            false
        } else {
            self.observer.error(err);
            self.subscription.unsubscribe();
            self.delivered = Ghost(self.delivered@.push(Signal::Error));
            true
        }
    }

    /// Forwards the completion unless the subscription is found closed, then
    /// closes it; returns whether it was forwarded.
    pub fn complete<Item, Error>(&mut self) -> (delivered: bool) where
        O: Observer<Item, Error>,

        requires
            old(self).wf(),
            old(self).observer().ready(),
        ensures
            final(self).wf(),
            final(self).observer().ready(),
            old(self).subscription().closed() ==> !delivered,
            !old(self).subscription().may_be_closed() ==> delivered,
            delivered ==> final(self).history() == old(self).history().push(Signal::Complete),
            delivered ==> old(self).observer().on_complete(final(self).observer()),
            delivered ==> final(self).subscription().closed(),
            !delivered ==> final(self).history() == old(self).history(),
            !delivered ==> final(self).observer() == old(self).observer(),
            !delivered ==> final(self).subscription() == old(self).subscription(),
    {
        if self.subscription.is_closed() {
            false
        } else {
            self.observer.complete();
            self.subscription.unsubscribe();
            self.delivered = Ghost(self.delivered@.push(Signal::Complete));
            true
        }
    }
}

impl<O, S: SubscriptionLike> Subscriber<O, S> {
    /// Forwards a notification given as a value; see `next`, `error` and
    /// `complete`.
    pub fn deliver<Item, Error>(&mut self, n: Notification<Item, Error>) -> (delivered: bool) where
        O: Observer<Item, Error>,

        requires
            old(self).wf(),
            old(self).observer().ready(),
        ensures
            final(self).wf(),
            final(self).observer().ready(),
            old(self).subscription().closed() ==> !delivered,
            !old(self).subscription().may_be_closed() ==> delivered,
            delivered ==> final(self).history() == old(self).history().push(signal_of(n)),
            delivered ==> observed(old(self).observer(), final(self).observer(), n),
            delivered && is_terminal(signal_of(n)) ==> final(self).subscription().closed(),
            delivered && !is_terminal(signal_of(n)) ==> final(self).subscription() == old(
                self,
            ).subscription(),
            !delivered ==> final(self).history() == old(self).history(),
            !delivered ==> final(self).observer() == old(self).observer(),
            !delivered ==> final(self).subscription() == old(self).subscription(),
    {
        match n {
            Notification::Next(v) => self.next::<Item, Error>(v),
            Notification::Error(e) => self.error::<Item, Error>(e),
            Notification::Complete => self.complete::<Item, Error>(),
        }
    }
}

proof fn lemma_no_terminal(h: Seq<Signal>)
    requires
        forall|i: int| 0 <= i < h.len() ==> #[trigger] h[i] is Next,
    ensures
        terminal_count(h) == 0,
    decreases h.len(),
{
    if h.len() > 0 {
        assert forall|i: int| 0 <= i < h.drop_last().len() implies #[trigger] h.drop_last()[i] is Next by {
            assert(h.drop_last()[i] == h[i]);
        }
        lemma_no_terminal(h.drop_last());
    }
}

/// A subscriber delivers at most one of `error` and `complete`, and nothing
/// after it: a terminal signal can only be the last one delivered, and the
/// subscription is then closed, so every later notification is dropped.
pub proof fn lemma_terminal_exclusive<O, S: SubscriptionLike>(s: Subscriber<O, S>)
    requires
        s.wf(),
    ensures
        terminal_count(s.history()) <= 1,
        forall|i: int|
            0 <= i < s.history().len() && is_terminal(#[trigger] s.history()[i]) ==> i == s.history().len()
                - 1,
        forall|i: int|
            0 <= i < s.history().len() && is_terminal(#[trigger] s.history()[i])
                ==> s.subscription().closed(),
{
    let h = s.history();
    if h.len() > 0 {
        assert forall|i: int| 0 <= i < h.drop_last().len() implies #[trigger] h.drop_last()[i] is Next by {
            assert(h.drop_last()[i] == h[i]);
        }
        lemma_no_terminal(h.drop_last());
    }
    assert forall|i: int| 0 <= i < h.len() && is_terminal(#[trigger] h[i]) implies i == h.len() - 1 by {
        if i < h.len() - 1 {
            assert(h[i] is Next);
        }
    }
}

} // verus!
