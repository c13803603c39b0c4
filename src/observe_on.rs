use vstd::prelude::*;
use crate::observer::Observer;
use crate::scheduler::{CurrentThread, Scheduler};
use crate::subscribable::RawSubscribable;
use crate::subscriber::{Notification, Signal, Subscriber, is_terminal, observed, signal_of};
use crate::subscription::{LocalSubscription, SharedSubscription, SubscriptionLike};

verus! {

/// A stream stage that hands each notification of `upstream` to `scheduler`,
/// whose chosen thread delivers it downstream.
pub struct ObserveOn<Up, Sch> {
    upstream: Up,
    scheduler: Sch,
}

impl<Up, Sch> ObserveOn<Up, Sch> {
    pub closed spec fn upstream(&self) -> Up {
        self.upstream
    }

    pub closed spec fn scheduler(&self) -> Sch {
        self.scheduler
    }

    pub fn new(upstream: Up, scheduler: Sch) -> (r: Self)
        ensures
            r.upstream() == upstream,
            r.scheduler() == scheduler,
    {
        ObserveOn { upstream, scheduler }
    }
}

/// The observer that `ObserveOn` gives its upstream. It holds the downstream
/// subscriber and lends it to each scheduled delivery.
pub struct ObserveOnObserver<O, S, Sch> {
    downstream: Option<Subscriber<O, S>>,
    scheduler: Sch,
}

impl<O, S: SubscriptionLike, Sch> ObserveOnObserver<O, S, Sch> {
    pub closed spec fn downstream(&self) -> Option<Subscriber<O, S>> {
        self.downstream
    }

    pub closed spec fn scheduler(&self) -> Sch {
        self.scheduler
    }

    pub fn new(downstream: Subscriber<O, S>, scheduler: Sch) -> (r: Self)
        ensures
            r.downstream() == Some(downstream),
            r.scheduler() == scheduler,
    {
        ObserveOnObserver { downstream: Some(downstream), scheduler }
    }
}

/// What a scheduled delivery of `n` leaves downstream: the notification was
/// delivered (it reached the observer, and a terminal one closed the
/// subscription), or it was dropped and nothing changed. It is dropped if the
/// subscription was known closed, and delivered if it could not be closed.
pub open spec fn delivered_or_dropped<O: Observer<Item, Error>, S: SubscriptionLike, Item, Error>(
    before: Subscriber<O, S>,
    after: Subscriber<O, S>,
    n: Notification<Item, Error>,
) -> bool {
    let delivered = after.history() == before.history().push(signal_of(n)) && observed(
        before.observer(),
        after.observer(),
        n,
    ) && if is_terminal(signal_of(n)) {
        after.subscription().closed()
    } else {
        after.subscription() == before.subscription()
    };
    let dropped = after.history() == before.history() && after.observer() == before.observer()
        && after.subscription() == before.subscription();
    &&& delivered || dropped
    &&& before.subscription().closed() ==> dropped
    &&& !before.subscription().may_be_closed() ==> delivered
}

/// The unit of work that a scheduler runs: one notification delivered to the
/// subscriber, which is handed back with whether it was delivered.
pub fn deliver_task<O: Observer<Item, Error>, S: SubscriptionLike, Item, Error>(
    state: Option<(Subscriber<O, S>, Notification<Item, Error>)>,
) -> (r: (Subscriber<O, S>, bool))
    requires
        state is Some,
        state.unwrap().0.wf(),
        state.unwrap().0.observer().ready(),
    ensures
        r.0.wf(),
        r.0.observer().ready(),
        r.1 ==> r.0.history() == state.unwrap().0.history().push(signal_of(state.unwrap().1)),
        delivered_or_dropped(state.unwrap().0, r.0, state.unwrap().1),
{
    let (subscriber, n) = state.unwrap();
    let mut subscriber = subscriber;
    let delivered = subscriber.deliver(n);
    (subscriber, delivered)
}

impl<O, S, Sch> ObserveOnObserver<O, S, Sch> where
    O: Send + Sync + 'static,
    S: SubscriptionLike + Send + Sync + 'static,
    Sch: Scheduler,
 {
    /// Hands `n` to the scheduler for delivery downstream and waits for it.
    fn dispatch<Item, Error>(&mut self, n: Notification<Item, Error>) where
        O: Observer<Item, Error>,
        Item: Send + Sync + 'static,
        Error: Send + Sync + 'static,

        requires
            old(self).downstream() is Some,
            old(self).downstream().unwrap().wf(),
            old(self).downstream().unwrap().observer().ready(),
        ensures
            final(self).downstream() is Some,
            final(self).downstream().unwrap().wf(),
            final(self).downstream().unwrap().observer().ready(),
            delivered_or_dropped(old(self).downstream().unwrap(), final(self).downstream().unwrap(), n),
            final(self).scheduler() == old(self).scheduler(),
    {
        let downstream = self.downstream.take().unwrap();
        let (downstream, _delivered) = self.scheduler.schedule(
            deliver_task::<O, S, Item, Error>,
            Some((downstream, n)),
        );
        self.downstream = Some(downstream);
    }
}

impl<O, S, Sch, Item, Error> Observer<Item, Error> for ObserveOnObserver<O, S, Sch> where
    O: Observer<Item, Error> + Send + Sync + 'static,
    S: SubscriptionLike + Send + Sync + 'static,
    Sch: Scheduler,
    Item: Send + Sync + 'static,
    Error: Send + Sync + 'static,
 {
    open spec fn ready(&self) -> bool {
        &&& self.downstream() is Some
        &&& self.downstream().unwrap().wf()
        &&& self.downstream().unwrap().observer().ready()
    }

    open spec fn on_next(self, after: Self, value: Item) -> bool {
        &&& delivered_or_dropped(
            self.downstream().unwrap(),
            after.downstream().unwrap(),
            Notification::<Item, Error>::Next(value),
        )
        &&& after.scheduler() == self.scheduler()
    }

    open spec fn on_error(self, after: Self, err: Error) -> bool {
        &&& delivered_or_dropped(
            self.downstream().unwrap(),
            after.downstream().unwrap(),
            Notification::<Item, Error>::Error(err),
        )
        &&& after.scheduler() == self.scheduler()
    }

    open spec fn on_complete(self, after: Self) -> bool {
        &&& delivered_or_dropped(
            self.downstream().unwrap(),
            after.downstream().unwrap(),
            Notification::<Item, Error>::Complete,
        )
        &&& after.scheduler() == self.scheduler()
    }

    fn next(&mut self, value: Item) {
        self.dispatch(Notification::<Item, Error>::Next(value));
    }

    fn error(&mut self, err: Error) {
        self.dispatch(Notification::<Item, Error>::Error(err));
    }

    fn complete(&mut self) {
        self.dispatch(Notification::<Item, Error>::Complete);
    }
}

impl<Up, Sch, O> RawSubscribable<Subscriber<O, SharedSubscription>> for ObserveOn<Up, Sch> where
    Up: RawSubscribable<Subscriber<ObserveOnObserver<O, SharedSubscription, Sch>, SharedSubscription>>,
 {
    type Unsub = Up::Unsub;

    /// The upstream was subscribed with a fresh subscriber whose observer
    /// holds `subscriber` and this stage's scheduler, and whose subscription
    /// is a handle on `subscriber`'s; `unsub` is what the upstream gave back.
    open spec fn subscribed(
        self,
        subscriber: Subscriber<O, SharedSubscription>,
        unsub: Up::Unsub,
    ) -> bool {
        exists|up: Subscriber<ObserveOnObserver<O, SharedSubscription, Sch>, SharedSubscription>|
            {
                &&& up.wf()
                &&& up.history() == Seq::<Signal>::empty()
                &&& !up.subscription().closed()
                &&& up.observer().downstream() == Some(subscriber)
                &&& up.observer().scheduler() == self.scheduler()
                &&& #[trigger] self.upstream().subscribed(up, unsub)
            }
    }

    /// Subscribes upstream with an observer that reschedules each
    /// notification; both subscribers share one subscription, so cancelling
    /// downstream stops the upstream too.
    fn raw_subscribe(self, subscriber: Subscriber<O, SharedSubscription>) -> (r: Up::Unsub) {
        let handle = subscriber.subscription_handle();
        let observer = ObserveOnObserver::new(subscriber, self.scheduler);
        let up = Subscriber::new(observer, handle);
        let ghost up_spec = up;
        let r = self.upstream.raw_subscribe(up);
        assert(self.upstream().subscribed(up_spec, r));
        r
    }
}

impl<Up, O> RawSubscribable<Subscriber<O, LocalSubscription>> for ObserveOn<Up, CurrentThread> where
    Up: RawSubscribable<Subscriber<ObserveOnObserver<O, LocalSubscription, CurrentThread>, LocalSubscription>>,
 {
    type Unsub = Up::Unsub;

    /// The upstream was subscribed with a fresh open subscriber whose
    /// observer holds `subscriber`; `unsub` is what the upstream gave back.
    open spec fn subscribed(self, subscriber: Subscriber<O, LocalSubscription>, unsub: Up::Unsub) -> bool {
        exists|up: Subscriber<ObserveOnObserver<O, LocalSubscription, CurrentThread>, LocalSubscription>|
            {
                &&& up.wf()
                &&& up.history() == Seq::<Signal>::empty()
                &&& !up.subscription().closed()
                &&& up.observer().downstream() == Some(subscriber)
                &&& #[trigger] self.upstream().subscribed(up, unsub)
            }
    }

    /// On the calling thread a single-thread subscriber may stay as it is.
    /// The upstream gets a subscription of its own; each delivery still
    /// checks the downstream one.
    fn raw_subscribe(self, subscriber: Subscriber<O, LocalSubscription>) -> (r: Up::Unsub) {
        let observer = ObserveOnObserver::new(subscriber, self.scheduler);
        let up = Subscriber::local(observer);
        let ghost up_spec = up;
        let r = self.upstream.raw_subscribe(up);
        assert(self.upstream().subscribed(up_spec, r));
        r
    }
}

} // verus!
