use vstd::prelude::*;
use crate::observer::SubscribeAll;
use crate::subscriber::{Signal, Subscriber};
use crate::subscription::{LocalSubscription, SubscriptionLike};

verus! {

/// A stream that accepts a subscriber and hands back a handle for the
/// relationship. `subscribed` says what each stream does with the
/// subscriber it is given and what handle comes back.
pub trait RawSubscribable<Sub>: Sized {
    type Unsub;

    spec fn subscribed(self, subscriber: Sub, unsub: Self::Unsub) -> bool;

    fn raw_subscribe(self, subscriber: Sub) -> (r: Self::Unsub)
        ensures
            self.subscribed(subscriber, r),
    ;
}

/// `sub` is a fresh single-thread subscriber over the three handlers: open,
/// nothing delivered yet.
pub open spec fn fresh_local<N, E, C>(
    sub: Subscriber<SubscribeAll<N, E, C>, LocalSubscription>,
    next: N,
    error: E,
    complete: C,
) -> bool {
    &&& sub.wf()
    &&& sub.history() == Seq::<Signal>::empty()
    &&& !sub.subscription().closed()
    &&& sub.observer().next_handler() == next
    &&& sub.observer().error_handler() == error
    &&& sub.observer().complete_handler() == complete
}

/// Subscribing with three handlers in place of an observer.
pub trait SubscribableAll<N, E, C>: Sized {
    /// The handle for the relationship.
    type Unsub;

    spec fn subscribed_all(self, next: N, error: E, complete: C, unsub: Self::Unsub) -> bool;

    /// Starts the stream, with `next` for each value, `error` for a terminal
    /// failure and `complete` for a terminal success.
    fn subscribe_all(self, next: N, error: E, complete: C) -> (r: Self::Unsub)
        ensures
            self.subscribed_all(next, error, complete, r),
    ;
}

impl<S, N, E, C> SubscribableAll<N, E, C> for S where
    S: RawSubscribable<Subscriber<SubscribeAll<N, E, C>, LocalSubscription>>,
 {
    type Unsub = S::Unsub;

    /// The stream was subscribed with a fresh single-thread subscriber over
    /// the three handlers, and `unsub` is the handle it gave back.
    open spec fn subscribed_all(self, next: N, error: E, complete: C, unsub: S::Unsub) -> bool {
        exists|sub: Subscriber<SubscribeAll<N, E, C>, LocalSubscription>|
            fresh_local(sub, next, error, complete) && #[trigger] self.subscribed(sub, unsub)
    }

    fn subscribe_all(self, next: N, error: E, complete: C) -> (r: S::Unsub) {
        let subscriber = Subscriber::local(SubscribeAll::new(next, error, complete));
        let ghost sub = subscriber;
        let r = self.raw_subscribe(subscriber);
        assert(fresh_local(sub, next, error, complete) && self.subscribed(sub, r));
        r
    }
}

} // verus!
