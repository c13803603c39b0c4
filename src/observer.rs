use vstd::prelude::*;
use crate::subscription::IntoShared;

verus! {

/// A consumer of a stream: one method per kind of notification.
///
/// `ready` says that every notification may be handed to the observer; each
/// method keeps it. `on_next`, `on_error` and `on_complete` relate the
/// observer before a notification to the observer after it: they say what
/// handling that notification did. The rule that nothing follows `error` or `complete` is
/// kept by the subscriber that wraps an observer, not by the observer.
pub trait Observer<Item, Error>: Sized {
    spec fn ready(&self) -> bool;

    spec fn on_next(self, after: Self, value: Item) -> bool;

    spec fn on_error(self, after: Self, err: Error) -> bool;

    spec fn on_complete(self, after: Self) -> bool;

    fn next(&mut self, value: Item)
        requires
            old(self).ready(),
        ensures
            final(self).ready(),
            (*old(self)).on_next(*final(self), value),
    ;

    fn error(&mut self, err: Error)
        requires
            old(self).ready(),
        ensures
            final(self).ready(),
            (*old(self)).on_error(*final(self), err),
    ;

    fn complete(&mut self)
        requires
            old(self).ready(),
        ensures
            final(self).ready(),
            (*old(self)).on_complete(*final(self)),
    ;
}

/// An observer assembled from three handlers, one per kind of notification.
#[derive(Clone)]
pub struct SubscribeAll<N, E, C> {
    next: N,
    error: E,
    complete: C,
}

impl<N, E, C> SubscribeAll<N, E, C> {
    pub closed spec fn next_handler(&self) -> N {
        self.next
    }

    pub closed spec fn error_handler(&self) -> E {
        self.error
    }

    pub closed spec fn complete_handler(&self) -> C {
        self.complete
    }

    /// Each of the three handlers is the one of `other`.
    pub open spec fn same_handlers(&self, other: Self) -> bool {
        &&& self.next_handler() == other.next_handler()
        &&& self.error_handler() == other.error_handler()
        &&& self.complete_handler() == other.complete_handler()
    }

    pub fn new(next: N, error: E, complete: C) -> (r: Self)
        ensures
            r.next_handler() == next,
            r.error_handler() == error,
            r.complete_handler() == complete,
    {
        SubscribeAll { next, error, complete }
    }
}

impl<N: Send + Sync + 'static, E: Send + Sync + 'static, C: Send + Sync + 'static> IntoShared for SubscribeAll<
    N,
    E,
    C,
> {
    type Shared = Self;

    /// The handlers already cross threads: the observer stays as it is.
    fn to_shared(self) -> (r: Self)
        ensures
            r == self,
    {
        self
    }
}

impl<Item, Error, N: FnMut(Item), E: FnMut(Error), C: FnMut()> Observer<Item, Error> for SubscribeAll<
    N,
    E,
    C,
> {
    open spec fn ready(&self) -> bool {
        &&& forall|v: Item| call_requires(self.next_handler(), (v,))
        &&& forall|e: Error| call_requires(self.error_handler(), (e,))
        &&& call_requires(self.complete_handler(), ())
    }

    /// The next handler ran on `value`; the handlers are kept.
    open spec fn on_next(self, after: Self, value: Item) -> bool {
        &&& call_ensures(self.next_handler(), (value,), ())
        &&& after.same_handlers(self)
    }

    /// The error handler ran on `err`; the handlers are kept.
    open spec fn on_error(self, after: Self, err: Error) -> bool {
        &&& call_ensures(self.error_handler(), (err,), ())
        &&& after.same_handlers(self)
    }

    /// The complete handler ran; the handlers are kept.
    open spec fn on_complete(self, after: Self) -> bool {
        &&& call_ensures(self.complete_handler(), (), ())
        &&& after.same_handlers(self)
    }

    fn next(&mut self, value: Item) {
        assert(call_requires(old(self).next_handler(), (value,)));
        (self.next)(value);
    }

    fn error(&mut self, err: Error) {
        assert(call_requires(old(self).error_handler(), (err,)));
        (self.error)(err);
    }

    fn complete(&mut self) {
        (self.complete)();
    }
}

} // verus!
