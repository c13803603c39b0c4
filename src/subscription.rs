use vstd::prelude::*;

verus! {

/// A cancelable handle on an active subscribe relationship.
///
/// `closed` is what this handle knows for certain: it becomes true when this
/// handle is unsubscribed and never goes back. `may_be_closed` is what a query
/// can report: a handle shared with other threads may find the relationship
/// cancelled by another holder at any moment.
pub trait SubscriptionLike: Sized {
    spec fn closed(&self) -> bool;

    spec fn may_be_closed(&self) -> bool;

    /// Cancels the relationship; calling it again changes nothing.
    fn unsubscribe(&mut self)
        ensures
            final(self).closed(),
            final(self).may_be_closed(),
    ;

    fn is_closed(&self) -> (r: bool)
        ensures
            self.closed() ==> r,
            r ==> self.may_be_closed(),
    ;
}

/// Turns a value of the single-thread form into its cross-thread form. The
/// promotion goes one way only.
pub trait IntoShared: Sized {
    type Shared;

    fn to_shared(self) -> Self::Shared;
}

/// A subscription confined to one thread: a plain flag, no synchronisation.
pub struct LocalSubscription {
    closed: bool,
}

/// The handle after one unsubscribe: closed, whatever it was before.
pub open spec fn unsubscribed(s: LocalSubscription) -> LocalSubscription {
    LocalSubscription::closed_handle()
}

/// The handle after `n` unsubscribe calls in a row.
pub open spec fn unsubscribed_n(s: LocalSubscription, n: nat) -> LocalSubscription
    decreases n,
{
    if n == 0 {
        s
    } else {
        unsubscribed(unsubscribed_n(s, (n - 1) as nat))
    }
}

impl LocalSubscription {
    pub closed spec fn closed_handle() -> LocalSubscription {
        LocalSubscription { closed: true }
    }

    pub closed spec fn flag(&self) -> bool {
        self.closed
    }

    pub proof fn lemma_closed_handle()
        ensures
            LocalSubscription::closed_handle().flag(),
    {
    }

    pub fn new() -> (r: LocalSubscription)
        ensures
            !r.flag(),
    {
        LocalSubscription { closed: false }
    }
}

/// Unsubscribing any number of times, at least once, leaves the handle as one
/// unsubscribe does, and that handle reports itself closed.
pub proof fn lemma_unsubscribe_idempotent(s: LocalSubscription, n: nat)
    requires
        n >= 1,
    ensures
        unsubscribed_n(s, n) == unsubscribed_n(s, 1),
        unsubscribed_n(s, n).flag(),
    decreases n,
{
    reveal_with_fuel(unsubscribed_n, 2);
    if n > 1 {
        lemma_unsubscribe_idempotent(s, (n - 1) as nat);
    }
    LocalSubscription::lemma_closed_handle();
}

impl IntoShared for LocalSubscription {
    type Shared = SharedSubscription;

    /// Promotes the handle to the thread-safe form, keeping its state.
    fn to_shared(self) -> (r: SharedSubscription)
        ensures
            r.closed() == self.flag(),
    {
        SharedSubscription::with_state(self.closed)
    }
}

impl SubscriptionLike for LocalSubscription {
    open spec fn closed(&self) -> bool {
        self.flag()
    }

    open spec fn may_be_closed(&self) -> bool {
        self.flag()
    }

    fn unsubscribe(&mut self)
        ensures
            *final(self) == unsubscribed(*old(self)),
    {
        self.closed = true;
    }

    fn is_closed(&self) -> (r: bool)
        ensures
            r == self.flag(),
    {
        self.closed
    }
}

/// A subscription that may cross threads: every clone of it shares one atomic
/// flag, so an unsubscribe through any clone is seen through all of them.
pub struct SharedSubscription {
    flag: std::sync::Arc<std::sync::atomic::AtomicBool>,
    known: bool,
}

impl SharedSubscription {
    pub fn new() -> (r: SharedSubscription)
        ensures
            !r.closed(),
    {
        SharedSubscription::with_state(false)
    }

    fn with_state(closed: bool) -> (r: SharedSubscription)
        ensures
            r.closed() == closed,
    {
        let flag = std::sync::Arc::new(std::sync::atomic::AtomicBool::new(closed));
        SharedSubscription { flag, known: closed }
    }
}

impl SubscriptionLike for SharedSubscription {
    closed spec fn closed(&self) -> bool {
        self.known
    }

    open spec fn may_be_closed(&self) -> bool {
        true
    }

    fn unsubscribe(&mut self) {
        self.flag.store(true, std::sync::atomic::Ordering::SeqCst);
        self.known = true;
    }

    fn is_closed(&self) -> (r: bool) {
        self.known || self.flag.load(std::sync::atomic::Ordering::SeqCst)
    }
}

impl Clone for SharedSubscription {
    /// Another handle on the same flag. What this handle knew is not copied:
    /// the new handle reads the shared flag.
    fn clone(&self) -> (r: Self)
        ensures
            !r.closed(),
    {
        SharedSubscription { flag: self.flag.clone(), known: false }
    }
}

} // verus!
