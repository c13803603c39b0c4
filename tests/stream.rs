use rxrust::observe_on::ObserveOn;
use rxrust::observer::{Observer, SubscribeAll};
use rxrust::scheduler::{sync_schedule, CurrentThread, Scheduler, Schedulers};
use rxrust::subscribable::{RawSubscribable, SubscribableAll};
use rxrust::subscriber::{Notification, Subscriber};
use rxrust::subscription::{IntoShared, LocalSubscription, SharedSubscription, SubscriptionLike};
use std::cell::{Cell, RefCell};
use std::rc::Rc;
use std::sync::{Arc, Mutex};

/// Emits `start..end`, then completes.
struct Range {
    start: u32,
    end: u32,
}

impl<O: Observer<u32, ()>, S: SubscriptionLike> RawSubscribable<Subscriber<O, S>> for Range {
    type Unsub = Subscriber<O, S>;

    // Stated for proofs only; this source is not verified.
    fn subscribed(self, _subscriber: Subscriber<O, S>, _unsub: Self::Unsub) -> bool {
        true
    }

    fn raw_subscribe(self, mut subscriber: Subscriber<O, S>) -> Self::Unsub {
        for v in self.start..self.end {
            subscriber.next::<u32, ()>(v);
        }
        subscriber.complete::<u32, ()>();
        subscriber
    }
}

fn expected_sum_of_sqrt() -> f64 {
    (0..1000u32).map(|v| (v as f64).sqrt()).sum()
}

#[test]
fn unsubscribe_is_idempotent() {
    let mut s = LocalSubscription::new();
    assert!(!s.is_closed());
    s.unsubscribe();
    assert!(s.is_closed());
    s.unsubscribe();
    s.unsubscribe();
    assert!(s.is_closed());
}

#[test]
fn shared_unsubscribe_is_seen_by_every_handle() {
    let mut a = SharedSubscription::new();
    let b = a.clone();
    assert!(!a.is_closed());
    assert!(!b.is_closed());
    a.unsubscribe();
    a.unsubscribe();
    assert!(a.is_closed());
    assert!(b.is_closed());
}

#[test]
fn promotion_keeps_closed_state() {
    let mut l = LocalSubscription::new();
    assert!(!l.is_closed());
    l.unsubscribe();
    let s = l.to_shared();
    assert!(s.is_closed());
    let open = LocalSubscription::new().to_shared();
    assert!(!open.is_closed());
}

fn counting_observer(
    nexts: Rc<Cell<u32>>,
    errors: Rc<Cell<u32>>,
    completes: Rc<Cell<u32>>,
) -> SubscribeAll<impl FnMut(u32), impl FnMut(()), impl FnMut()> {
    SubscribeAll::new(
        move |_v: u32| nexts.set(nexts.get() + 1),
        move |_e: ()| errors.set(errors.get() + 1),
        move || completes.set(completes.get() + 1),
    )
}

#[test]
fn terminal_notifications_are_exclusive() {
    let nexts = Rc::new(Cell::new(0));
    let errors = Rc::new(Cell::new(0));
    let completes = Rc::new(Cell::new(0));
    let mut sub = Subscriber::local(counting_observer(nexts.clone(), errors.clone(), completes.clone()));
    assert!(sub.next::<u32, ()>(1));
    assert!(sub.complete::<u32, ()>());
    assert!(sub.is_closed());
    assert!(!sub.error::<u32, ()>(()));
    assert!(!sub.complete::<u32, ()>());
    assert!(!sub.next::<u32, ()>(2));
    assert_eq!(nexts.get(), 1);
    assert_eq!(errors.get(), 0);
    assert_eq!(completes.get(), 1);
}

#[test]
fn error_closes_the_subscriber() {
    let nexts = Rc::new(Cell::new(0));
    let errors = Rc::new(Cell::new(0));
    let completes = Rc::new(Cell::new(0));
    let mut sub = Subscriber::local(counting_observer(nexts.clone(), errors.clone(), completes.clone()));
    assert!(sub.deliver(Notification::<u32, ()>::Error(())));
    assert!(!sub.deliver(Notification::<u32, ()>::Complete));
    assert!(!sub.deliver(Notification::<u32, ()>::Next(5)));
    assert_eq!((nexts.get(), errors.get(), completes.get()), (0, 1, 0));
}

#[test]
fn open_subscriber_delivers_every_notification() {
    let seen = Rc::new(RefCell::new(Vec::new()));
    let log = seen.clone();
    let mut sub = Subscriber::local(SubscribeAll::new(
        move |v: u32| log.borrow_mut().push(v),
        |_e: ()| {},
        || {},
    ));
    for v in 0..10u32 {
        assert!(sub.next::<u32, ()>(v));
    }
    assert_eq!(*seen.borrow(), (0..10u32).collect::<Vec<u32>>());
}

#[test]
fn unsubscribe_before_complete_suppresses_it() {
    let nexts = Rc::new(Cell::new(0));
    let errors = Rc::new(Cell::new(0));
    let completes = Rc::new(Cell::new(0));
    let mut sub = Subscriber::local(counting_observer(nexts.clone(), errors.clone(), completes.clone()));
    assert!(sub.next::<u32, ()>(7));
    sub.unsubscribe();
    assert!(!sub.next::<u32, ()>(8));
    assert!(!sub.complete::<u32, ()>());
    assert_eq!(completes.get(), 0);
    assert_eq!(nexts.get(), 1);
}

#[test]
fn cancelling_a_shared_handle_stops_delivery() {
    let completes = Arc::new(Mutex::new(0u32));
    let c = completes.clone();
    let mut sub = Subscriber::shared(SubscribeAll::new(|_v: u32| {}, |_e: ()| {}, move || *c.lock().unwrap() += 1));
    let mut handle = sub.subscription_handle();
    handle.unsubscribe();
    assert!(!sub.complete::<u32, ()>());
    assert_eq!(*completes.lock().unwrap(), 0);
}

#[test]
fn sum_of_sqrt_with_sync_subscribe_all() {
    let sum = Rc::new(RefCell::new(0.0f64));
    let acc = sum.clone();
    let done = Range { start: 0, end: 1000 }.subscribe_all(
        move |v: u32| *acc.borrow_mut() += (v as f64).sqrt(),
        |_e: ()| {},
        || {},
    );
    assert!(done.is_closed());
    assert!((*sum.borrow() - expected_sum_of_sqrt()).abs() < 1e-3);
}

#[test]
fn sum_of_sqrt_through_observe_on() {
    let sum = Arc::new(Mutex::new(0.0f64));
    let acc = sum.clone();
    let observer = SubscribeAll::new(
        move |v: u32| *acc.lock().unwrap() += (v as f64).sqrt(),
        |_e: ()| {},
        || {},
    )
    .to_shared();
    let stage = ObserveOn::new(Range { start: 0, end: 1000 }, CurrentThread);
    let upstream = stage.raw_subscribe(Subscriber::shared(observer));
    assert!(upstream.is_closed());
    assert!((*sum.lock().unwrap() - expected_sum_of_sqrt()).abs() < 1e-3);
}

#[test]
fn observe_on_stops_after_downstream_cancels() {
    let seen = Arc::new(Mutex::new(Vec::new()));
    let log = seen.clone();
    let mut sub = Subscriber::shared(SubscribeAll::new(
        move |v: u32| log.lock().unwrap().push(v),
        |_e: ()| {},
        || {},
    ));
    sub.unsubscribe();
    let stage = ObserveOn::new(Range { start: 0, end: 5 }, CurrentThread);
    stage.raw_subscribe(sub);
    assert!(seen.lock().unwrap().is_empty());
}

#[test]
fn same_reduction_on_every_inline_path() {
    let task = |s: Option<u32>| -> f64 { (0..s.unwrap()).map(|v| (v as f64).sqrt()).sum() };
    let direct = task(Some(1000));
    let inline = sync_schedule(task, Some(1000u32));
    let scheduled = CurrentThread.schedule(task, Some(1000u32));
    assert!((direct - expected_sum_of_sqrt()).abs() < 1e-3);
    assert_eq!(direct, inline);
    assert_eq!(direct, scheduled);
}

#[test]
fn sync_schedule_runs_before_returning() {
    let ran = Arc::new(Mutex::new(false));
    let flag = ran.clone();
    let r = sync_schedule(
        move |s: Option<u32>| {
            *flag.lock().unwrap() = true;
            s.unwrap_or(0) * 2
        },
        Some(21u32),
    );
    assert_eq!(r, 42);
    assert!(*ran.lock().unwrap());
    assert_eq!(sync_schedule(|s: Option<u32>| s.is_none(), None), true);
}

#[test]
fn only_sync_runs_on_the_caller() {
    assert!(Schedulers::Sync.runs_on_caller());
    assert!(!Schedulers::NewThread.runs_on_caller());
    assert!(!Schedulers::ThreadPool.runs_on_caller());
}

#[test]
fn promoted_subscriber_keeps_its_state() {
    let completes = Arc::new(Mutex::new(0u32));
    let c = completes.clone();
    let mut local = Subscriber::local(SubscribeAll::new(|_v: u32| {}, |_e: ()| {}, move || *c.lock().unwrap() += 1));
    assert!(local.next::<u32, ()>(1));
    let mut shared = local.to_shared();
    assert!(!shared.is_closed());
    assert!(shared.complete::<u32, ()>());
    assert!(shared.is_closed());
    assert!(!shared.complete::<u32, ()>());
    assert_eq!(*completes.lock().unwrap(), 1);
}

#[test]
fn subscribe_all_follows_observe_on_on_the_calling_thread() {
    let sum = Arc::new(Mutex::new(0.0f64));
    let completes = Arc::new(Mutex::new(0u32));
    let acc = sum.clone();
    let c = completes.clone();
    let stage = ObserveOn::new(Range { start: 0, end: 1000 }, CurrentThread);
    let upstream = stage.subscribe_all(
        move |v: u32| *acc.lock().unwrap() += (v as f64).sqrt(),
        |_e: ()| {},
        move || *c.lock().unwrap() += 1,
    );
    assert!(upstream.is_closed());
    assert_eq!(*completes.lock().unwrap(), 1);
    assert!((*sum.lock().unwrap() - expected_sum_of_sqrt()).abs() < 1e-3);
}

#[test]
fn subscribe_all_hands_every_value_once_in_order() {
    let seen = Rc::new(RefCell::new(Vec::new()));
    let log = seen.clone();
    let errors = Rc::new(Cell::new(0u32));
    let e = errors.clone();
    Range { start: 3, end: 8 }.subscribe_all(move |v: u32| log.borrow_mut().push(v), move |_e: ()| e.set(e.get() + 1), || {});
    assert_eq!(*seen.borrow(), vec![3, 4, 5, 6, 7]);
    assert_eq!(errors.get(), 0);
}
