pub mod observe_on;
pub mod observer;
pub mod scheduler;
pub mod subscribable;
pub mod subscriber;
pub mod subscription;
