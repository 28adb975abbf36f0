//! The metrics sink consumed by the engine: counters, timers and gauges on a
//! shared dipstick scope. The sink is fire-and-forget: nothing is promised of
//! these calls beyond that they return.

use vstd::prelude::*;
use std::sync::Arc;
use dipstick::AtomicBucket;
use dipstick::InputScope;
use dipstick::Timer;
use dipstick::TimeHandle;

verus! {

#[verifier::external_type_specification]
#[verifier::external_body]
pub struct ExAtomicBucket(AtomicBucket);

#[verifier::external_type_specification]
#[verifier::external_body]
pub struct ExTimer(Timer);

#[verifier::external_type_specification]
#[verifier::external_body]
pub struct ExTimeHandle(TimeHandle);

/// Relies on dipstick's `InputScope::counter` and `Counter::count`: one
/// increment of the named counter.
#[verifier::external_body]
pub fn count_one(metrics: &Arc<AtomicBucket>, name: &str) {
    metrics.counter(name).count(1);
}

/// Relies on dipstick's `InputScope::timer` and `Timer::start`: a started
/// interval sample of the named timer.
#[verifier::external_body]
pub fn start_timer(metrics: &Arc<AtomicBucket>, name: &str) -> (r: (Timer, TimeHandle)) {
    let timer = metrics.timer(name);
    let handle = timer.start();
    (timer, handle)
}

/// Relies on dipstick's `Timer::stop`: records the interval since the handle
/// was started as one sample.
#[verifier::external_body]
pub fn stop_timer(timer: &Timer, handle: TimeHandle) {
    timer.stop(handle);
}

/// Relies on dipstick's `InputScope::gauge` and `Gauge::value`: publishes the
/// value of the named gauge. The backend converts the value to `isize`, so
/// on a target narrower than 64 bits a value beyond that range would panic
/// there; the connection gauge stays far below either bound.
#[verifier::external_body]
pub fn gauge_value(metrics: &Arc<AtomicBucket>, name: &str, value: i64) {
    metrics.gauge(name).value(value);
}

} // verus!
