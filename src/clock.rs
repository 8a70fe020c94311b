//! The monotonic clock, as the plugin sees it.
use vstd::prelude::*;

verus! {

#[verifier::external_type_specification]
#[verifier::external_body]
pub struct ExInstant(std::time::Instant);

/// Relies on std::time::Instant::now: a reading of the monotonic clock.
#[verifier::external_body]
pub(crate) fn instant_now() -> (r: std::time::Instant) {
    std::time::Instant::now()
}

/// Relies on std::time::Instant::elapsed and Duration::as_secs: whole seconds
/// since `start`; the value depends on the time of the call.
#[verifier::external_body]
pub(crate) fn elapsed_secs(start: &std::time::Instant) -> (r: u64) {
    start.elapsed().as_secs()
}

/// Relies on chrono::Local::now and its "%c" format: the local date and time
/// as text; the value depends on the time of the call and the machine's zone.
#[verifier::external_body]
pub(crate) fn local_time_text() -> (r: String) {
    chrono::Local::now().format("%c").to_string()
}

} // verus!
