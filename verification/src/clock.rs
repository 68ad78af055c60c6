//! The one boundary to the machine's clock. A cell keeps the `Instant` at
//! which it was created and measures every later moment against it, so all
//! reasoning about freshness happens on plain second counts; nothing is
//! assumed about what the clock returns.

use vstd::prelude::*;

verus! {

/// Makes `std::time::Instant` known to the verifier; its values stay
/// opaque, carried through but never inspected.
#[verifier::external_type_specification]
#[verifier::external_body]
pub struct ExInstant(std::time::Instant);

/// Relies on `std::time::Instant::now`: an opaque reading of a monotonic
/// clock. Nothing is assumed about its value.
pub assume_specification[ std::time::Instant::now ]() -> std::time::Instant;

/// Relies on `Instant::clone`: `Instant` is a plain copyable value, so its
/// clone is the instant itself.
pub assume_specification[ <std::time::Instant as Clone>::clone ](
    this: &std::time::Instant,
) -> (r: std::time::Instant)
    ensures
        r == *this,
;

/// Relies on `std::time::Instant::duration_since`: the time elapsed from
/// `earlier` to `this`, or zero when `earlier` is the later of the two.
/// Nothing is assumed about its value.
pub assume_specification[ std::time::Instant::duration_since ](
    this: &std::time::Instant,
    earlier: std::time::Instant,
) -> std::time::Duration;

/// Relies on `std::time::Duration::as_secs`: the whole seconds of the
/// duration, fractions dropped. Nothing is assumed about its value.
pub assume_specification[ std::time::Duration::as_secs ](d: &std::time::Duration) -> u64;

} // verus!
