use vstd::prelude::*;

verus! {

/// Relies on `std::time::SystemTime`: the wall clock's distance from
/// the Unix epoch, in milliseconds; zero when the clock reads earlier
/// than the epoch. The value depends on the machine's clock, so
/// nothing more is promised of it.
#[verifier::external_body]
pub fn get_time_since_epoch() -> u64 {
    std::time::SystemTime::now().duration_since(std::time::UNIX_EPOCH).map(
        |d| d.as_millis() as u64,
    ).unwrap_or(0)
}

/// The hour bucket of a moment: its seconds since the epoch, truncated
/// down to a whole hour.
pub open spec fn spec_hour_bucket(now_ms: u64) -> u64 {
    (((now_ms / 1000) - (now_ms / 1000) % 3600)) as u64
}

pub fn hour_bucket(now_ms: u64) -> (r: u64)
    ensures
        r == spec_hour_bucket(now_ms),
        r % 3600 == 0,
{
    let secs = now_ms / 1000;
    let r = secs - secs % 3600;
    proof {
        assert(r % 3600 == 0) by (nonlinear_arith)
            requires
                r == secs - secs % 3600,
                secs >= 0,
        ;
    }
    r
}

/// The current hour bucket, from the wall clock.
pub fn get_hour_since_epoch() -> (r: u64)
    ensures
        r % 3600 == 0,
{
    hour_bucket(get_time_since_epoch())
}

} // verus!
