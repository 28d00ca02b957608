use vstd::prelude::*;

verus! {

/// Seconds an HTTP attempt may take when no valid timeout is given.
pub const DEFAULT_TIMEOUT_SECS: u64 = 5;

/// Extra attempts after the first when no valid budget is given.
pub const DEFAULT_RETRIES: u32 = 0;

/// The number of workers to run: the one requested if it is positive, else
/// the host's parallelism if known and positive, else one.
pub fn worker_count(requested: Option<usize>, host: Option<usize>) -> (r: usize)
    ensures
        r > 0,
        requested is Some && requested->0 > 0 ==> r == requested->0,
        !(requested is Some && requested->0 > 0) && host is Some && host->0 > 0 ==> r == host->0,
        !(requested is Some && requested->0 > 0) && !(host is Some && host->0 > 0) ==> r == 1,
{
    match requested {
        Some(n) if n > 0 => n,
        _ => match host {
            Some(h) if h > 0 => h,
            _ => 1,
        },
    }
}

/// The per-attempt timeout in seconds: the one requested if it is positive,
/// else the default.
pub fn timeout_secs(requested: Option<u64>) -> (r: u64)
    ensures
        r > 0,
        requested is Some && requested->0 > 0 ==> r == requested->0,
        !(requested is Some && requested->0 > 0) ==> r == DEFAULT_TIMEOUT_SECS,
{
    match requested {
        Some(t) if t > 0 => t,
        _ => DEFAULT_TIMEOUT_SECS,
    }
}

} // verus!
