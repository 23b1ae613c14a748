use vstd::prelude::*;

verus! {

/// Assumed footprint of one decoded thumbnail (about 300 x 300 RGBA pixels).
pub const AVG_THUMBNAIL_BYTES: u64 = 360 * 1024;

/// Fewest thumbnails the preload cache is sized for.
pub const MIN_PRELOAD_ITEMS: usize = 50;

/// Most thumbnails the preload cache is sized for.
pub const MAX_PRELOAD_ITEMS: usize = 2000;

/// Fewest and most background decode workers.
pub const MIN_WORKERS: usize = 2;

pub const MAX_WORKERS: usize = 6;

/// Worker count used when the parallelism of the machine is unknown.
pub const DEFAULT_WORKERS: usize = 4;

pub open spec fn clamp(x: int, lo: int, hi: int) -> int {
    if x < lo {
        lo
    } else if x > hi {
        hi
    } else {
        x
    }
}

/// Preload-cache capacity for `available` bytes of free memory: a tenth of
/// it, counted in average thumbnails, kept within the sane range.
pub open spec fn preload_capacity_for(available: nat) -> int {
    clamp(
        (available / 10) as int / AVG_THUMBNAIL_BYTES as int,
        MIN_PRELOAD_ITEMS as int,
        MAX_PRELOAD_ITEMS as int,
    )
}

/// Cache capacities for the given amount of available memory:
/// `(preload_capacity, render_capacity)`, the second half the first.
pub fn cache_sizes_for_memory(available: u64) -> (r: (usize, usize))
    ensures
        r.0 as int == preload_capacity_for(available as nat),
        r.1 == r.0 / 2,
        MIN_PRELOAD_ITEMS <= r.0 <= MAX_PRELOAD_ITEMS,
{
    let budget = available / 10;
    let estimated = budget / AVG_THUMBNAIL_BYTES;
    let preload: usize = if estimated < MIN_PRELOAD_ITEMS as u64 {
        MIN_PRELOAD_ITEMS
    } else if estimated > MAX_PRELOAD_ITEMS as u64 {
        MAX_PRELOAD_ITEMS
    } else {
        estimated as usize
    };
    (preload, preload / 2)
}

/// Relies on sysinfo's `System::new`, `System::refresh_memory` and
/// `System::available_memory`: the bytes of memory the system reports as
/// available right now (0 where it cannot tell).
#[verifier::external_body]
fn available_memory_bytes() -> u64 {
    let mut system = sysinfo::System::new();
    system.refresh_memory();
    system.available_memory()
}

/// Queries the system's available memory once and derives the cache
/// capacities from it. A failed query reads as no memory, which gives the
/// smallest capacities rather than an error.
pub fn calculate_cache_sizes() -> (r: (usize, usize))
    ensures
        MIN_PRELOAD_ITEMS <= r.0 <= MAX_PRELOAD_ITEMS,
        r.1 == r.0 / 2,
        exists|available: u64| r.0 as int == preload_capacity_for(available as nat),
{
    let available = available_memory_bytes();
    cache_sizes_for_memory(available)
}

/// Number of preload workers for a machine reporting `parallelism` hardware
/// threads (`None` when unknown).
pub fn worker_count(parallelism: Option<usize>) -> (r: usize)
    ensures
        r as int == match parallelism {
            Some(n) => clamp(n as int, MIN_WORKERS as int, MAX_WORKERS as int),
            None => DEFAULT_WORKERS as int,
        },
        MIN_WORKERS <= r <= MAX_WORKERS,
{
    match parallelism {
        Some(n) => {
            if n < MIN_WORKERS {
                MIN_WORKERS
            } else if n > MAX_WORKERS {
                MAX_WORKERS
            } else {
                n
            }
        },
        None => DEFAULT_WORKERS,
    }
}

} // verus!
