//! Which requests are traced quietly.

use crate::logger::Level;
use vstd::prelude::*;

verus! {

/// The paths of the service's own handlers, whose requests are traced at
/// debug level.
pub open spec fn hushed_paths() -> Seq<Seq<char>> {
    seq![
        "/_ready"@,
        "/_healthcheck"@,
        "/_stats"@,
        "/_prometheus"@,
        "/metrics"@,
        "/swagger"@,
    ]
}

/// Hands out [`hushed_paths`] one by one.
fn hushed_path(i: usize) -> (path: &'static str)
    requires
        i < 6,
    ensures
        path@ == hushed_paths()[i as int],
{
    if i == 0 {
        "/_ready"
    } else if i == 1 {
        "/_healthcheck"
    } else if i == 2 {
        "/_stats"
    } else if i == 3 {
        "/_prometheus"
    } else if i == 4 {
        "/metrics"
    } else {
        "/swagger"
    }
}

/// Builds the root span of a request.
pub struct TracingSpanBuilder;

impl TracingSpanBuilder {
    /// The level at which a request to `path` is traced: `Debug` for the
    /// service's own handlers, `Info` for everything else.
    pub fn request_level(path: &str) -> (level: Level)
        ensures
            level == if hushed_paths().contains(path@) {
                Level::Debug
            } else {
                Level::Info
            },
    {
        let mut i: usize = 0;
        while i < 6
            invariant
                i <= 6,
                forall|j: int| 0 <= j < i ==> #[trigger] hushed_paths()[j] != path@,
            decreases 6 - i,
        {
            if *hushed_path(i) == *path {
                assert(hushed_paths()[i as int] == path@);
                return Level::Debug;
            }
            i = i + 1;
        }
        Level::Info
    }
}

} // verus!
