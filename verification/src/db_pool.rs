//! Sizing and addressing of database connection pools. The pools themselves,
//! and the variables of the environment, are the caller's business: what is
//! decided here is decided from the values read there.

pub mod multi;

use vstd::prelude::*;
use vstd::string::StringExecFns;

verus! {

/// The largest pool that is opened under test.
pub const TEST_POOL_SIZE: usize = 2;

/// Name of the variable that holds the address of the default database.
pub const DEFAULT_URL_ENV: &'static str = "DATABASE_URL";

/// The pool size for a number of threads: one connection per thread, and
/// never fewer than two.
pub open spec fn pool_size_for(nthreads: usize) -> usize {
    if nthreads > 1 {
        nthreads
    } else {
        2
    }
}

/// The pool size for a number of threads.
pub fn default_pool_size(nthreads: usize) -> (size: usize)
    ensures
        size == pool_size_for(nthreads),
{
    if nthreads > 1 {
        nthreads
    } else {
        2
    }
}

/// The asked-for size, capped to two under test.
pub open spec fn capped_size(test_mode: bool, size: usize) -> usize {
    if test_mode && size > TEST_POOL_SIZE {
        TEST_POOL_SIZE
    } else {
        size
    }
}

/// The size a pool is opened with: the asked-for size, capped to two when
/// `test_mode` says that the `TEST` variable is set, then cut down to 32
/// bits. A size that fits in 32 bits comes through unchanged.
pub fn pool_max_size(test_mode: bool, size: usize) -> (max_size: u32)
    ensures
        max_size == capped_size(test_mode, size) as u32,
        capped_size(test_mode, size) <= u32::MAX ==> max_size == capped_size(test_mode, size),
        test_mode ==> max_size <= TEST_POOL_SIZE,
{
    let max_size = if test_mode && size > 2 {
        2
    } else {
        size
    };
    #[verifier::truncate]
    (max_size as u32)
}

/// What stands in for the address of a database whose variable is not set:
/// the variable's name and the words `must be set`.
pub open spec fn missing_url(env_name: Seq<char>) -> Seq<char> {
    env_name + " must be set"@
}

/// The address of a database: the value of its variable, or, where the
/// variable is not set, [`missing_url`] of its name.
pub fn database_url(env_name: &str, value: Option<String>) -> (url: String)
    ensures
        url@ == match value {
            Some(v) => v@,
            None => missing_url(env_name@),
        },
{
    match value {
        Some(v) => v,
        None => {
            let mut url = String::from_str(env_name);
            url.append(" must be set");
            url
        },
    }
}

/// The address of the default database, from the value of `DATABASE_URL`.
pub fn default_database_url(value: Option<String>) -> (url: String)
    ensures
        url@ == match value {
            Some(v) => v@,
            None => missing_url(DEFAULT_URL_ENV@),
        },
{
    database_url(DEFAULT_URL_ENV, value)
}

} // verus!
