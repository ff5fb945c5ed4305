//! Request counters, and the paths that are not counted.

use std::collections::HashMap;
use vstd::std_specs::hash::spec_hash_map_iter;
use vstd::std_specs::iter::IteratorSpec;
use vstd::prelude::*;
use vstd::string::StringExecFns;

verus! {

broadcast use vstd::std_specs::hash::group_hash_axioms;

/// Counters common to all services: requests taken up, requests answered,
/// and answers by status code.
#[derive(Clone)]
pub struct BaseStatsInner {
    request_started: usize,
    request_finished: usize,
    status_codes: HashMap<u16, usize>,
}

/// The number of unfinished requests from which on a warning is due.
pub open spec fn many_unfinished(left: usize) -> bool {
    left > 1
}

/// Whether so many requests are unfinished that a warning is due.
pub fn warn_unfinished(left: usize) -> (r: bool)
    ensures
        r == many_unfinished(left),
{
    left > 1
}

impl BaseStatsInner {
    /// Requests taken up so far.
    pub closed spec fn started(&self) -> usize {
        self.request_started
    }

    /// Requests answered so far.
    pub closed spec fn finished(&self) -> usize {
        self.request_finished
    }

    /// Answers so far, by status code. A code that never came has no entry.
    pub closed spec fn codes(&self) -> Map<u16, usize> {
        self.status_codes@
    }

    /// Answers so far with the given status code.
    pub open spec fn code_count(&self, code: u16) -> usize {
        if self.codes().contains_key(code) {
            self.codes()[code]
        } else {
            0
        }
    }

    /// All counters at zero.
    pub fn new() -> (stats: Self)
        ensures
            stats.started() == 0,
            stats.finished() == 0,
            stats.codes() == Map::<u16, usize>::empty(),
    {
        BaseStatsInner { request_started: 0, request_finished: 0, status_codes: HashMap::new() }
    }

    /// Requests taken up so far.
    pub fn request_started(&self) -> (n: usize)
        ensures
            n == self.started(),
    {
        self.request_started
    }

    /// Requests answered so far.
    pub fn request_finished(&self) -> (n: usize)
        ensures
            n == self.finished(),
    {
        self.request_finished
    }

    /// Answers so far with the given status code.
    pub fn status_count(&self, code: u16) -> (n: usize)
        ensures
            n == self.code_count(code),
    {
        match self.status_codes.get(&code) {
            Some(n) => *n,
            None => 0,
        }
    }

    /// The status codes that came so far, each once, in no fixed order.
    pub fn status_codes(&self) -> (codes: Vec<u16>)
        ensures
            codes@.no_duplicates(),
            forall|i: int| 0 <= i < codes@.len() ==> self.codes().contains_key(#[trigger] codes@[i]),
            forall|code: u16| self.codes().contains_key(code) ==> codes@.contains(code),
    {
        let mut codes: Vec<u16> = Vec::new();
        let ghost walk = spec_hash_map_iter(&self.status_codes).remaining();
        for entry in it: self.status_codes.iter()
            invariant
                it.seq() == walk,
                walk == spec_hash_map_iter(&self.status_codes).remaining(),
                walk.no_duplicates(),
                codes@.len() == it.index(),
                forall|i: int| 0 <= i < it.index() ==> #[trigger] codes@[i] == *walk[i].0,
        {
            codes.push(*entry.0);
        }
        proof {
            let held = self.status_codes@;
            assert forall|i: int, j: int| 0 <= i < j < codes@.len() implies codes@[i]
                != codes@[j] by {
                assert(held.contains_key(*walk[i].0) && held[*walk[i].0] == *walk[i].1);
                assert(held.contains_key(*walk[j].0) && held[*walk[j].0] == *walk[j].1);
                if codes@[i] == codes@[j] {
                    assert(walk[i] == walk[j]);
                }
            }
            assert forall|i: int| 0 <= i < codes@.len() implies self.codes().contains_key(
                #[trigger] codes@[i],
            ) by {
                assert(held.contains_key(*walk[i].0));
            }
            assert forall|code: u16| self.codes().contains_key(code) implies codes@.contains(
                code,
            ) by {
                assert(held.contains_key(code));
                assert(walk.contains((&code, &held[code])));
                let i = choose|i: int| 0 <= i < walk.len() && walk[i] == (&code, &held[code]);
                assert(codes@[i] == code);
            }
        }
        codes
    }

    /// Counts a request that is taken up.
    pub fn count_start(&mut self)
        requires
            old(self).started() < usize::MAX,
        ensures
            final(self).started() == old(self).started() + 1,
            final(self).finished() == old(self).finished(),
            final(self).codes() == old(self).codes(),
    {
        self.request_started += 1;
    }

    /// Counts a request that was answered with the given status, and says
    /// how many requests are still unfinished.
    pub fn count_finish(&mut self, status: u16) -> (left: usize)
        requires
            old(self).finished() < old(self).started(),
            old(self).code_count(status) < usize::MAX,
        ensures
            final(self).started() == old(self).started(),
            final(self).finished() == old(self).finished() + 1,
            left == final(self).started() - final(self).finished(),
            final(self).codes() == old(self).codes().insert(
                status,
                (old(self).code_count(status) + 1) as usize,
            ),
    {
        self.request_finished += 1;
        let left = self.request_started - self.request_finished;
        let before = match self.status_codes.get(&status) {
            Some(n) => *n,
            None => 0,
        };
        self.status_codes.insert(status, before + 1);
        left
    }
}

/// The paths that the counters leave out.
pub struct StatsWrapper {
    excludes: Vec<String>,
}

/// The paths of the service's own handlers, which are not counted.
pub open spec fn default_excludes() -> Seq<Seq<char>> {
    seq!["/_healthcheck"@, "/_ready"@, "/_stats"@, "/_prometheus"@]
}

impl StatsWrapper {
    /// The paths that are left out.
    pub closed spec fn excluded(&self) -> Seq<Seq<char>> {
        self.excludes@.map_values(|s: String| s@)
    }

    /// Whether requests to `path` are counted: the path is not among the
    /// ones left out.
    pub open spec fn counts(&self, path: Seq<char>) -> bool {
        !self.excluded().contains(path)
    }

    /// Leaves out the given paths.
    pub fn new(excludes: Vec<String>) -> (wrapper: Self)
        ensures
            wrapper.excluded() == excludes@.map_values(|s: String| s@),
    {
        StatsWrapper { excludes }
    }

    /// Whether requests to `path` are counted.
    pub fn count_it(&self, path: &str) -> (r: bool)
        ensures
            r == self.counts(path@),
    {
        let mut i: usize = 0;
        while i < self.excludes.len()
            invariant
                i <= self.excludes@.len(),
                forall|j: int| 0 <= j < i ==> #[trigger] self.excluded()[j] != path@,
            decreases self.excludes@.len() - i,
        {
            if *self.excludes[i].as_str() == *path {
                assert(self.excluded()[i as int] == path@);
                return false;
            }
            i = i + 1;
        }
        true
    }
}

impl Default for StatsWrapper {
    /// Leaves out the service's own handlers.
    fn default() -> (wrapper: Self)
        ensures
            wrapper.excluded() == default_excludes(),
    {
        let mut excludes: Vec<String> = Vec::new();
        excludes.push(String::from_str("/_healthcheck"));
        excludes.push(String::from_str("/_ready"));
        excludes.push(String::from_str("/_stats"));
        excludes.push(String::from_str("/_prometheus"));
        let wrapper = Self::new(excludes);
        assert(wrapper.excluded() =~= default_excludes());
        wrapper
    }
}

/// What a readiness probe is answered with.
#[derive(Debug, Clone, Copy, PartialEq, Eq, Structural)]
pub enum Readiness {
    /// 200 with the body `OK`.
    Ready,
    /// 503 with the body `Not ready yet`.
    NotReady,
    /// 500 with a body that names the error.
    CheckFailed,
}

impl Readiness {
    /// The status code of the answer.
    pub open spec fn code(self) -> u16 {
        match self {
            Readiness::Ready => 200,
            Readiness::NotReady => 503,
            Readiness::CheckFailed => 500,
        }
    }

    /// The status code of the answer.
    pub fn status(&self) -> (code: u16)
        ensures
            code == self.code(),
    {
        match self {
            Readiness::Ready => 200,
            Readiness::NotReady => 503,
            Readiness::CheckFailed => 500,
        }
    }
}

/// The body of the answer to a readiness probe.
pub open spec fn readiness_body(outcome: Result<bool, Seq<char>>) -> Seq<char> {
    match outcome {
        Err(error) => "Can't check readiness: "@ + error,
        Ok(true) => "OK"@,
        Ok(false) => "Not ready yet"@,
    }
}

/// The answer to a readiness probe, from what the service said of itself:
/// ready, not ready, or an error in its own words.
pub fn readiness_reply(outcome: Result<bool, String>) -> (reply: (Readiness, String))
    ensures
        reply.0 == match outcome {
            Err(_) => Readiness::CheckFailed,
            Ok(true) => Readiness::Ready,
            Ok(false) => Readiness::NotReady,
        },
        reply.1@ == readiness_body(
            match outcome {
                Err(error) => Err(error@),
                Ok(ready) => Ok(ready),
            },
        ),
{
    match outcome {
        Err(error) => {
            let mut body = String::from_str("Can't check readiness: ");
            body.append(error.as_str());
            (Readiness::CheckFailed, body)
        },
        Ok(true) => (Readiness::Ready, String::from_str("OK")),
        Ok(false) => (Readiness::NotReady, String::from_str("Not ready yet")),
    }
}

} // verus!
