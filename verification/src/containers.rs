//! Structs that carry data between storage and handler output.

pub mod as_map;
pub mod cache_map;
pub mod password;
pub mod role;

pub use password::Password;

use vstd::prelude::*;
use vstd::std_specs::convert::IntoSpec;

verus! {

/// One page of a list, ready for a handler to return.
pub struct ListResponse<T> {
    /// Number of items in the whole list.
    pub total: i64,
    /// Number of pages in the whole list.
    pub total_pages: i64,
    /// The page after this one, where there is one.
    pub next_page: Option<i64>,
    /// The items of this page.
    pub data: Vec<T>,
}

/// Taking all of a list leaves the list.
pub proof fn lemma_take_all<T>(list: Seq<T>)
    ensures
        list.take(list.len() as int) == list,
{
}

/// The values that are present, in their order.
pub open spec fn present<Y>(s: Seq<Option<Y>>) -> Seq<Y>
    decreases s.len(),
{
    if s.len() == 0 {
        Seq::empty()
    } else {
        match s.last() {
            Some(y) => present(s.drop_last()).push(y),
            None => present(s.drop_last()),
        }
    }
}

/// Filtering keeps no more than it was given.
pub proof fn lemma_present_is_no_longer<Y>(s: Seq<Option<Y>>)
    ensures
        present(s).len() <= s.len(),
    decreases s.len(),
{
    if s.len() > 0 {
        lemma_present_is_no_longer(s.drop_last());
    }
}

/// Converts every `X` of the list into a `Y`, in order.
pub fn transmute<X, Y>(arg: Vec<X>) -> (converted: Vec<Y>) where X: Into<Y>
    ensures
        converted@.len() == arg@.len(),
        X::obeys_into_spec() ==> converted@ == arg@.map_values(|x: X| x.into_spec()),
{
    let mut converted: Vec<Y> = Vec::new();
    for item in it: arg.into_iter()
        invariant
            it.seq() == arg@,
            converted@.len() == it.index(),
            X::obeys_into_spec() ==> converted@ == arg@.take(it.index()).map_values(
                |x: X| x.into_spec(),
            ),
    {
        let ghost before = converted@;
        converted.push(item.into());
        proof {
            if X::obeys_into_spec() {
                assert(converted@ =~= arg@.take(it.index() + 1).map_values(|x: X| x.into_spec()));
            }
        }
    }
    proof {
        assert(arg@.take(arg@.len() as int) == arg@);
    }
    converted
}

/// Converts every `X` of the list into a `Y` where the conversion gives one,
/// and leaves out the others. The order is kept.
pub fn filtermute<X, Y>(arg: Vec<X>) -> (converted: Vec<Y>) where X: Into<Option<Y>>
    ensures
        converted@.len() <= arg@.len(),
        X::obeys_into_spec() ==> converted@ == present(arg@.map_values(|x: X| x.into_spec())),
{
    let mut converted: Vec<Y> = Vec::new();
    for item in it: arg.into_iter()
        invariant
            it.seq() == arg@,
            converted@.len() <= it.index(),
            X::obeys_into_spec() ==> converted@ == present(
                arg@.take(it.index()).map_values(|x: X| x.into_spec()),
            ),
    {
        let ghost done = arg@.take(it.index()).map_values(|x: X| x.into_spec());
        let ghost next = arg@.take(it.index() + 1).map_values(|x: X| x.into_spec());
        proof {
            assert(next.drop_last() =~= done);
        }
        let maybe: Option<Y> = item.into();
        if let Some(value) = maybe {
            converted.push(value);
        }
    }
    proof {
        assert(arg@.take(arg@.len() as int) == arg@);
    }
    converted
}

} // verus!
