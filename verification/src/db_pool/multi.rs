//! Pool made of pools, one writable and others read-only with connections to
//! replicas: its settings, the addresses of the replicas, and the choice of
//! the pool that serves a read.

use vstd::prelude::*;
use weighted_rs::RoundrobinWeight;
use weighted_rs::Weight;

verus! {

/// Name of the variable that holds the address of the writable database.
pub const WRITE_URL_ENV: &'static str = "DATABASE_URL";

/// Name of the variable that holds the addresses of the replicas.
pub const READ_URL_ENV: &'static str = "DATABASE_MIRRORS_URLS";

/// Settings of a pool of pools.
pub struct MultiPoolBuilder<'a> {
    size: usize,
    write_url_env: &'a str,
    read_url_env: &'a str,
    read_only: bool,
}

impl<'a> MultiPoolBuilder<'a> {
    /// Connections per pool.
    pub closed spec fn spec_size(&self) -> usize {
        self.size
    }

    /// Name of the variable with the address of the writable database.
    pub closed spec fn spec_write_url_env(&self) -> Seq<char> {
        self.write_url_env@
    }

    /// Name of the variable with the addresses of the replicas.
    pub closed spec fn spec_read_url_env(&self) -> Seq<char> {
        self.read_url_env@
    }

    /// Whether the pool goes without a writable database.
    pub closed spec fn spec_read_only(&self) -> bool {
        self.read_only
    }

    /// The settings to start from on a machine that runs `nthreads` threads:
    /// one connection per thread and never fewer than two, the usual two
    /// variables, and a writable database.
    pub fn for_threads(nthreads: usize) -> (builder: MultiPoolBuilder<'static>)
        ensures
            builder.spec_size() == crate::db_pool::pool_size_for(nthreads),
            builder.spec_write_url_env() == WRITE_URL_ENV@,
            builder.spec_read_url_env() == READ_URL_ENV@,
            !builder.spec_read_only(),
    {
        MultiPoolBuilder {
            size: crate::db_pool::default_pool_size(nthreads),
            write_url_env: WRITE_URL_ENV,
            read_url_env: READ_URL_ENV,
            read_only: false,
        }
    }

    /// Sets the connections per pool.
    #[must_use]
    pub fn size(self, size: usize) -> (builder: Self)
        ensures
            builder.spec_size() == size,
            builder.spec_write_url_env() == self.spec_write_url_env(),
            builder.spec_read_url_env() == self.spec_read_url_env(),
            builder.spec_read_only() == self.spec_read_only(),
    {
        let mut builder = self;
        builder.size = size;
        builder
    }

    /// Sets the variable to take the writable database's address from.
    #[must_use]
    pub fn write_url_env(self, write_url_env: &'a str) -> (builder: Self)
        ensures
            builder.spec_write_url_env() == write_url_env@,
            builder.spec_size() == self.spec_size(),
            builder.spec_read_url_env() == self.spec_read_url_env(),
            builder.spec_read_only() == self.spec_read_only(),
    {
        let mut builder = self;
        builder.write_url_env = write_url_env;
        builder
    }

    /// Sets the variable to take the replicas' addresses from.
    #[must_use]
    pub fn read_url_env(self, read_url_env: &'a str) -> (builder: Self)
        ensures
            builder.spec_read_url_env() == read_url_env@,
            builder.spec_size() == self.spec_size(),
            builder.spec_write_url_env() == self.spec_write_url_env(),
            builder.spec_read_only() == self.spec_read_only(),
    {
        let mut builder = self;
        builder.read_url_env = read_url_env;
        builder
    }

    /// Goes without a writable database.
    #[must_use]
    pub fn readonly(self) -> (builder: Self)
        ensures
            builder.spec_read_only(),
            builder.spec_size() == self.spec_size(),
            builder.spec_write_url_env() == self.spec_write_url_env(),
            builder.spec_read_url_env() == self.spec_read_url_env(),
    {
        let mut builder = self;
        builder.read_only = true;
        builder
    }

    /// Connections per pool.
    pub fn pool_size(&self) -> (size: usize)
        ensures
            size == self.spec_size(),
    {
        self.size
    }

    /// Name of the variable with the address of the writable database.
    pub fn write_env(&self) -> (name: &'a str)
        ensures
            name@ == self.spec_write_url_env(),
    {
        self.write_url_env
    }

    /// Name of the variable with the addresses of the replicas.
    pub fn read_env(&self) -> (name: &'a str)
        ensures
            name@ == self.spec_read_url_env(),
    {
        self.read_url_env
    }

    /// Whether the pool goes without a writable database.
    pub fn is_readonly(&self) -> (read_only: bool)
        ensures
            read_only == self.spec_read_only(),
    {
        self.read_only
    }
}

/// The pieces of `s` between its separators. There is always one piece more
/// than there are separators, so the empty string has one empty piece.
pub open spec fn split_on(s: Seq<char>, separator: char) -> Seq<Seq<char>>
    decreases s.len(),
{
    if s.len() == 0 {
        seq![Seq::empty()]
    } else {
        let before = split_on(s.drop_last(), separator);
        if s.last() == separator {
            before.push(Seq::empty())
        } else {
            before.drop_last().push(before.last().push(s.last()))
        }
    }
}

/// There is at least one piece.
pub proof fn lemma_split_on_is_not_empty(s: Seq<char>, separator: char)
    ensures
        split_on(s, separator).len() >= 1,
    decreases s.len(),
{
    if s.len() > 0 {
        lemma_split_on_is_not_empty(s.drop_last(), separator);
    }
}

/// The strings of a list as text.
pub open spec fn strings_text(list: Seq<String>) -> Seq<Seq<char>> {
    list.map_values(|s: String| s@)
}

/// The addresses of the replicas, from the value of their variable: the
/// pieces between the commas, in order. No variable, no replicas.
pub fn database_mirrors_urls(value: Option<&str>) -> (urls: Vec<String>)
    ensures
        strings_text(urls@) == match value {
            Some(v) => split_on(v@, ','),
            None => Seq::empty(),
        },
{
    let mut urls: Vec<String> = Vec::new();
    match value {
        None => {
            assert(strings_text(urls@) =~= Seq::<Seq<char>>::empty());
        },
        Some(v) => {
            let mut current = String::new();
            let characters = v.chars();
            for character in it: characters
                invariant
                    it.seq() == v@,
                    split_on(v@.take(it.index()), ',') == strings_text(urls@).push(current@),
            {
                proof {
                    assert(v@.take(it.index() + 1).drop_last() == v@.take(it.index()));
                    assert(strings_text(urls@).push(current@).drop_last() == strings_text(urls@));
                }
                if character == ',' {
                    let ghost earlier = urls@;
                    urls.push(current);
                    current = String::new();
                    proof {
                        assert(strings_text(urls@) =~= strings_text(earlier).push(urls@.last()@));
                    }
                } else {
                    current.push(character);
                }
            }
            let ghost earlier = urls@;
            urls.push(current);
            proof {
                assert(v@.take(v@.len() as int) == v@);
                assert(strings_text(urls@) =~= strings_text(earlier).push(urls@.last()@));
            }
        },
    }
    urls
}

/// `weighted_rs::RoundrobinWeight`: a wheel of weighted items. What it
/// holds and where it stands have names here, [`wheel_items`] and
/// [`wheel_index`].
#[verifier::external_type_specification]
#[verifier::external_body]
#[verifier::reject_recursive_types(T)]
pub struct ExRoundrobinWeight<T>(weighted_rs::RoundrobinWeight<T>);

/// What a round-robin wheel holds: its items with their weights, in the
/// order in which they were added.
pub uninterp spec fn wheel_items(wheel: RoundrobinWeight<usize>) -> Seq<(usize, isize)>;

/// Where a round-robin wheel stands: the index of the item it looked at
/// last, `-1` when it has not looked at any since it got its first item of
/// positive weight.
pub uninterp spec fn wheel_index(wheel: RoundrobinWeight<usize>) -> int;

/// All items have the weight one.
pub open spec fn unit_weights(items: Seq<(usize, isize)>) -> bool {
    forall|i: int| 0 <= i < items.len() ==> (#[trigger] items[i]).1 == 1
}

/// `RoundrobinWeight::new`: a wheel without items, standing at zero.
#[verifier::external_body]
fn wheel_new() -> (wheel: RoundrobinWeight<usize>)
    ensures
        wheel_items(wheel) == Seq::<(usize, isize)>::empty(),
        wheel_index(wheel) == 0,
{
    RoundrobinWeight::new()
}

/// `Weight::add` of the wheel: the item goes to the end with its weight. The
/// first item of a wheel of unit weights puts the wheel at `-1`; a later
/// one leaves it where it stands.
#[verifier::external_body]
fn wheel_add(wheel: &mut RoundrobinWeight<usize>, item: usize, weight: isize)
    ensures
        wheel_items(*final(wheel)) == wheel_items(*old(wheel)).push((item, weight)),
        unit_weights(wheel_items(*final(wheel))) ==> wheel_index(*final(wheel)) == if wheel_items(
            *old(wheel),
        ).len() == 0 {
            -1
        } else {
            wheel_index(*old(wheel))
        },
{
    wheel.add(item, weight)
}

/// `Weight::next` of the wheel. The items stay. An empty wheel gives
/// nothing, and what comes out is always one of the items. A wheel with one
/// item gives that item. Up to one item the wheel stays where it stands. A
/// wheel of two or more
/// items of unit weight moves on by one, around the end to the start, and
/// gives the item it comes to.
#[verifier::external_body]
fn wheel_next(wheel: &mut RoundrobinWeight<usize>) -> (chosen: Option<usize>)
    ensures
        wheel_items(*final(wheel)) == wheel_items(*old(wheel)),
        wheel_items(*old(wheel)).len() == 0 ==> chosen is None,
        chosen matches Some(item) ==> exists|i: int|
            0 <= i < wheel_items(*old(wheel)).len() && (#[trigger] wheel_items(*old(wheel))[i]).0
                == item,
        wheel_items(*old(wheel)).len() == 1 ==> chosen == Some(wheel_items(*old(wheel))[0].0),
        wheel_items(*old(wheel)).len() <= 1 ==> wheel_index(*final(wheel)) == wheel_index(
            *old(wheel),
        ),
        wheel_items(*old(wheel)).len() >= 2 && unit_weights(wheel_items(*old(wheel)))
            && wheel_index(*old(wheel)) >= -1 ==> wheel_index(*final(wheel)) == (wheel_index(
            *old(wheel),
        ) + 1) % (wheel_items(*old(wheel)).len() as int) && chosen == Some(
            wheel_items(*old(wheel))[wheel_index(*final(wheel))].0,
        ),
{
    wheel.next()
}

/// The weight that every replica gets.
pub const MIRROR_WEIGHT: isize = 1;

/// Hands out the replicas in turn.
pub struct MirrorDispatcher {
    wheel: RoundrobinWeight<usize>,
    mirrors: usize,
}

/// The pool that serves a read.
#[derive(Debug, Clone, Copy, PartialEq, Eq, Structural)]
pub enum ReadTarget {
    /// The replica with this number.
    Mirror(usize),
    /// The writable database.
    Master,
}

/// The pool that serves a read, from what the dispatcher said: the replica
/// it named, or the writable database where it named none.
pub fn read_target(chosen: Option<usize>) -> (target: ReadTarget)
    ensures
        target == match chosen {
            Some(n) => ReadTarget::Mirror(n),
            None => ReadTarget::Master,
        },
{
    if let Some(n) = chosen {
        ReadTarget::Mirror(n)
    } else {
        ReadTarget::Master
    }
}

/// The replica that is served after the one at `last`, among `mirrors`
/// replicas: the next number, and the first again after the last. A single
/// replica is always served.
pub open spec fn turn_after(last: int, mirrors: usize) -> Option<usize> {
    if mirrors == 0 {
        None
    } else if mirrors == 1 {
        Some(0)
    } else {
        Some(((last + 1) % (mirrors as int)) as usize)
    }
}

impl MirrorDispatcher {
    /// The wheel holds the numbers of the replicas, `0` up to their count,
    /// each with the same weight.
    pub closed spec fn wf(&self) -> bool {
        &&& wheel_items(self.wheel).len() == self.mirrors
        &&& forall|i: int|
            0 <= i < self.mirrors ==> #[trigger] wheel_items(self.wheel)[i] == (
                i as usize,
                MIRROR_WEIGHT,
            )
        &&& -1 <= wheel_index(self.wheel)
        &&& wheel_index(self.wheel) < self.mirrors || self.mirrors == 0
    }

    /// Number of replicas.
    pub closed spec fn spec_mirrors(&self) -> usize {
        self.mirrors
    }

    /// The replica that was looked at last; `-1` where none was since the
    /// first replica came in. A single replica is served without a look.
    pub closed spec fn last_turn(&self) -> int {
        wheel_index(self.wheel)
    }

    /// A dispatcher without replicas.
    pub fn new() -> (dispatcher: Self)
        ensures
            dispatcher.wf(),
            dispatcher.spec_mirrors() == 0,
    {
        MirrorDispatcher { wheel: wheel_new(), mirrors: 0 }
    }

    /// Number of replicas.
    pub fn mirrors(&self) -> (count: usize)
        ensures
            count == self.spec_mirrors(),
    {
        self.mirrors
    }

    /// Takes in one more replica and gives its number: the count before.
    /// The turn stays where it is; the first replica sets it to `-1`.
    pub fn add_mirror(&mut self) -> (number: usize)
        requires
            old(self).wf(),
            old(self).spec_mirrors() < usize::MAX,
        ensures
            final(self).wf(),
            number == old(self).spec_mirrors(),
            final(self).spec_mirrors() == old(self).spec_mirrors() + 1,
            final(self).last_turn() == if old(self).spec_mirrors() == 0 {
                -1
            } else {
                old(self).last_turn()
            },
    {
        let number = self.mirrors;
        wheel_add(&mut self.wheel, number, MIRROR_WEIGHT);
        self.mirrors = number + 1;
        number
    }

    /// The replica whose turn it is: none without replicas, else the one
    /// after the last turn, by [`turn_after`]. Its number is below the count
    /// of replicas.
    pub fn next(&mut self) -> (chosen: Option<usize>)
        requires
            old(self).wf(),
        ensures
            final(self).wf(),
            final(self).spec_mirrors() == old(self).spec_mirrors(),
            chosen == turn_after(old(self).last_turn(), old(self).spec_mirrors()),
            chosen matches Some(n) ==> n < old(self).spec_mirrors(),
            final(self).last_turn() == if old(self).spec_mirrors() >= 2 {
                chosen->0 as int
            } else {
                old(self).last_turn()
            },
    {
        let ghost items = wheel_items(self.wheel);
        let ghost last = wheel_index(self.wheel);
        let ghost count = self.mirrors as int;
        proof {
            assert(unit_weights(items));
            if count >= 2 {
                assert(0 <= (last + 1) % count < count) by (nonlinear_arith)
                    requires
                        count >= 2,
                        last >= -1,
                ;
            }
        }
        let chosen = wheel_next(&mut self.wheel);
        proof {
            if count >= 2 {
                assert(items[(last + 1) % count] == (((last + 1) % count) as usize, MIRROR_WEIGHT));
            } else if count == 1 {
                assert(items[0] == (0usize, MIRROR_WEIGHT));
            }
        }
        chosen
    }
}

/// Replicas are served in turn: among two or more, two turns in a row go to
/// neighbours, the first replica being the neighbour of the last.
pub proof fn lemma_turns_go_round(last: int, mirrors: usize)
    requires
        mirrors >= 2,
        -1 <= last < mirrors,
    ensures
        turn_after(last, mirrors) == Some(
            if last + 1 == mirrors {
                0usize
            } else {
                (last + 1) as usize
            },
        ),
{
    let count = mirrors as int;
    if last + 1 == count {
        assert((last + 1) % count == 0) by (nonlinear_arith)
            requires
                last + 1 == count,
                count >= 2,
        ;
    } else {
        assert((last + 1) % count == last + 1) by (nonlinear_arith)
            requires
                0 <= last + 1 < count,
        ;
    }
}

} // verus!
