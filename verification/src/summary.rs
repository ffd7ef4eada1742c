//! The argument summary: an order-preserving reduction that joins the
//! debug-rendered arguments with `", "`.
//!
//! Zero parts yield the empty string; a single part stands alone; with two
//! or more parts a single separator stands between each adjacent pair, so
//! no separator ever leads or trails.

use vstd::prelude::*;

verus! {

/// The parts joined in order with `", "` between adjacent parts.
pub open spec fn join_spec(parts: Seq<Seq<char>>) -> Seq<char>
    decreases parts.len(),
{
    if parts.len() == 0 {
        Seq::empty()
    } else if parts.len() == 1 {
        parts[0]
    } else {
        join_spec(parts.drop_last()) + ", "@ + parts.last()
    }
}

/// Joining no parts yields the empty string: a parameter-free function has
/// the empty argument summary.
pub proof fn lemma_join_empty(parts: Seq<Seq<char>>)
    requires
        parts.len() == 0,
    ensures
        join_spec(parts) == Seq::<char>::empty(),
{
}

/// Joining a single part yields that part alone: no separator appears when
/// there are fewer than two parts.
pub proof fn lemma_join_single(parts: Seq<Seq<char>>)
    requires
        parts.len() == 1,
    ensures
        join_spec(parts) == parts[0],
{
}

/// With two or more parts, the join is the join of all but the last,
/// then one separator, then the last part: each adjacent pair is separated
/// by exactly one `", "`, and no separator leads or trails.
pub proof fn lemma_join_step(parts: Seq<Seq<char>>)
    requires
        parts.len() >= 2,
    ensures
        join_spec(parts) == join_spec(parts.drop_last()) + ", "@ + parts.last(),
{
}

/// The summed length of all parts.
pub open spec fn total_len(parts: Seq<Seq<char>>) -> int
    decreases parts.len(),
{
    if parts.len() == 0 {
        0
    } else {
        total_len(parts.drop_last()) + parts.last().len()
    }
}

/// The join of `N >= 1` parts holds every character of every part and
/// exactly `N - 1` separators of two characters each: none leads, none
/// trails, and none stands between fewer than two parts.
pub proof fn lemma_join_len(parts: Seq<Seq<char>>)
    requires
        parts.len() >= 1,
    ensures
        join_spec(parts).len() == total_len(parts) + 2 * (parts.len() - 1),
    decreases parts.len(),
{
    reveal_strlit(", ");
    if parts.len() == 1 {
        assert(total_len(parts.drop_last()) == 0);
        assert(join_spec(parts) == parts[0]);
    } else {
        lemma_join_len(parts.drop_last());
    }
}

/// Builds the argument summary from the rendered parts, in order.
pub fn join_rendered(parts: &Vec<String>) -> (r: String)
    ensures
        r@ == join_spec(parts@.map_values(|s: String| s@)),
{
    let ghost views = parts@.map_values(|s: String| s@);
    let mut r = String::new();
    let mut i: usize = 0;
    while i < parts.len()
        invariant
            0 <= i <= parts@.len(),
            views == parts@.map_values(|s: String| s@),
            views.len() == parts@.len(),
            r@ == join_spec(views.take(i as int)),
        decreases parts@.len() - i,
    {
        if i > 0 {
            r.append(", ");
        }
        r.append(parts[i].as_str());
        proof {
            assert(views.take(i + 1).drop_last() =~= views.take(i as int));
            assert(views.take(i + 1).last() == views[i as int]);
            assert(r@ =~= join_spec(views.take(i + 1)));
        }
        i += 1;
    }
    proof {
        assert(views.take(parts@.len() as int) =~= views);
    }
    r
}

} // verus!
