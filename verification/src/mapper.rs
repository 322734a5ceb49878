//! The position mapper: which positions a text has, and where a requested
//! position lands in it.

use crate::coords::Position;
use vstd::prelude::*;
use vstd::std_specs::iter::IteratorSpec;

verus! {

/// The position reached after reading the first `count` characters of
/// `content` from the origin.
pub open spec fn reach(content: Seq<char>, count: nat) -> Position
    decreases count,
{
    if count == 0 {
        Position::origin()
    } else {
        reach(content, (count - 1) as nat).stepped(content[count - 1])
    }
}

/// Whether `position` is a character boundary of `content`: the position
/// before its first character, or the one after any of its characters.
pub open spec fn reachable(content: Seq<char>, position: Position) -> bool {
    exists|count: nat| count <= content.len() && #[trigger] reach(content, count) == position
}

/// Whether `landing` is where a request for `target` lands in `content`:
/// at the greatest reachable position that is not after `target`.
pub open spec fn lands(content: Seq<char>, target: Position, landing: Position) -> bool {
    &&& reachable(content, landing)
    &&& landing.at_most(target)
    &&& forall|other: Position|
        reachable(content, other) && other.at_most(target) ==> #[trigger] other.at_most(landing)
}

/// Where a request for `target` lands in `content`.
pub open spec fn resolved(content: Seq<char>, target: Position) -> Position {
    choose|landing: Position| lands(content, target, landing)
}

/// After `count` characters the line and the column together count at most
/// `count`: no position of a text that a machine holds is out of its numbers.
pub proof fn reach_is_bounded(content: Seq<char>, count: nat)
    requires
        count <= usize::MAX,
    ensures
        reach(content, count).line + reach(content, count).column <= count,
    decreases count,
{
    if count > 0 {
        reach_is_bounded(content, (count - 1) as nat);
    }
}

/// Reading on never leads back: the positions of a text come in strictly
/// increasing order.
pub proof fn reach_is_increasing(content: Seq<char>, earlier: nat, later: nat)
    requires
        earlier < later <= usize::MAX,
    ensures
        reach(content, earlier).before(reach(content, later)),
    decreases later,
{
    reach_is_bounded(content, (later - 1) as nat);
    if earlier < later - 1 {
        reach_is_increasing(content, earlier, (later - 1) as nat);
    }
}

/// At most one position is the landing of a request.
pub proof fn landing_is_unique(content: Seq<char>, target: Position, a: Position, b: Position)
    requires
        lands(content, target, a),
        lands(content, target, b),
    ensures
        a == b,
{
    assert(a.at_most(b));
    assert(b.at_most(a));
}

/// Where the walk stops is where the request lands: at the position after
/// `count` characters, if that one is not after `target` and the next one,
/// if there is a next one, is.
pub proof fn lands_where_walk_stops(content: Seq<char>, target: Position, count: nat)
    requires
        count <= content.len() <= usize::MAX,
        reach(content, count).at_most(target),
        count < content.len() ==> !reach(content, count + 1).at_most(target),
    ensures
        lands(content, target, reach(content, count)),
        resolved(content, target) == reach(content, count),
{
    let landing = reach(content, count);
    assert forall|other: Position|
        reachable(content, other) && other.at_most(target) implies #[trigger] other.at_most(
        landing,
    ) by {
        let steps = choose|steps: nat| steps <= content.len() && reach(content, steps) == other;
        if steps > count + 1 {
            reach_is_increasing(content, count + 1, steps);
        } else if steps < count {
            reach_is_increasing(content, steps, count);
        }
    }
    assert(lands(content, target, landing));
    landing_is_unique(content, target, landing, resolved(content, target));
}

/// The greatest position after at most `limit` characters of `content`
/// that is not after `target`.
spec fn nearest(content: Seq<char>, target: Position, limit: nat) -> Position
    decreases limit,
{
    if limit == 0 {
        Position::origin()
    } else {
        let earlier = nearest(content, target, (limit - 1) as nat);
        let here = reach(content, limit);
        if here.at_most(target) && earlier.at_most(here) {
            here
        } else {
            earlier
        }
    }
}

proof fn nearest_is_greatest(content: Seq<char>, target: Position, limit: nat)
    ensures
        exists|count: nat|
            count <= limit && #[trigger] reach(content, count) == nearest(content, target, limit),
        nearest(content, target, limit).at_most(target),
        forall|count: nat|
            count <= limit && (#[trigger] reach(content, count)).at_most(target) ==> reach(
                content,
                count,
            ).at_most(nearest(content, target, limit)),
    decreases limit,
{
    if limit == 0 {
        assert(reach(content, 0) == nearest(content, target, 0));
    } else {
        nearest_is_greatest(content, target, (limit - 1) as nat);
        let earlier = nearest(content, target, (limit - 1) as nat);
        let here = reach(content, limit);
        if here.at_most(target) && earlier.at_most(here) {
            assert(reach(content, limit) == nearest(content, target, limit));
        } else {
            let count = choose|count: nat|
                count <= limit - 1 && #[trigger] reach(content, count) == earlier;
            assert(count <= limit && reach(content, count) == nearest(content, target, limit));
        }
    }
}

/// Every request lands: in any text, whatever the target, the landing is a
/// position of the text, it is not after the target, and no position of the
/// text lies after it and not after the target.
pub proof fn request_lands(content: Seq<char>, target: Position)
    ensures
        lands(content, target, resolved(content, target)),
        reachable(content, resolved(content, target)),
        resolved(content, target).at_most(target),
        forall|between: Position|
            reachable(content, between) && resolved(content, target).before(between)
                ==> !#[trigger] between.at_most(target),
{
    nearest_is_greatest(content, target, content.len());
    let found = nearest(content, target, content.len());
    assert(reachable(content, found)) by {
        let count = choose|count: nat|
            count <= content.len() && #[trigger] reach(content, count) == found;
        assert(count <= content.len() && reach(content, count) == found);
    }
    assert forall|other: Position|
        reachable(content, other) && other.at_most(target) implies #[trigger] other.at_most(
        found,
    ) by {
        let count = choose|count: nat|
            count <= content.len() && #[trigger] reach(content, count) == other;
        assert(reach(content, count).at_most(found));
    }
    assert(lands(content, target, found));
    let landing = resolved(content, target);
    assert forall|between: Position|
        reachable(content, between) && landing.before(between) implies !#[trigger] between.at_most(
        target,
    ) by {
        if between.at_most(target) {
            assert(between.at_most(landing));
        }
    }
}

/// A request for a position of the text lands on it.
pub proof fn position_of_text_is_kept(content: Seq<char>, position: Position)
    requires
        reachable(content, position),
    ensures
        resolved(content, position) == position,
{
    request_lands(content, position);
    assert(position.at_most(resolved(content, position)));
}

/// Walks `content` from its start and returns the last position on the way
/// that is not after `target`.
pub fn resolve(content: &str, target: Position) -> (landing: Position)
    ensures
        landing == resolved(content@, target),
        lands(content@, target, landing),
{
    broadcast use vstd::string::group_string_axioms;

    let length = content.unicode_len();
    let mut position = Position::start();
    let mut chars = content.chars();
    let mut count: usize = 0;
    loop
        invariant_except_break
            chars.obeys_prophetic_iter_laws(),
            chars.remaining() == content@.subrange(count as int, length as int),
        invariant
            length == content@.len(),
            count <= length,
            position == reach(content@, count as nat),
            position.at_most(target),
        ensures
            count < length ==> !reach(content@, (count + 1) as nat).at_most(target),
        decreases length - count,
    {
        proof {
            reach_is_bounded(content@, count as nat);
        }
        match chars.next() {
            Some(character) => {
                assert(character == content@[count as int]);
                let following = position.next(character);
                if !following.precedes(target) {
                    break ;
                }
                position = following;
                count = count + 1;
            },
            None => {
                break ;
            },
        }
    }
    proof {
        lands_where_walk_stops(content@, target, count as nat);
    }
    position
}

} // verus!
