//! The directory listing and its filtered view: which entries are listed,
//! in what order, and which of them a query selects.

use vstd::prelude::*;
use vstd::std_specs::iter::IteratorSpec;

verus! {

/// What separates the components of a path.
pub const SEPARATOR: char = '/';

/// What a name starts with to be hidden.
pub const DOT: char = '.';

/// Whether a component of `path` starts at `index`, and starts with a dot.
pub open spec fn dotted(path: Seq<char>, index: int) -> bool {
    &&& 0 <= index < path.len()
    &&& path[index] == DOT
    &&& (index == 0 || path[index - 1] == SEPARATOR)
}

/// Whether `path` is hidden: one of its components, the name or a directory
/// above it, starts with a dot.
pub open spec fn hidden(path: Seq<char>) -> bool {
    exists|index: int| dotted(path, index)
}

/// Whether `path` is hidden.
pub fn is_hidden(path: &str) -> (found: bool)
    ensures
        found == hidden(path@),
{
    broadcast use vstd::string::group_string_axioms;

    let mut chars = path.chars();
    let mut leading = true;
    let ghost mut count: int = 0;
    loop
        invariant
            0 <= count <= path@.len(),
            chars.obeys_prophetic_iter_laws(),
            chars.remaining() == path@.subrange(count, path@.len() as int),
            leading == (count == 0 || path@[count - 1] == SEPARATOR),
            forall|index: int| 0 <= index < count ==> !dotted(path@, index),
        ensures
            count == path@.len(),
        decreases path@.len() - count,
    {
        match chars.next() {
            Some(character) => {
                assert(character == path@[count]);
                if leading && character == DOT {
                    assert(dotted(path@, count));
                    return true;
                }
                leading = character == SEPARATOR;
                proof {
                    count = count + 1;
                }
            },
            None => {
                break ;
            },
        }
    }
    false
}

/// The order of paths from index `from` on: `a` is at most `b` where it
/// ends first, or where at the first index at which they differ it has the
/// character of the lower code point.
pub open spec fn ordered_from(a: Seq<char>, b: Seq<char>, from: int) -> bool
    decreases a.len() - from,
{
    if from < 0 || from >= a.len() {
        true
    } else if from >= b.len() {
        false
    } else if a[from] != b[from] {
        (a[from] as u32) < (b[from] as u32)
    } else {
        ordered_from(a, b, from + 1)
    }
}

/// The lexicographic order of paths: `a` ≤ `b`.
pub open spec fn precedes(a: Seq<char>, b: Seq<char>) -> bool {
    ordered_from(a, b, 0)
}

/// Whether `a` ≤ `b` in the lexicographic order of paths.
pub fn ordered(a: &str, b: &str) -> (holds: bool)
    ensures
        holds == precedes(a@, b@),
{
    broadcast use vstd::string::group_string_axioms;

    let mut left = a.chars();
    let mut right = b.chars();
    let ghost mut count: int = 0;
    loop
        invariant
            0 <= count <= a@.len(),
            count <= b@.len(),
            left.obeys_prophetic_iter_laws(),
            right.obeys_prophetic_iter_laws(),
            left.remaining() == a@.subrange(count, a@.len() as int),
            right.remaining() == b@.subrange(count, b@.len() as int),
            precedes(a@, b@) == ordered_from(a@, b@, count),
        decreases a@.len() - count,
    {
        match left.next() {
            None => {
                return true;
            },
            Some(ours) => {
                assert(ours == a@[count]);
                match right.next() {
                    None => {
                        return false;
                    },
                    Some(theirs) => {
                        assert(theirs == b@[count]);
                        if ours != theirs {
                            return (ours as u32) < (theirs as u32);
                        }
                        proof {
                            count = count + 1;
                        }
                    },
                }
            },
        }
    }
}

/// The order of paths is total.
pub proof fn order_is_total(a: Seq<char>, b: Seq<char>)
    ensures
        precedes(a, b) || precedes(b, a),
{
    total_from(a, b, 0);
}

proof fn total_from(a: Seq<char>, b: Seq<char>, from: int)
    requires
        0 <= from,
    ensures
        ordered_from(a, b, from) || ordered_from(b, a, from),
    decreases a.len() - from,
{
    if from < a.len() && from < b.len() {
        if a[from] == b[from] {
            total_from(a, b, from + 1);
        } else {
            vstd::utf8::char_u32_cast(a[from], a[from] as u32);
            vstd::utf8::char_u32_cast(b[from], b[from] as u32);
        }
    }
}

/// The order of paths is transitive.
pub proof fn order_is_transitive(a: Seq<char>, b: Seq<char>, c: Seq<char>)
    requires
        precedes(a, b),
        precedes(b, c),
    ensures
        precedes(a, c),
{
    transitive_from(a, b, c, 0);
}

proof fn transitive_from(a: Seq<char>, b: Seq<char>, c: Seq<char>, from: int)
    requires
        0 <= from,
        ordered_from(a, b, from),
        ordered_from(b, c, from),
    ensures
        ordered_from(a, c, from),
    decreases a.len() - from,
{
    if from < a.len() && from < b.len() && from < c.len() && a[from] == b[from] && b[from]
        == c[from] {
        transitive_from(a, b, c, from + 1);
    }
}

/// Two paths of which each is at most the other are one path.
pub proof fn order_is_antisymmetric(a: Seq<char>, b: Seq<char>)
    requires
        precedes(a, b),
        precedes(b, a),
    ensures
        a == b,
{
    equal_from(a, b, 0);
    assert(a =~= b);
}

proof fn equal_from(a: Seq<char>, b: Seq<char>, from: int)
    requires
        0 <= from <= a.len(),
        from <= b.len(),
        ordered_from(a, b, from),
        ordered_from(b, a, from),
    ensures
        a.len() == b.len(),
        forall|index: int| from <= index < a.len() ==> a[index] == b[index],
    decreases a.len() - from,
{
    if from < a.len() {
        equal_from(a, b, from + 1);
    }
}

/// What each of the strings of `list` holds.
pub open spec fn texts(list: Seq<String>) -> Seq<Seq<char>> {
    list.map_values(|text: String| text@)
}

/// Whether `paths` come in ascending order.
pub open spec fn ascending(paths: Seq<Seq<char>>) -> bool {
    forall|i: int, j: int|
        0 <= i < j < paths.len() ==> precedes(#[trigger] paths[i], #[trigger] paths[j])
}

/// Puts `path` into the ascending `list` where the order has it; among
/// equal paths, last.
fn insert(list: &mut Vec<String>, path: String)
    requires
        ascending(texts(old(list)@)),
    ensures
        ascending(texts(final(list)@)),
        texts(final(list)@).to_multiset() == texts(old(list)@).to_multiset().insert(path@),
{
    let mut index = list.len();
    while index > 0 && !ordered(list[index - 1].as_str(), path.as_str())
        invariant
            index <= list.len(),
            forall|j: int| index <= j < list.len() ==> !precedes(#[trigger] list@[j]@, path@),
        decreases index,
    {
        index = index - 1;
    }
    let ghost before = texts(list@);
    list.insert(index, path);
    proof {
        let after = texts(list@);
        assert(after =~= before.insert(index as int, path@));
        assert forall|i: int, j: int| 0 <= i < j < after.len() implies precedes(
            #[trigger] after[i],
            #[trigger] after[j],
        ) by {
            if j == index {
                if i < index - 1 {
                    assert(precedes(before[i], before[index - 1]));
                    order_is_transitive(before[i], before[index - 1], path@);
                }
            } else if i == index {
                assert(!precedes(list@[j]@, path@));
                order_is_total(before[j - 1], path@);
            } else if j < index {
                assert(precedes(before[i], before[j]));
            } else if i < index {
                assert(precedes(before[i], before[j - 1]));
            } else {
                assert(precedes(before[i - 1], before[j - 1]));
            }
        }
        assert(after.remove(index as int) =~= before);
        vstd::seq_lib::to_multiset_remove(after, index as int);
        after.to_multiset_ensures();
        assert(after.contains(after[index as int]));
        assert(after.to_multiset() =~= before.to_multiset().insert(path@));
    }
}

/// What a walk of the directory tree found at one place: the path from the
/// working directory to it, and whether a regular file is there.
#[derive(Debug, Clone, PartialEq, Eq)]
pub struct Entry {
    pub path: String,
    pub file: bool,
}

/// Whether `entry` is listed: it is a regular file, and it is not hidden
/// unless hidden files are asked for.
pub open spec fn listed(entry: Entry, hide: bool) -> bool {
    entry.file && !(hide && hidden(entry.path@))
}

/// The paths of the entries that are listed, in the order of `entries`.
pub open spec fn kept(entries: Seq<Entry>, hide: bool) -> Seq<Seq<char>> {
    entries.filter(|entry: Entry| listed(entry, hide)).map_values(|entry: Entry| entry.path@)
}

/// Whether `list` is the listing of `entries`: it holds the paths that are
/// listed, each as often as it was found, in ascending order.
pub open spec fn lists(list: Seq<Seq<char>>, entries: Seq<Entry>, hide: bool) -> bool {
    &&& ascending(list)
    &&& list.to_multiset() == kept(entries, hide).to_multiset()
}

/// The listing of `entries`: the paths of the regular files among them,
/// without the hidden ones where `hide` is set, in ascending order.
pub fn listing(entries: &Vec<Entry>, hide: bool) -> (list: Vec<String>)
    ensures
        lists(texts(list@), entries@, hide),
{
    let mut list: Vec<String> = Vec::new();
    let mut index: usize = 0;
    proof {
        assert(entries@.take(0) =~= Seq::<Entry>::empty());
        assert(texts(list@) =~= Seq::<Seq<char>>::empty());
        assert(kept(Seq::<Entry>::empty(), hide) =~= Seq::<Seq<char>>::empty());
    }
    while index < entries.len()
        invariant
            index <= entries.len(),
            lists(texts(list@), entries@.take(index as int), hide),
        decreases entries.len() - index,
    {
        let entry = &entries[index];
        proof {
            let seen = entries@.take(index as int);
            assert(entries@.take(index + 1) =~= seen.push(*entry));
            seen.lemma_filter_push(*entry, |entry: Entry| listed(entry, hide));
            let chosen = seen.filter(|entry: Entry| listed(entry, hide));
            assert(chosen.push(*entry).map_values(|entry: Entry| entry.path@) =~= chosen.map_values(
                |entry: Entry| entry.path@,
            ).push(entry.path@));
            vstd::seq_lib::to_multiset_build(kept(seen, hide), entry.path@);
        }
        if entry.file && !(hide && is_hidden(entry.path.as_str())) {
            insert(&mut list, entry.path.clone());
        }
        index = index + 1;
    }
    assert(entries@.take(entries.len() as int) =~= entries@);
    list
}

/// A listing is settled by what was found: two listings of the same
/// entries are equal.
pub proof fn listing_is_unique(
    a: Seq<Seq<char>>,
    b: Seq<Seq<char>>,
    entries: Seq<Entry>,
    hide: bool,
)
    requires
        lists(a, entries, hide),
        lists(b, entries, hide),
    ensures
        a == b,
{
    ascending_is_unique(a, b);
}

proof fn ascending_is_unique(a: Seq<Seq<char>>, b: Seq<Seq<char>>)
    requires
        ascending(a),
        ascending(b),
        a.to_multiset() == b.to_multiset(),
    ensures
        a == b,
    decreases a.len(),
{
    a.to_multiset_ensures();
    b.to_multiset_ensures();
    if a.len() > 0 {
        assert(a.contains(a[0]));
        assert(a.to_multiset().count(a[0]) > 0);
        assert(b.contains(a[0]));
        assert(b.contains(b[0]));
        assert(b.to_multiset().count(b[0]) > 0);
        assert(a.contains(b[0]));
        let i = choose|i: int| 0 <= i < b.len() && b[i] == a[0];
        let j = choose|j: int| 0 <= j < a.len() && a[j] == b[0];
        if i > 0 {
            assert(precedes(b[0], b[i]));
        }
        if j > 0 {
            assert(precedes(a[0], a[j]));
        }
        if i > 0 && j > 0 {
            order_is_antisymmetric(a[0], b[0]);
        }
        let x = a.remove(0);
        let y = b.remove(0);
        assert forall|i: int, j: int| 0 <= i < j < x.len() implies precedes(
            #[trigger] x[i],
            #[trigger] x[j],
        ) by {
            assert(precedes(a[i + 1], a[j + 1]));
        }
        assert forall|i: int, j: int| 0 <= i < j < y.len() implies precedes(
            #[trigger] y[i],
            #[trigger] y[j],
        ) by {
            assert(precedes(b[i + 1], b[j + 1]));
        }
        ascending_is_unique(x, y);
        assert(a =~= seq![a[0]] + x);
        assert(b =~= seq![b[0]] + y);
    } else {
        assert(a =~= b);
    }
}

/// Whether `query` occurs in `entry`: as it stands, characters side by
/// side, in upper and lower case as written.
pub open spec fn occurs(entry: Seq<char>, query: Seq<char>) -> bool {
    exists|start: int|
        0 <= start <= entry.len() - query.len() && #[trigger] entry.subrange(
            start,
            start + query.len(),
        ) == query
}

/// `str::contains` of std, called with a string as the pattern. Taken on
/// trust: it returns whether some part of `entry` is equal to `query`, which
/// an empty `query` is to a part of any `entry`.
#[verifier::external_body]
fn contains(entry: &str, query: &str) -> (found: bool)
    ensures
        found == occurs(entry@, query@),
{
    entry.contains(query)
}

/// The entries of `list` in which `query` occurs, in the order of `list`.
pub open spec fn matching(list: Seq<Seq<char>>, query: Seq<char>) -> Seq<Seq<char>> {
    list.filter(|entry: Seq<char>| occurs(entry, query))
}

/// The filtered view of `list`: its entries in which `query` occurs, in
/// the order of `list`.
pub fn filtered(list: &Vec<String>, query: &str) -> (view: Vec<String>)
    ensures
        texts(view@) == matching(texts(list@), query@),
{
    let mut view: Vec<String> = Vec::new();
    let mut index: usize = 0;
    proof {
        assert(texts(list@).take(0) =~= Seq::<Seq<char>>::empty());
        assert(texts(view@) =~= Seq::<Seq<char>>::empty());
    }
    while index < list.len()
        invariant
            index <= list.len(),
            texts(view@) == matching(texts(list@).take(index as int), query@),
        decreases list.len() - index,
    {
        let entry = &list[index];
        proof {
            let seen = texts(list@).take(index as int);
            assert(texts(list@).take(index + 1) =~= seen.push(entry@));
            seen.lemma_filter_push(entry@, |entry: Seq<char>| occurs(entry, query@));
        }
        if contains(entry.as_str(), query) {
            let ghost before = texts(view@);
            view.push(entry.clone());
            assert(texts(view@) =~= before.push(entry@));
        }
        index = index + 1;
    }
    assert(texts(list@).take(list.len() as int) =~= texts(list@));
    view
}

/// An empty query selects everything: the view is the whole listing.
pub proof fn empty_query_selects_all(list: Seq<Seq<char>>)
    ensures
        matching(list, Seq::empty()) == list,
    decreases list.len(),
{
    let none = Seq::<char>::empty();
    if list.len() > 0 {
        let front = list.drop_last();
        let entry = list.last();
        empty_query_selects_all(front);
        assert(list =~= front.push(entry));
        assert(occurs(entry, none)) by {
            assert(entry.subrange(0, 0int + none.len()) =~= none);
        }
        front.lemma_filter_push(entry, |entry: Seq<char>| occurs(entry, none));
        assert(matching(list, none) =~= list);
    } else {
        assert(matching(list, none) =~= list);
    }
}

/// A longer query selects no more: an entry in which `query` followed by
/// `character` occurs is one in which `query` occurs.
pub proof fn longer_query_selects_less(entry: Seq<char>, query: Seq<char>, character: char)
    requires
        occurs(entry, query.push(character)),
    ensures
        occurs(entry, query),
{
    let longer = query.push(character);
    let start = choose|start: int|
        0 <= start <= entry.len() - longer.len() && #[trigger] entry.subrange(
            start,
            start + longer.len(),
        ) == longer;
    assert(entry.subrange(start, start + query.len()) =~= longer.subrange(0, query.len() as int));
    assert(longer.subrange(0, query.len() as int) =~= query);
}

/// A longer query narrows the view: what the view shows for `query`
/// followed by `character`, it shows for `query`.
pub proof fn longer_query_narrows_view(list: Seq<Seq<char>>, query: Seq<char>, character: char)
    ensures
        forall|entry: Seq<char>| #[trigger]
            matching(list, query.push(character)).contains(entry) ==> matching(
                list,
                query,
            ).contains(entry),
        matching(list, query.push(character)) == matching(
            matching(list, query),
            query.push(character),
        ),
{
    let longer = query.push(character);
    assert forall|entry: Seq<char>| #[trigger]
        matching(list, longer).contains(entry) implies matching(list, query).contains(entry) by {
        let narrow = matching(list, longer);
        let at = choose|at: int| 0 <= at < narrow.len() && narrow[at] == entry;
        list.lemma_filter_pred(|entry: Seq<char>| occurs(entry, longer), at);
        list.lemma_filter_contains_rev(|entry: Seq<char>| occurs(entry, longer), entry);
        longer_query_selects_less(entry, query, character);
        let found = choose|found: int| 0 <= found < list.len() && list[found] == entry;
        list.lemma_filter_contains(|entry: Seq<char>| occurs(entry, query), found);
    }
    refined(list, query, character);
}

proof fn refined(list: Seq<Seq<char>>, query: Seq<char>, character: char)
    ensures
        matching(list, query.push(character)) == matching(
            matching(list, query),
            query.push(character),
        ),
    decreases list.len(),
{
    let longer = query.push(character);
    if list.len() > 0 {
        let front = list.drop_last();
        let entry = list.last();
        refined(front, query, character);
        assert(list =~= front.push(entry));
        front.lemma_filter_push(entry, |entry: Seq<char>| occurs(entry, longer));
        front.lemma_filter_push(entry, |entry: Seq<char>| occurs(entry, query));
        if occurs(entry, longer) {
            longer_query_selects_less(entry, query, character);
        }
        matching(front, query).lemma_filter_push(entry, |entry: Seq<char>| occurs(entry, longer));
    } else {
        assert(matching(list, query) =~= list);
        assert(matching(list, longer) =~= list);
    }
}

} // verus!
