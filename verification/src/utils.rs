//! Cutting text: a part of a string by bytes, and the lines of a text.

use crate::coords::EOL;
use std::ops::Range;
use vstd::prelude::*;
use vstd::std_specs::iter::IteratorSpec;
use vstd::string::StringSliceAdditionalSpecFns;
use vstd::utf8::{decode_utf8, encode_utf8, is_char_boundary};

verus! {

/// The carriage return, which may stand before a line terminator.
pub const CR: char = '\r';

/// The part of `text` whose bytes run from `start` to `end`, or to the end
/// of `text` where that comes first. Where `start` lies after that, or one
/// of the two cuts a character in two, the part is empty.
pub open spec fn clipped(text: Seq<char>, start: int, end: int) -> Seq<char> {
    let bytes = encode_utf8(text);
    let stop = if end < bytes.len() {
        end
    } else {
        bytes.len() as int
    };
    if 0 <= start <= stop && is_char_boundary(bytes, start) && is_char_boundary(bytes, stop) {
        decode_utf8(bytes.subrange(start, stop))
    } else {
        Seq::empty()
    }
}

/// The part of `string` in the byte range `range`, as far as `string`
/// goes; nothing where the range does not lie on character boundaries.
pub fn sub(string: &str, range: Range<usize>) -> (part: &str)
    ensures
        part@ == clipped(string@, range.start as int, range.end as int),
{
    broadcast use vstd::utf8::encode_utf8_valid_utf8;
    broadcast use vstd::utf8::encode_utf8_decode_utf8;

    let length = string.as_bytes().len();
    let stop = if range.end < length {
        range.end
    } else {
        length
    };
    if range.start <= stop && string.is_char_boundary(range.start) && string.is_char_boundary(
        stop,
    ) {
        let (_, tail) = string.split_at(range.start);
        proof {
            let bytes = string.spec_bytes();
            let rest = tail.spec_bytes();
            assert(rest == bytes.subrange(range.start as int, length as int));
            if stop < length {
                vstd::utf8::is_char_boundary_iff_not_is_continuation_byte(bytes, stop as int);
                vstd::utf8::is_char_boundary_iff_not_is_continuation_byte(
                    rest,
                    stop - range.start,
                );
            } else {
                vstd::utf8::is_char_boundary_start_end_of_seq(rest);
            }
        }
        let (part, _) = tail.split_at(stop - range.start);
        proof {
            assert(part.spec_bytes() =~= string.spec_bytes().subrange(
                range.start as int,
                stop as int,
            ));
        }
        part
    } else {
        proof {
            reveal_strlit("");
            assert(""@ =~= Seq::<char>::empty());
        }
        ""
    }
}

/// How many characters of `text` stand before its first line terminator.
pub open spec fn line_length(text: Seq<char>) -> nat
    decreases text.len(),
{
    if text.len() == 0 || text[0] == EOL {
        0
    } else {
        1 + line_length(text.drop_first())
    }
}

/// A line without the carriage return that stood before its terminator.
pub open spec fn chomped(line: Seq<char>) -> Seq<char> {
    if line.len() > 0 && line.last() == CR {
        line.drop_last()
    } else {
        line
    }
}

/// The lines of `text`. A line ends at a line terminator, which is not
/// part of it, nor is a carriage return right before the terminator. What
/// follows the last terminator is a line if it is not empty.
pub open spec fn lines_of(text: Seq<char>) -> Seq<Seq<char>>
    decreases text.len(),
{
    let length = line_length(text);
    if text.len() == 0 {
        Seq::empty()
    } else if length >= text.len() {
        seq![text]
    } else {
        seq![chomped(text.subrange(0, length as int))] + lines_of(
            text.subrange(length as int + 1, text.len() as int),
        )
    }
}

/// The `limit` items of `items` from index `first` on, as far as there are
/// any.
pub open spec fn window<T>(items: Seq<T>, first: int, limit: int) -> Seq<T> {
    let from = if first < items.len() {
        first
    } else {
        items.len() as int
    };
    let to = if first + limit < items.len() {
        first + limit
    } else {
        items.len() as int
    };
    items.subrange(from, to)
}

/// A text without a line terminator in its first `length` characters, and
/// with one after them or nothing, has its first line there.
proof fn line_ends(text: Seq<char>, length: nat)
    requires
        length <= text.len(),
        forall|index: int| 0 <= index < length ==> text[index] != EOL,
        length < text.len() ==> text[length as int] == EOL,
    ensures
        line_length(text) == length,
    decreases length,
{
    if length > 0 {
        line_ends(text.drop_first(), (length - 1) as nat);
    }
}

/// The lines of `content` from line `first` on, `limit` of them at most.
pub fn lines(content: &str, first: usize, limit: usize) -> (rows: Vec<String>)
    ensures
        crate::listing::texts(rows@) == window(lines_of(content@), first as int, limit as int),
{
    broadcast use vstd::string::group_string_axioms;

    let ghost text = content@;
    let ghost total = text.len() as int;
    let mut rows: Vec<String> = Vec::new();
    let mut row = String::new();
    let mut pending = false;
    let mut started = false;
    let mut skip = first;
    let mut chars = content.chars();
    let ghost mut count: int = 0;
    let ghost mut begin: int = 0;
    let ghost mut done: Seq<Seq<char>> = Seq::empty();
    proof {
        assert(text.subrange(0, total) =~= text);
        assert(crate::listing::texts(rows@) =~= window(done, first as int, limit as int));
    }
    loop
        invariant_except_break
            chars.obeys_prophetic_iter_laws(),
            chars.remaining() == text.subrange(count, total),
        invariant
            text == content@,
            total == text.len(),
            0 <= begin <= count <= total,
            skip <= first,
            done.len() == first - skip + rows.len(),
            skip > 0 ==> rows.len() == 0 && row@.len() == 0,
            rows.len() <= limit,
            lines_of(text) == done + lines_of(text.subrange(begin, total)),
            forall|index: int| begin <= index < count ==> text[index] != EOL,
            crate::listing::texts(rows@) == window(done, first as int, limit as int),
            started == (begin < count),
            skip == 0 ==> row@ + (if pending {
                seq![CR]
            } else {
                Seq::empty()
            }) == text.subrange(begin, count),
            !pending ==> row@.len() == 0 || row@.last() != CR,
        ensures
            count == total || (skip == 0 && rows.len() == limit),
        decreases total - count,
    {
        if skip == 0 && rows.len() >= limit {
            break ;
        }
        match chars.next() {
            None => {
                break ;
            },
            Some(character) => {
                assert(character == text[count]);
                if character == EOL {
                    let ghost rest = text.subrange(begin, total);
                    let ghost finished = chomped(text.subrange(begin, count));
                    let ghost before = crate::listing::texts(rows@);
                    proof {
                        line_ends(rest, (count - begin) as nat);
                        assert(rest.subrange(0, count - begin) =~= text.subrange(begin, count));
                        assert(rest.subrange(count - begin + 1, rest.len() as int)
                            =~= text.subrange(count + 1, total));
                        assert(lines_of(text) =~= done.push(finished) + lines_of(
                            text.subrange(count + 1, total),
                        ));
                    }
                    if skip == 0 {
                        assert(row@ =~= finished);
                        rows.push(row);
                        row = String::new();
                        assert(crate::listing::texts(rows@) =~= before.push(finished));
                    } else {
                        skip = skip - 1;
                    }
                    proof {
                        done = done.push(finished);
                        begin = count + 1;
                    }
                    pending = false;
                    started = false;
                } else {
                    if skip == 0 {
                        if pending {
                            row.push(CR);
                        }
                        if character != CR {
                            row.push(character);
                        }
                        assert(row@ + (if character == CR {
                            seq![CR]
                        } else {
                            Seq::empty()
                        }) =~= text.subrange(begin, count + 1));
                    }
                    pending = character == CR;
                    started = true;
                }
                proof {
                    count = count + 1;
                }
            },
        }
    }
    proof {
        if count == total {
            let rest = text.subrange(begin, total);
            if started {
                line_ends(rest, rest.len());
                assert(lines_of(text) =~= done.push(rest));
            } else {
                assert(lines_of(text) =~= done);
            }
        }
    }
    if started && skip == 0 && rows.len() < limit {
        if pending {
            row.push(CR);
        }
        let ghost before = crate::listing::texts(rows@);
        assert(row@ =~= text.subrange(begin, total));
        rows.push(row);
        assert(crate::listing::texts(rows@) =~= before.push(text.subrange(begin, total)));
    }
    rows
}

/// The `limit` strings of `list` from index `first` on, as far as there
/// are any.
pub fn slice(list: &Vec<String>, first: usize, limit: usize) -> (part: Vec<String>)
    ensures
        crate::listing::texts(part@) == window(
            crate::listing::texts(list@),
            first as int,
            limit as int,
        ),
{
    let mut part: Vec<String> = Vec::new();
    let mut index = if first < list.len() {
        first
    } else {
        list.len()
    };
    let ghost from = index;
    while index < list.len() && part.len() < limit
        invariant
            from <= index <= list.len(),
            part@.len() == index - from,
            part@.len() <= limit,
            forall|at: int| 0 <= at < part@.len() ==> (#[trigger] part@[at])@ == list@[from + at]@,
        decreases list.len() - index,
    {
        part.push(list[index].clone());
        index = index + 1;
    }
    assert(crate::listing::texts(part@) =~= window(
        crate::listing::texts(list@),
        first as int,
        limit as int,
    ));
    part
}

} // verus!
