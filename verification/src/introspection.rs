//! Introspection: the names bound in a session, as one line of text for the
//! host.

use vstd::prelude::*;
use crate::interpreter::{texts, Text};

verus! {

/// What stands between two names in a listing.
pub open spec fn separator() -> Text {
    ", "@
}

/// The parts in their order, with `between` between each two of them.
pub open spec fn joined(parts: Seq<Text>, between: Text) -> Text
    decreases parts.len(),
{
    if parts.len() == 0 {
        Seq::empty()
    } else if parts.len() == 1 {
        parts[0]
    } else {
        joined(parts.drop_last(), between) + between + parts.last()
    }
}

/// Renders the names of a session's bindings, which the interpreter core
/// gives in the order of their definition: the names in that order, separated
/// by a comma and a space.
pub fn defined_variables(names: &Vec<String>) -> (listing: String)
    ensures
        listing@ == joined(texts(names@), separator()),
{
    let mut listing = String::new();
    let mut done: usize = 0;
    while done < names.len()
        invariant
            done <= names.len(),
            listing@ == joined(texts(names@).take(done as int), separator()),
        decreases names.len() - done,
    {
        if done > 0 {
            listing.append(", ");
        }
        listing.append(names[done].as_str());
        proof {
            let parts = texts(names@);
            assert(parts.take(done + 1).drop_last() =~= parts.take(done as int));
            assert(parts.take(done + 1).last() == names@[done as int]@);
        }
        done += 1;
    }
    assert(texts(names@).take(names.len() as int) =~= texts(names@));
    listing
}

/// The length of a listing: the lengths of the parts, and of one separator
/// for each part but the first.
pub open spec fn total_len(parts: Seq<Text>, between: Text) -> nat
    decreases parts.len(),
{
    if parts.len() == 0 {
        0
    } else if parts.len() == 1 {
        parts[0].len()
    } else {
        total_len(parts.drop_last(), between) + between.len() + parts.last().len()
    }
}

/// Where part `place` begins in a listing: after the parts before it, their
/// separators, and the separator in front of it.
pub open spec fn offset(parts: Seq<Text>, between: Text, place: int) -> int {
    if place > 0 {
        (total_len(parts.take(place), between) + between.len()) as int
    } else {
        0
    }
}

/// A listing holds every part, whole and in order: part `place` stands in it
/// at its offset.
pub proof fn lemma_joined_holds_each_part(parts: Seq<Text>, between: Text, place: int)
    requires
        0 <= place < parts.len(),
    ensures
        joined(parts, between).len() == total_len(parts, between),
        offset(parts, between, place) + parts[place].len() <= joined(parts, between).len(),
        joined(parts, between).subrange(
            offset(parts, between, place),
            offset(parts, between, place) + parts[place].len(),
        ) == parts[place],
    decreases parts.len(),
{
    lemma_joined_len(parts, between);
    let start = offset(parts, between, place);
    if place == parts.len() - 1 {
        assert(parts.take(place) =~= parts.drop_last());
        lemma_joined_len(parts.drop_last(), between);
        assert(joined(parts, between).subrange(start, start + parts[place].len())
            =~= parts[place]);
    } else {
        let front = parts.drop_last();
        lemma_joined_holds_each_part(front, between, place);
        assert(front.take(place) =~= parts.take(place));
        assert(joined(parts, between).subrange(start, start + parts[place].len()) =~= joined(
            front,
            between,
        ).subrange(start, start + parts[place].len()));
    }
}

proof fn lemma_joined_len(parts: Seq<Text>, between: Text)
    ensures
        joined(parts, between).len() == total_len(parts, between),
    decreases parts.len(),
{
    if parts.len() > 1 {
        lemma_joined_len(parts.drop_last(), between);
    }
}

} // verus!
