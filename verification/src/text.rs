//! Sequences of characters: joining with a separator, and occurrence of one
//! text inside another.
use vstd::prelude::*;
use vstd::string::StringExecFns;

verus! {

/// The texts of a sequence of strings, in order.
pub open spec fn texts(parts: Seq<String>) -> Seq<Seq<char>> {
    parts.map_values(|part: String| part@)
}

/// The first `n` of `parts`, with `sep` between each two neighbours.
pub open spec fn join_first(parts: Seq<Seq<char>>, sep: Seq<char>, n: nat) -> Seq<char>
    decreases n,
{
    if n == 0 {
        Seq::empty()
    } else if n == 1 {
        parts[0]
    } else {
        join_first(parts, sep, (n - 1) as nat) + sep + parts[n - 1]
    }
}

/// All of `parts`, with `sep` between each two neighbours.
pub open spec fn join(parts: Seq<Seq<char>>, sep: Seq<char>) -> Seq<char> {
    join_first(parts, sep, parts.len())
}

/// `part` stands in `text` at offset `at`.
pub open spec fn occurs_at(text: Seq<char>, part: Seq<char>, at: int) -> bool {
    &&& 0 <= at
    &&& at + part.len() <= text.len()
    &&& text.subrange(at, at + part.len()) == part
}

/// `part` stands somewhere in `text`.
pub open spec fn occurs_in(text: Seq<char>, part: Seq<char>) -> bool {
    exists|at: int| occurs_at(text, part, at)
}

/// `text` begins with `head`.
pub open spec fn starts_with(text: Seq<char>, head: Seq<char>) -> bool {
    occurs_at(text, head, 0)
}

/// A text that is written between two others occurs in the whole, right
/// after the first.
pub proof fn lemma_occurs_between(before: Seq<char>, part: Seq<char>, after: Seq<char>)
    ensures
        occurs_at(before + part + after, part, before.len() as int),
        occurs_in(before + part + after, part),
{
    let whole = before + part + after;
    let at = before.len() as int;
    assert(whole.subrange(at, at + part.len()) =~= part);
}

/// A text begins with whatever it was built from first.
pub proof fn lemma_starts_with_head(head: Seq<char>, rest: Seq<char>)
    ensures
        starts_with(head + rest, head),
{
    assert((head + rest).subrange(0, head.len() as int) =~= head);
}

/// Joins `parts` with `sep` between each two neighbours.
pub fn join_strings(parts: &[String], sep: &str) -> (out: String)
    ensures
        out@ == join(texts(parts@), sep@),
{
    let mut out = String::new();
    let mut i: usize = 0;
    while i < parts.len()
        invariant
            i <= parts.len(),
            out@ == join_first(texts(parts@), sep@, i as nat),
        decreases parts.len() - i,
    {
        if i > 0 {
            out.append(sep);
        } else {
            assert(Seq::<char>::empty() + parts[0]@ =~= parts[0]@);
        }
        out.append(parts[i].as_str());
        i += 1;
    }
    out
}

} // verus!
