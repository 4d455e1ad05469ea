//! Small functions on text that the handlers share.

use vstd::prelude::*;
use vstd::string::*;

verus! {

/// Whether two texts hold the same characters.
pub fn same_text(a: &str, b: &str) -> (r: bool)
    ensures
        r == (a@ == b@),
{
    a.to_owned() == b.to_owned()
}

/// The text `a` followed by the text `b`.
pub fn concat(a: &str, b: &str) -> (r: String)
    ensures
        r@ == a@ + b@,
{
    let mut out = a.to_owned();
    out.append(b);
    out
}

/// The pieces of `s` between the occurrences of `sep`: one more than there are occurrences.
pub open spec fn split_on(s: Seq<char>, sep: char) -> Seq<Seq<char>>
    decreases s.len(),
{
    if s.len() == 0 {
        seq![Seq::<char>::empty()]
    } else {
        let before = split_on(s.drop_last(), sep);
        if s.last() == sep {
            before.push(Seq::<char>::empty())
        } else {
            before.drop_last().push(before.last().push(s.last()))
        }
    }
}

/// A text has at least one piece.
pub proof fn lemma_split_on_nonempty(s: Seq<char>, sep: char)
    ensures
        split_on(s, sep).len() >= 1,
    decreases s.len(),
{
    if s.len() > 0 {
        lemma_split_on_nonempty(s.drop_last(), sep);
    }
}

/// Text without the separator adds no piece.
pub proof fn lemma_split_on_append(s: Seq<char>, tail: Seq<char>, sep: char)
    requires
        !tail.contains(sep),
    ensures
        split_on(s + tail, sep).len() == split_on(s, sep).len(),
    decreases tail.len(),
{
    if tail.len() == 0 {
        assert(s + tail =~= s);
    } else {
        assert((s + tail).drop_last() =~= s + tail.drop_last());
        assert(tail[tail.len() - 1] == tail.last());
        assert forall|i: int| 0 <= i < tail.drop_last().len() implies tail.drop_last()[i] != sep by {
            assert(tail[i] != sep);
        }
        lemma_split_on_append(s, tail.drop_last(), sep);
        lemma_split_on_nonempty(s + tail.drop_last(), sep);
    }
}

/// Splits `s` at every occurrence of `sep`.
pub fn split_text(s: &str, sep: char) -> (r: Vec<String>)
    ensures
        r@.len() == split_on(s@, sep).len(),
        forall|i: int| 0 <= i < r@.len() ==> (#[trigger] r@[i])@ == split_on(s@, sep)[i],
{
    let n: usize = s.unicode_len();
    let mut parts: Vec<String> = Vec::new();
    let mut start: usize = 0;
    let mut i: usize = 0;
    assert(s@.take(0) =~= Seq::<char>::empty());
    assert(s@.subrange(0, 0) =~= Seq::<char>::empty());
    while i < n
        invariant
            n == s@.len(),
            start <= i <= n,
            parts@.len() + 1 == split_on(s@.take(i as int), sep).len(),
            forall|k: int|
                0 <= k < parts@.len() ==> (#[trigger] parts@[k])@ == split_on(
                    s@.take(i as int),
                    sep,
                )[k],
            split_on(s@.take(i as int), sep).last() == s@.subrange(start as int, i as int),
        decreases n - i,
    {
        let c = s.get_char(i);
        assert(s@.take(i + 1).drop_last() =~= s@.take(i as int));
        assert(s@.take(i + 1).last() == c);
        if c == sep {
            let piece = s.substring_char(start, i).to_owned();
            parts.push(piece);
            start = i + 1;
            assert(s@.subrange(i + 1, i + 1) =~= Seq::<char>::empty());
        } else {
            assert(s@.subrange(start as int, i + 1) =~= s@.subrange(start as int, i as int).push(c));
        }
        i = i + 1;
    }
    assert(s@.take(n as int) =~= s@);
    parts.push(s.substring_char(start, n).to_owned());
    parts
}

/// The form of a URI that carries its type and id only: `spotify:user:{user}:{type}:{id}`
/// becomes `spotify:{type}:{id}`, and a URI with any other number of parts stays as it is.
pub open spec fn short_uri(uri: Seq<char>) -> Seq<char> {
    let parts = split_on(uri, ':');
    if parts.len() == 5 {
        parts[0] + seq![':'] + parts[3] + seq![':'] + parts[4]
    } else {
        uri
    }
}

/// Drops the owner from a URI of the form `spotify:user:{user}:{type}:{id}`.
pub fn parse_uri(uri: &str) -> (r: String)
    ensures
        r@ == short_uri(uri@),
{
    let parts = split_text(uri, ':');
    if parts.len() == 5 {
        proof {
            reveal_strlit(":");
            assert(":"@ =~= seq![':']);
        }
        let mut out = parts[0].clone();
        out.append(":");
        out.append(parts[3].as_str());
        out.append(":");
        out.append(parts[4].as_str());
        out
    } else {
        uri.to_owned()
    }
}

/// The texts of `names`, with `sep` between one and the next.
pub open spec fn joined(names: Seq<String>, sep: Seq<char>) -> Seq<char>
    decreases names.len(),
{
    if names.len() == 0 {
        Seq::empty()
    } else if names.len() == 1 {
        names[0]@
    } else {
        joined(names.drop_last(), sep) + sep + names.last()@
    }
}

/// Joins `names` with `sep` between one and the next.
pub fn map_join(names: &Vec<String>, sep: &str) -> (r: String)
    ensures
        r@ == joined(names@, sep@),
{
    let mut out = String::new();
    let mut i: usize = 0;
    assert(names@.take(0) =~= Seq::<String>::empty());
    while i < names.len()
        invariant
            i <= names@.len(),
            out@ == joined(names@.take(i as int), sep@),
        decreases names.len() - i,
    {
        assert(names@.take(i + 1).drop_last() =~= names@.take(i as int));
        if i > 0 {
            out.append(sep);
        }
        out.append(names[i].as_str());
        assert(i == 0 ==> out@ =~= names@[0]@);
        i = i + 1;
    }
    assert(names@.take(names@.len() as int) =~= names@);
    out
}

} // verus!
