//! Text building blocks shared by every renderer: concatenation, line
//! lists and separated lists, both as specifications over character
//! sequences and as executable helpers that append to a `String`.
use vstd::prelude::*;

verus! {

/// The parts, one after another.
pub open spec fn concat(parts: Seq<Seq<char>>) -> Seq<char>
    decreases parts.len(),
{
    if parts.len() == 0 {
        Seq::empty()
    } else {
        concat(parts.drop_last()) + parts.last()
    }
}

/// Each part followed by a line break.
pub open spec fn lines(parts: Seq<Seq<char>>) -> Seq<char>
    decreases parts.len(),
{
    if parts.len() == 0 {
        Seq::empty()
    } else {
        lines(parts.drop_last()) + parts.last() + seq!['\n']
    }
}

/// The parts with `sep` between each two neighbours.
pub open spec fn join(parts: Seq<Seq<char>>, sep: Seq<char>) -> Seq<char>
    decreases parts.len(),
{
    if parts.len() == 0 {
        Seq::empty()
    } else if parts.len() == 1 {
        parts[0]
    } else {
        join(parts.drop_last(), sep) + sep + parts.last()
    }
}

/// The character sequences held by a list of strings.
pub open spec fn texts(v: Seq<String>) -> Seq<Seq<char>> {
    v.map_values(|s: String| s@)
}

/// The character sequences held by a list of string slices.
pub open spec fn strs(v: Seq<&str>) -> Seq<Seq<char>> {
    v.map_values(|s: &str| s@)
}

pub proof fn lemma_concat_push(parts: Seq<Seq<char>>, p: Seq<char>)
    ensures
        concat(parts.push(p)) == concat(parts) + p,
{
    assert(parts.push(p).drop_last() =~= parts);
}

pub proof fn lemma_lines_push(parts: Seq<Seq<char>>, p: Seq<char>)
    ensures
        lines(parts.push(p)) == lines(parts) + p + seq!['\n'],
{
    assert(parts.push(p).drop_last() =~= parts);
}

pub proof fn lemma_join_push(parts: Seq<Seq<char>>, p: Seq<char>, sep: Seq<char>)
    ensures
        parts.len() == 0 ==> join(parts.push(p), sep) == p,
        parts.len() > 0 ==> join(parts.push(p), sep) == join(parts, sep) + sep + p,
{
    assert(parts.push(p).drop_last() =~= parts);
}

/// Appends every string of `parts`, in order.
pub fn append_concat(buf: &mut String, parts: &Vec<String>)
    ensures
        final(buf)@ == old(buf)@ + concat(texts(parts@)),
{
    let mut i: usize = 0;
    while i < parts.len()
        invariant
            i <= parts.len(),
            buf@ == old(buf)@ + concat(texts(parts@).take(i as int)),
        decreases parts.len() - i,
    {
        proof {
            lemma_concat_push(texts(parts@).take(i as int), parts@[i as int]@);
            assert(texts(parts@).take(i as int).push(parts@[i as int]@) =~= texts(parts@).take(
                i + 1,
            ));
        }
        buf.append(parts[i].as_str());
        i += 1;
    }
    assert(texts(parts@).take(i as int) =~= texts(parts@));
}

/// Appends every string of `parts`, each followed by a line break.
pub fn append_lines(buf: &mut String, parts: &Vec<String>)
    ensures
        final(buf)@ == old(buf)@ + lines(texts(parts@)),
{
    let mut i: usize = 0;
    while i < parts.len()
        invariant
            i <= parts.len(),
            buf@ == old(buf)@ + lines(texts(parts@).take(i as int)),
        decreases parts.len() - i,
    {
        proof {
            lemma_lines_push(texts(parts@).take(i as int), parts@[i as int]@);
            assert(texts(parts@).take(i as int).push(parts@[i as int]@) =~= texts(parts@).take(
                i + 1,
            ));
        }
        proof {
            reveal_strlit("\n");
        }
        buf.append(parts[i].as_str());
        buf.append("\n");
        i += 1;
    }
    assert(texts(parts@).take(i as int) =~= texts(parts@));
}

/// Appends the strings of `parts` with `sep` between each two neighbours.
pub fn append_joined(buf: &mut String, parts: &Vec<String>, sep: &str)
    ensures
        final(buf)@ == old(buf)@ + join(texts(parts@), sep@),
{
    let mut i: usize = 0;
    while i < parts.len()
        invariant
            i <= parts.len(),
            buf@ == old(buf)@ + join(texts(parts@).take(i as int), sep@),
        decreases parts.len() - i,
    {
        proof {
            lemma_join_push(texts(parts@).take(i as int), parts@[i as int]@, sep@);
            assert(texts(parts@).take(i as int).push(parts@[i as int]@) =~= texts(parts@).take(
                i + 1,
            ));
        }
        if i > 0 {
            buf.append(sep);
        }
        buf.append(parts[i].as_str());
        i += 1;
    }
    assert(texts(parts@).take(i as int) =~= texts(parts@));
}

/// Appends `more` to `v`, keeping the order of both.
pub fn extend_strings(v: &mut Vec<String>, more: Vec<&str>)
    ensures
        texts(final(v)@) == texts(old(v)@) + strs(more@),
{
    let mut i: usize = 0;
    while i < more.len()
        invariant
            i <= more.len(),
            v@.len() == old(v)@.len() + i,
            texts(v@) == texts(old(v)@) + strs(more@).take(i as int),
        decreases more.len() - i,
    {
        let s: &str = more[i];
        let owned = s.to_string();
        assert(owned@ == s@);
        let ghost prev = v@;
        v.push(owned);
        assert(texts(v@) =~= texts(prev).push(s@));
        assert(strs(more@).take(i + 1) =~= strs(more@).take(i as int).push(s@));
        i += 1;
        assert(texts(v@) =~= texts(old(v)@) + strs(more@).take(i as int));
    }
    assert(strs(more@).take(i as int) =~= strs(more@));
}

} // verus!
