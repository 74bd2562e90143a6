//! Whitespace normalisation, for comparing rendered source text whose
//! indentation and blank lines do not matter.
use vstd::prelude::*;

use crate::text::join;

verus! {

/// The characters with the Unicode `White_Space` property.
pub open spec fn is_whitespace(c: char) -> bool {
    let u = c as u32;
    (9 <= u <= 13) || u == 32 || u == 0x85 || u == 0xA0 || u == 0x1680 || (0x2000 <= u <= 0x200A)
        || u == 0x2028 || u == 0x2029 || u == 0x202F || u == 0x205F || u == 0x3000
}

/// `l` without its leading whitespace.
pub open spec fn trim_start(l: Seq<char>) -> Seq<char>
    decreases l.len(),
{
    if l.len() > 0 && is_whitespace(l[0]) {
        trim_start(l.drop_first())
    } else {
        l
    }
}

/// `l` without its trailing whitespace.
pub open spec fn trim_end(l: Seq<char>) -> Seq<char>
    decreases l.len(),
{
    if l.len() > 0 && is_whitespace(l.last()) {
        trim_end(l.drop_last())
    } else {
        l
    }
}

/// `l` without leading or trailing whitespace.
pub open spec fn trim(l: Seq<char>) -> Seq<char> {
    trim_end(trim_start(l))
}

/// The pieces of `s` between line breaks; there is always at least one.
pub open spec fn split_lines(s: Seq<char>) -> Seq<Seq<char>>
    decreases s.len(),
{
    if s.len() == 0 {
        seq![Seq::empty()]
    } else {
        let p = split_lines(s.drop_last());
        if s.last() == '\n' {
            p.push(Seq::empty())
        } else {
            p.update(p.len() - 1, p.last().push(s.last()))
        }
    }
}

/// The lines of `ls` that are not empty, in order.
pub open spec fn non_empty(ls: Seq<Seq<char>>) -> Seq<Seq<char>>
    decreases ls.len(),
{
    if ls.len() == 0 {
        Seq::empty()
    } else if ls.last().len() == 0 {
        non_empty(ls.drop_last())
    } else {
        non_empty(ls.drop_last()).push(ls.last())
    }
}

/// Each line trimmed, blank lines dropped, the rest joined by line breaks.
pub open spec fn normalized(s: Seq<char>) -> Seq<char> {
    join(non_empty(split_lines(s).map_values(|l: Seq<char>| trim(l))), seq!['\n'])
}

proof fn lemma_split_lines_len(s: Seq<char>)
    ensures
        split_lines(s).len() >= 1,
    decreases s.len(),
{
    if s.len() > 0 {
        lemma_split_lines_len(s.drop_last());
    }
}

/// Whether `c` has the Unicode `White_Space` property.
pub fn is_whitespace_char(c: char) -> (r: bool)
    ensures
        r == is_whitespace(c),
{
    let u = c as u32;
    (9 <= u && u <= 13) || u == 32 || u == 0x85 || u == 0xA0 || u == 0x1680 || (0x2000 <= u && u
        <= 0x200A) || u == 0x2028 || u == 0x2029 || u == 0x202F || u == 0x205F || u == 0x3000
}

/// `l` without leading or trailing whitespace.
pub fn trim_str(l: &str) -> (r: &str)
    ensures
        r@ == trim(l@),
{
    let n = l.unicode_len();
    let mut lo: usize = 0;
    assert(l@.subrange(0, n as int) =~= l@);
    while lo < n && is_whitespace_char(l.get_char(lo))
        invariant
            lo <= n,
            n == l@.len(),
            trim_start(l@) == trim_start(l@.subrange(lo as int, n as int)),
        decreases n - lo,
    {
        assert(l@.subrange(lo as int, n as int).drop_first() =~= l@.subrange(lo + 1, n as int));
        lo += 1;
    }
    assert(trim_start(l@.subrange(lo as int, n as int)) == l@.subrange(lo as int, n as int));
    let mut hi: usize = n;
    while hi > lo && is_whitespace_char(l.get_char(hi - 1))
        invariant
            lo <= hi <= n,
            n == l@.len(),
            trim(l@) == trim_end(l@.subrange(lo as int, hi as int)),
        decreases hi - lo,
    {
        assert(l@.subrange(lo as int, hi as int).drop_last() =~= l@.subrange(
            lo as int,
            hi - 1,
        ));
        hi -= 1;
    }
    l.substring_char(lo, hi)
}

/// Normalises the whitespace of source text: each line is trimmed, blank
/// lines are dropped, and the remaining lines are joined by line breaks.
pub fn norm_whitespace(s: &str) -> (r: String)
    ensures
        r@ == normalized(s@),
{
    let n = s.unicode_len();
    let mut out = String::new();
    let ghost mut done: Seq<Seq<char>> = Seq::empty();
    let mut start: usize = 0;
    let mut i: usize = 0;
    proof {
        reveal_strlit("\n");
        assert(s@.take(0) =~= Seq::<char>::empty());
        assert(s@.subrange(0, 0) =~= Seq::<char>::empty());
    }
    while i < n
        invariant
            start <= i <= n,
            n == s@.len(),
            split_lines(s@.take(i as int)) == done.push(s@.subrange(start as int, i as int)),
            out@ == join(non_empty(done.map_values(|l: Seq<char>| trim(l))), seq!['\n']),
        decreases n - i,
    {
        let c = s.get_char(i);
        assert(s@.take(i + 1).drop_last() =~= s@.take(i as int));
        if c == '\n' {
            let line = trim_str(s.substring_char(start, i));
            let ghost raw = s@.subrange(start as int, i as int);
            proof {
                assert(done.push(raw).map_values(|l: Seq<char>| trim(l)) =~= done.map_values(
                    |l: Seq<char>| trim(l),
                ).push(trim(raw)));
                assert(done.push(raw).map_values(|l: Seq<char>| trim(l)).drop_last()
                    =~= done.map_values(|l: Seq<char>| trim(l)));
                reveal_strlit("\n");
            }
            if line.unicode_len() > 0 {
                if out.as_str().unicode_len() > 0 {
                    proof {
                        crate::text::lemma_join_push(
                            non_empty(done.map_values(|l: Seq<char>| trim(l))),
                            line@,
                            seq!['\n'],
                        );
                    }
                    out.append("\n");
                } else {
                    proof {
                        lemma_non_empty(done.map_values(|l: Seq<char>| trim(l)));
                        lemma_join_empty(non_empty(done.map_values(|l: Seq<char>| trim(l))));
                        crate::text::lemma_join_push(
                            non_empty(done.map_values(|l: Seq<char>| trim(l))),
                            line@,
                            seq!['\n'],
                        );
                    }
                }
                out.append(line);
            }
            proof {
                done = done.push(raw);
                assert(s@.subrange(i + 1, i + 1) =~= Seq::<char>::empty());
            }
            start = i + 1;
        } else {
            proof {
                lemma_split_lines_len(s@.take(i as int));
                assert(s@.subrange(start as int, i + 1) =~= s@.subrange(start as int, i as int).push(
                    c,
                ));
            }
        }
        i += 1;
    }
    assert(s@.take(n as int) =~= s@);
    let line = trim_str(s.substring_char(start, n));
    let ghost raw = s@.subrange(start as int, n as int);
    proof {
        assert(done.push(raw).map_values(|l: Seq<char>| trim(l)) =~= done.map_values(
            |l: Seq<char>| trim(l),
        ).push(trim(raw)));
        assert(done.push(raw).map_values(|l: Seq<char>| trim(l)).drop_last() =~= done.map_values(
            |l: Seq<char>| trim(l),
        ));
        reveal_strlit("\n");
    }
    if line.unicode_len() > 0 {
        if out.as_str().unicode_len() > 0 {
            proof {
                crate::text::lemma_join_push(
                    non_empty(done.map_values(|l: Seq<char>| trim(l))),
                    line@,
                    seq!['\n'],
                );
            }
            out.append("\n");
        } else {
            proof {
                lemma_non_empty(done.map_values(|l: Seq<char>| trim(l)));
                lemma_join_empty(non_empty(done.map_values(|l: Seq<char>| trim(l))));
                crate::text::lemma_join_push(
                    non_empty(done.map_values(|l: Seq<char>| trim(l))),
                    line@,
                    seq!['\n'],
                );
            }
        }
        out.append(line);
    }
    out
}

proof fn lemma_non_empty(ls: Seq<Seq<char>>)
    ensures
        forall|k: int| 0 <= k < non_empty(ls).len() ==> #[trigger] non_empty(ls)[k].len() > 0,
    decreases ls.len(),
{
    if ls.len() > 0 {
        let prev = non_empty(ls.drop_last());
        lemma_non_empty(ls.drop_last());
        assert forall|k: int| 0 <= k < non_empty(ls).len() implies #[trigger] non_empty(
            ls,
        )[k].len() > 0 by {
            if k < prev.len() {
                assert(prev[k].len() > 0);
            }
        }
    }
}

/// A join of non-empty parts is empty only when there is no part.
proof fn lemma_join_empty(parts: Seq<Seq<char>>)
    requires
        forall|k: int| 0 <= k < parts.len() ==> #[trigger] parts[k].len() > 0,
        join(parts, seq!['\n']).len() == 0,
    ensures
        parts.len() == 0,
{
    if parts.len() == 1 {
        assert(parts[0].len() > 0);
    } else if parts.len() > 1 {
        assert(parts.last().len() > 0);
    }
}

} // verus!
