//! Character-level helpers on strings, each stated over `Seq<char>`.

use vstd::prelude::*;

verus! {

/// The pieces of `s` between the occurrences of `", "`, taken from the left
/// without overlap. There is always at least one piece.
pub open spec fn comma_pieces(s: Seq<char>) -> Seq<Seq<char>>
    decreases s.len(),
{
    if s.len() == 0 {
        seq![Seq::<char>::empty()]
    } else if s.len() >= 2 && s[0] == ',' && s[1] == ' ' {
        seq![Seq::<char>::empty()] + comma_pieces(s.subrange(2, s.len() as int))
    } else {
        let rest = comma_pieces(s.subrange(1, s.len() as int));
        rest.update(0, seq![s[0]] + rest[0])
    }
}

/// `p` glued to the front of the first piece of `ps`.
pub open spec fn glue_first(p: Seq<char>, ps: Seq<Seq<char>>) -> Seq<Seq<char>> {
    ps.update(0, p + ps[0])
}

/// `s` without the double quotes at its start.
pub open spec fn drop_leading_quotes(s: Seq<char>) -> Seq<char>
    decreases s.len(),
{
    if s.len() > 0 && s[0] == '"' {
        drop_leading_quotes(s.subrange(1, s.len() as int))
    } else {
        s
    }
}

/// `s` without the double quotes at its end.
pub open spec fn drop_trailing_quotes(s: Seq<char>) -> Seq<char>
    decreases s.len(),
{
    if s.len() > 0 && s.last() == '"' {
        drop_trailing_quotes(s.drop_last())
    } else {
        s
    }
}

/// `s` without the double quotes at either end.
pub open spec fn trim_quotes_spec(s: Seq<char>) -> Seq<char> {
    drop_trailing_quotes(drop_leading_quotes(s))
}

/// Whether `s` ends with `suffix`.
pub open spec fn has_suffix(s: Seq<char>, suffix: Seq<char>) -> bool {
    suffix.len() <= s.len() && s.subrange(s.len() - suffix.len(), s.len() as int) == suffix
}

pub proof fn lemma_comma_pieces_nonempty(s: Seq<char>)
    ensures
        comma_pieces(s).len() >= 1,
    decreases s.len(),
{
    if s.len() == 0 {
    } else if s.len() >= 2 && s[0] == ',' && s[1] == ' ' {
        lemma_comma_pieces_nonempty(s.subrange(2, s.len() as int));
    } else {
        lemma_comma_pieces_nonempty(s.subrange(1, s.len() as int));
    }
}

/// The characters of `s`, one per element.
pub fn chars_of(s: &str) -> (r: Vec<char>)
    ensures
        r@ == s@,
{
    let mut r: Vec<char> = Vec::new();
    for c in it: s.chars()
        invariant
            r@ == it.seq().subrange(0, it.index() as int),
    {
        r.push(c);
    }
    r
}

/// Splits `s` at every `", "`, as `str::split` does with that separator.
pub fn split_comma_space(s: &str) -> (r: Vec<String>)
    ensures
        r.deep_view() == comma_pieces(s@),
{
    let cs = chars_of(s);
    let n = cs.len();
    let mut r: Vec<String> = Vec::new();
    let mut start: usize = 0;
    let mut i: usize = 0;
    proof {
        lemma_comma_pieces_nonempty(s@);
        assert(s@.subrange(0, n as int) == s@);
        assert(s@.subrange(0, 0) + comma_pieces(s@)[0] == comma_pieces(s@)[0]);
        assert(glue_first(s@.subrange(0, 0), comma_pieces(s@)) == comma_pieces(s@));
    }
    while i < n
        invariant
            cs@ == s@,
            n == s@.len(),
            start <= i <= n,
            r.deep_view() + glue_first(
                s@.subrange(start as int, i as int),
                comma_pieces(s@.subrange(i as int, n as int)),
            ) == comma_pieces(s@),
        decreases n - i,
    {
        let ghost tail = s@.subrange(i as int, n as int);
        if i + 1 < n && cs[i] == ',' && cs[i + 1] == ' ' {
            let piece = String::from_str(s.substring_char(start, i));
            proof {
                let ghost after = s@.subrange(i + 2, n as int);
                assert(tail.subrange(2, tail.len() as int) == after);
                lemma_comma_pieces_nonempty(after);
                assert(Seq::<char>::empty() + comma_pieces(after)[0] == comma_pieces(after)[0]);
                assert(glue_first(Seq::<char>::empty(), comma_pieces(after)) == comma_pieces(after));
                assert(s@.subrange(i + 2, i + 2) == Seq::<char>::empty());
                assert(r.deep_view().push(piece@) + comma_pieces(after) == r.deep_view() + glue_first(
                    s@.subrange(start as int, i as int),
                    comma_pieces(tail),
                ));
            }
            r.push(piece);
            i = i + 2;
            start = i;
        } else {
            proof {
                let ghost after = s@.subrange(i + 1, n as int);
                assert(tail.subrange(1, tail.len() as int) == after);
                lemma_comma_pieces_nonempty(after);
                let ghost p = s@.subrange(start as int, i as int);
                let ghost rest = comma_pieces(after);
                assert(tail[0] == s@[i as int]);
                assert(!(tail.len() >= 2 && tail[0] == ',' && tail[1] == ' '));
                assert(comma_pieces(tail) == rest.update(0, seq![tail[0]] + rest[0]));
                assert(s@.subrange(start as int, i + 1) =~= p + seq![tail[0]]);
                assert((p + seq![tail[0]]) + rest[0] =~= p + (seq![tail[0]] + rest[0]));
                assert(glue_first(s@.subrange(start as int, i + 1), comma_pieces(after)) == glue_first(
                    s@.subrange(start as int, i as int),
                    comma_pieces(tail),
                ));
            }
            i = i + 1;
        }
    }
    let last = String::from_str(s.substring_char(start, n));
    proof {
        assert(s@.subrange(n as int, n as int).len() == 0);
        assert(glue_first(s@.subrange(start as int, n as int), comma_pieces(s@.subrange(n as int, n as int))) == seq![last@]);
    }
    r.push(last);
    r
}

/// Removes the double quotes at both ends of `s`, as `str::trim_matches('"')`
/// does.
pub fn trim_quotes(s: &str) -> (r: String)
    ensures
        r@ == trim_quotes_spec(s@),
{
    let cs = chars_of(s);
    let n = cs.len();
    let mut lo: usize = 0;
    assert(s@.subrange(0, n as int) == s@);
    while lo < n && cs[lo] == '"'
        invariant
            cs@ == s@,
            n == s@.len(),
            lo <= n,
            drop_leading_quotes(s@.subrange(lo as int, n as int)) == drop_leading_quotes(s@),
        decreases n - lo,
    {
        proof {
            let ghost t = s@.subrange(lo as int, n as int);
            assert(t.subrange(1, t.len() as int) == s@.subrange(lo + 1, n as int));
        }
        lo = lo + 1;
    }
    let ghost kept = s@.subrange(lo as int, n as int);
    assert(drop_leading_quotes(kept) == kept);
    let mut hi: usize = n;
    while hi > lo && cs[hi - 1] == '"'
        invariant
            cs@ == s@,
            n == s@.len(),
            lo <= hi <= n,
            drop_trailing_quotes(s@.subrange(lo as int, hi as int)) == drop_trailing_quotes(kept),
        decreases hi - lo,
    {
        proof {
            let ghost t = s@.subrange(lo as int, hi as int);
            assert(t.drop_last() == s@.subrange(lo as int, hi - 1));
        }
        hi = hi - 1;
    }
    String::from_str(s.substring_char(lo, hi))
}

/// Whether `s` ends with `suffix`.
pub fn ends_with(s: &str, suffix: &str) -> (r: bool)
    ensures
        r == has_suffix(s@, suffix@),
{
    let cs = chars_of(s);
    let xs = chars_of(suffix);
    if xs.len() > cs.len() {
        return false;
    }
    let off = cs.len() - xs.len();
    let mut j: usize = 0;
    while j < xs.len()
        invariant
            cs@ == s@,
            xs@ == suffix@,
            off + xs.len() == cs.len(),
            j <= xs.len(),
            forall|k: int| 0 <= k < j ==> s@[off + k] == suffix@[k],
        decreases xs.len() - j,
    {
        if cs[off + j] != xs[j] {
            assert(s@.subrange(off as int, s@.len() as int)[j as int] != suffix@[j as int]);
            return false;
        }
        j = j + 1;
    }
    assert(s@.subrange(off as int, s@.len() as int) == suffix@);
    true
}

} // verus!
