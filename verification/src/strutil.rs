//! Small verified string utilities: equality against a literal, whitespace
//! trimming, and splitting a line into comma-separated fields.

use vstd::prelude::*;
use vstd::string::StrSliceExecFns;

verus! {

/// Exact string equality, stated over the character sequences.
pub fn str_eq(a: &str, b: &str) -> (r: bool)
    ensures
        r == (a@ == b@),
{
    let sa: String = a.to_owned();
    let sb: String = b.to_owned();
    sa == sb
}

/// The whitespace characters that trimming removes.
pub open spec fn is_space_char(c: char) -> bool {
    c == ' ' || c == '\t' || c == '\r' || c == '\n'
}

/// Whether `is_space_char` holds of a character.
pub fn is_space(c: char) -> (r: bool)
    ensures
        r == is_space_char(c),
{
    c == ' ' || c == '\t' || c == '\r' || c == '\n'
}

/// `s` without its leading whitespace.
pub open spec fn trim_front(s: Seq<char>) -> Seq<char>
    decreases s.len(),
{
    if s.len() > 0 && is_space_char(s[0]) {
        trim_front(s.drop_first())
    } else {
        s
    }
}

/// `s` without its trailing whitespace.
pub open spec fn trim_back(s: Seq<char>) -> Seq<char>
    decreases s.len(),
{
    if s.len() > 0 && is_space_char(s.last()) {
        trim_back(s.drop_last())
    } else {
        s
    }
}

/// `s` without its leading and trailing whitespace.
pub open spec fn trimmed(s: Seq<char>) -> Seq<char> {
    trim_back(trim_front(s))
}

/// The input with leading and trailing whitespace removed.
pub fn trim(s: &str) -> (r: &str)
    ensures
        r@ == trimmed(s@),
{
    let n = s.unicode_len();
    proof {
        assert(s@.skip(0) =~= s@);
    }
    let mut lo: usize = 0;
    while lo < n && is_space(s.get_char(lo))
        invariant
            lo <= n,
            n as int == s@.len(),
            trim_front(s@) == trim_front(s@.skip(lo as int)),
        decreases n - lo,
    {
        proof {
            assert(s@.skip(lo as int)[0] == s@[lo as int]);
            assert(s@.skip(lo as int).drop_first() =~= s@.skip(lo as int + 1));
        }
        lo = lo + 1;
    }
    proof {
        if lo < n {
            assert(s@.skip(lo as int)[0] == s@[lo as int]);
            assert(trim_front(s@.skip(lo as int)) == s@.skip(lo as int));
        } else {
            assert(s@.skip(lo as int) =~= Seq::<char>::empty());
        }
        assert(trim_front(s@) == s@.skip(lo as int));
        assert(s@.skip(lo as int).take(n as int - lo as int) =~= s@.skip(lo as int));
    }
    let mut hi: usize = n;
    while hi > lo && is_space(s.get_char(hi - 1))
        invariant
            lo <= hi <= n,
            n as int == s@.len(),
            trim_front(s@) == s@.skip(lo as int),
            trim_back(s@.skip(lo as int)) == trim_back(
                s@.skip(lo as int).take(hi as int - lo as int),
            ),
        decreases hi,
    {
        proof {
            let t = s@.skip(lo as int);
            let k = hi as int - lo as int;
            assert(t.take(k).last() == t[k - 1]);
            assert(t[k - 1] == s@[hi as int - 1]);
            assert(t.take(k).drop_last() =~= t.take(k - 1));
        }
        hi = hi - 1;
    }
    proof {
        let t = s@.skip(lo as int);
        let k = hi as int - lo as int;
        if hi > lo {
            assert(t.take(k).last() == t[k - 1]);
            assert(t[k - 1] == s@[hi as int - 1]);
            assert(trim_back(t.take(k)) == t.take(k));
        } else {
            assert(t.take(0) =~= Seq::<char>::empty());
        }
        assert(t.take(k) =~= s@.subrange(lo as int, hi as int));
        assert(trimmed(s@) == s@.subrange(lo as int, hi as int));
    }
    s.substring_char(lo, hi)
}

/// The comma-separated fields of a line, in order: splitting on every comma,
/// so a line without commas is one field and each comma adds one more.
pub open spec fn split_commas(s: Seq<char>) -> Seq<Seq<char>>
    decreases s.len(),
{
    if s.len() == 0 {
        seq![Seq::<char>::empty()]
    } else if s[0] == ',' {
        seq![Seq::<char>::empty()] + split_commas(s.drop_first())
    } else {
        let rest = split_commas(s.drop_first());
        seq![seq![s[0]] + rest[0]] + rest.drop_first()
    }
}

/// A split always has at least one field.
pub proof fn lemma_split_commas_len(s: Seq<char>)
    ensures
        split_commas(s).len() >= 1,
    decreases s.len(),
{
    if s.len() == 0 {
    } else {
        lemma_split_commas_len(s.drop_first());
    }
}

/// `ss` with `p` prepended to its first field.
pub open spec fn cons_first(p: Seq<char>, ss: Seq<Seq<char>>) -> Seq<Seq<char>>
    recommends
        ss.len() >= 1,
{
    seq![p + ss[0]] + ss.drop_first()
}

/// How the split of a suffix unfolds at its first character.
proof fn lemma_split_step(s: Seq<char>, i: int)
    requires
        0 <= i < s.len(),
    ensures
        s[i] == ',' ==> split_commas(s.skip(i)) == seq![Seq::<char>::empty()] + split_commas(
            s.skip(i + 1),
        ),
        s[i] != ',' ==> split_commas(s.skip(i)) == cons_first(
            seq![s[i]],
            split_commas(s.skip(i + 1)),
        ),
{
    assert(s.skip(i).len() > 0);
    assert(s.skip(i)[0] == s[i]);
    assert(s.skip(i).drop_first() =~= s.skip(i + 1));
}

/// The character sequences of a sequence of strings.
pub open spec fn views(v: Seq<String>) -> Seq<Seq<char>> {
    v.map_values(|x: String| x@)
}

/// Appending a string appends its characters to the views.
pub proof fn lemma_views_push(v: Seq<String>, x: String)
    ensures
        views(v.push(x)) =~= views(v).push(x@),
{
    assert forall|i: int| 0 <= i < v.len() + 1 implies views(v.push(x))[i] == views(v).push(x@)[i]
        by {
        if i < v.len() {
            assert(v.push(x)[i] == v[i]);
        } else {
            assert(v.push(x)[i] == x);
        }
    }
}

/// The comma-separated fields of the line, per [`split_commas`].
pub fn split_fields(s: &str) -> (r: Vec<String>)
    ensures
        views(r@) == split_commas(s@),
        r@.len() == split_commas(s@).len(),
        forall|i: int| 0 <= i < r@.len() ==> #[trigger] r@[i]@ == split_commas(s@)[i],
{
    let n = s.unicode_len();
    let mut out: Vec<String> = Vec::new();
    proof {
        assert(s@.skip(0) =~= s@);
        assert(s@.subrange(0, 0) =~= Seq::<char>::empty());
        lemma_split_commas_len(s@);
        assert(cons_first(Seq::<char>::empty(), split_commas(s@)) =~~= split_commas(s@));
        assert(views(out@) + split_commas(s@) =~= split_commas(s@));
    }
    let mut start: usize = 0;
    let mut i: usize = 0;
    while i < n
        invariant
            start <= i <= n,
            n as int == s@.len(),
            split_commas(s@) == views(out@) + cons_first(
                s@.subrange(start as int, i as int),
                split_commas(s@.skip(i as int)),
            ),
        decreases n - i,
    {
        let ghost pre = views(out@);
        let ghost p = s@.subrange(start as int, i as int);
        let ghost t_next = split_commas(s@.skip(i as int + 1));
        proof {
            lemma_split_step(s@, i as int);
            lemma_split_commas_len(s@.skip(i as int + 1));
        }
        let c = s.get_char(i);
        if c == ',' {
            let field: String = s.substring_char(start, i).to_owned();
            proof {
                assert(cons_first(p, seq![Seq::<char>::empty()] + t_next) =~~= seq![p] + t_next);
                assert(t_next =~~= cons_first(Seq::<char>::empty(), t_next));
                lemma_views_push(out@, field);
                assert(pre.push(p) + t_next =~= pre + (seq![p] + t_next));
            }
            out.push(field);
            start = i + 1;
        } else {
            proof {
                let t0 = split_commas(s@.skip(i as int));
                assert(s@.subrange(start as int, i as int + 1) =~= p + seq![s@[i as int]]);
                assert(cons_first(p, t0) =~~= cons_first(p + seq![s@[i as int]], t_next));
            }
        }
        i = i + 1;
    }
    let last: String = s.substring_char(start, n).to_owned();
    proof {
        assert(s@.skip(n as int) =~= Seq::<char>::empty());
        let p = s@.subrange(start as int, n as int);
        assert(cons_first(p, split_commas(Seq::<char>::empty())) =~~= seq![p]);
        lemma_views_push(out@, last);
        assert(views(out@).push(p) =~= views(out@) + seq![p]);
    }
    out.push(last);
    proof {
        assert(views(out@) == split_commas(s@));
        assert forall|i: int| 0 <= i < out@.len() implies #[trigger] out@[i]@ == split_commas(
            s@,
        )[i] by {
            assert(views(out@)[i] == out@[i]@);
        }
    }
    out
}

} // verus!
