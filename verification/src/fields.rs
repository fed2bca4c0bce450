//! The delimited record layout of a proof.
//!
//! A proof is one line of `|`-separated fields.  Splitting is specified as a
//! recursive function over character sequences and implemented, verified,
//! over `&str`; gluing lemmas relate a record built by concatenation to the
//! fields its split yields back.

use vstd::prelude::*;
use vstd::string::{StrSliceExecFns, StringExecFns};

verus! {

/// The field delimiter of the proof record format.
pub open spec fn delim() -> char {
    '|'
}

/// Whether `c` occurs anywhere in `s`.
pub open spec fn contains_char(s: Seq<char>, c: char) -> bool {
    exists|i: int| 0 <= i < s.len() && s[i] == c
}

/// Splitting on `c`, as `str::split` does it: the result always has one
/// field more than there are delimiters, and fields may be empty.
pub open spec fn split_char(s: Seq<char>, c: char) -> Seq<Seq<char>>
    decreases s.len(),
{
    if s.len() == 0 {
        seq![Seq::<char>::empty()]
    } else if s[0] == c {
        seq![Seq::<char>::empty()] + split_char(s.drop_first(), c)
    } else {
        let rest = split_char(s.drop_first(), c);
        seq![seq![s[0]] + rest[0]] + rest.drop_first()
    }
}

/// A split always yields at least one field.
pub proof fn lemma_split_len(s: Seq<char>, c: char)
    ensures
        split_char(s, c).len() >= 1,
    decreases s.len(),
{
    if s.len() > 0 {
        lemma_split_len(s.drop_first(), c);
    }
}

/// A sequence free of the delimiter splits into itself alone.
pub proof fn lemma_split_no_delim(s: Seq<char>, c: char)
    requires
        !contains_char(s, c),
    ensures
        split_char(s, c) == seq![s],
    decreases s.len(),
{
    if s.len() == 0 {
        assert(split_char(s, c) =~~= seq![s]);
    } else {
        assert(s[0] != c);
        assert(!contains_char(s.drop_first(), c)) by {
            if contains_char(s.drop_first(), c) {
                let i = choose|i: int| 0 <= i < s.drop_first().len() && s.drop_first()[i] == c;
                assert(s[i + 1] == c);
            }
        }
        lemma_split_no_delim(s.drop_first(), c);
        lemma_split_len(s.drop_first(), c);
        assert(seq![s[0]] + s.drop_first() =~= s);
        assert(split_char(s, c) =~~= seq![s]);
    }
}

/// Splitting `a | b` where `a` is delimiter-free peels `a` off as the first
/// field and splits the remainder.
pub proof fn lemma_split_glue(a: Seq<char>, b: Seq<char>, c: char)
    requires
        !contains_char(a, c),
    ensures
        split_char(a + seq![c] + b, c) == seq![a] + split_char(b, c),
    decreases a.len(),
{
    let s = a + seq![c] + b;
    lemma_split_len(b, c);
    if a.len() == 0 {
        assert(s[0] == c);
        assert(s.drop_first() =~= b);
        assert(split_char(s, c) =~~= seq![a] + split_char(b, c));
    } else {
        assert(s[0] == a[0]);
        assert(a[0] != c);
        assert(!contains_char(a.drop_first(), c)) by {
            if contains_char(a.drop_first(), c) {
                let i = choose|i: int| 0 <= i < a.drop_first().len() && a.drop_first()[i] == c;
                assert(a[i + 1] == c);
            }
        }
        assert(s.drop_first() =~= a.drop_first() + seq![c] + b);
        lemma_split_glue(a.drop_first(), b, c);
        let rest = split_char(s.drop_first(), c);
        assert(rest == seq![a.drop_first()] + split_char(b, c));
        assert(rest[0] == a.drop_first());
        assert(seq![s[0]] + rest[0] =~= a);
        assert(rest.drop_first() =~= split_char(b, c));
        assert(split_char(s, c) =~~= seq![a] + split_char(b, c));
    }
}

/// A record glued from four delimiter-free fields splits back into exactly
/// those fields.
pub proof fn lemma_split_four(f0: Seq<char>, f1: Seq<char>, f2: Seq<char>, f3: Seq<char>)
    requires
        !contains_char(f0, delim()),
        !contains_char(f1, delim()),
        !contains_char(f2, delim()),
        !contains_char(f3, delim()),
    ensures
        split_char(f0 + seq![delim()] + f1 + seq![delim()] + f2 + seq![delim()] + f3, delim())
            == seq![f0, f1, f2, f3],
{
    let c = delim();
    let t2 = f2 + seq![c] + f3;
    let t1 = f1 + seq![c] + t2;
    let t0 = f0 + seq![c] + t1;
    lemma_split_glue(f2, f3, c);
    lemma_split_no_delim(f3, c);
    lemma_split_glue(f1, t2, c);
    lemma_split_glue(f0, t1, c);
    assert(f0 + seq![c] + f1 + seq![c] + f2 + seq![c] + f3 =~= t0);
    assert(split_char(t0, c) =~~= seq![f0, f1, f2, f3]);
}

/// The views of a vector of owned strings.
pub open spec fn views(v: Seq<String>) -> Seq<Seq<char>> {
    v.map_values(|t: String| t@)
}

/// One in-progress field `cur` re-attached in front of the split of the
/// unread remainder.
pub open spec fn stitch(cur: Seq<char>, sp: Seq<Seq<char>>) -> Seq<Seq<char>> {
    seq![cur + sp[0]] + sp.drop_first()
}

/// Splits `s` on the record delimiter.
pub fn split_delim(s: &str) -> (r: Vec<String>)
    ensures
        r@.len() == split_char(s@, delim()).len(),
        forall|k: int| 0 <= k < r@.len() ==> #[trigger] r@[k]@ == split_char(s@, delim())[k],
{
    let len = s.unicode_len();
    let mut r: Vec<String> = Vec::new();
    let mut start: usize = 0;
    let mut i: usize = 0;
    proof {
        lemma_split_len(s@, delim());
        assert(s@.skip(0) =~= s@);
        assert(s@.subrange(0, 0) =~= Seq::<char>::empty());
        let sp = split_char(s@, delim());
        assert(Seq::<char>::empty() + sp[0] =~= sp[0]);
        assert(stitch(Seq::<char>::empty(), sp) =~~= sp);
        assert(views(r@) =~~= Seq::<Seq<char>>::empty());
        assert(stitch(s@.subrange(0, 0), split_char(s@.skip(0), delim())) =~~= split_char(
            s@,
            delim(),
        ));
    }
    while i < len
        invariant
            0 <= start <= i <= len,
            len == s@.len(),
            forall|j: int| start <= j < i ==> s@[j] != delim(),
            split_char(s@, delim()) == views(r@) + stitch(
                s@.subrange(start as int, i as int),
                split_char(s@.skip(i as int), delim()),
            ),
        decreases len - i,
    {
        let ghost cur = s@.subrange(start as int, i as int);
        let ghost rest = s@.skip(i as int);
        let ghost rest2 = s@.skip(i + 1);
        proof {
            assert(rest[0] == s@[i as int]);
            assert(rest.drop_first() =~= rest2);
            lemma_split_len(rest2, delim());
        }
        let c = s.get_char(i);
        if c == '|' {
            let field = String::from_str(s.substring_char(start, i));
            r.push(field);
            proof {
                assert(split_char(rest, delim()) == seq![Seq::<char>::empty()] + split_char(
                    rest2,
                    delim(),
                ));
                assert(stitch(cur, split_char(rest, delim())) =~~= seq![cur] + split_char(
                    rest2,
                    delim(),
                ));
                assert(stitch(s@.subrange(i + 1, i + 1), split_char(rest2, delim()))
                    =~~= split_char(rest2, delim()));
                assert(views(r@) =~~= views(r@.drop_last()) + seq![cur]);
                assert(split_char(s@, delim()) =~~= views(r@) + stitch(
                    s@.subrange(i + 1, i + 1),
                    split_char(rest2, delim()),
                ));
            }
            start = i + 1;
        } else {
            proof {
                let sp2 = split_char(rest2, delim());
                assert(split_char(rest, delim()) == seq![seq![rest[0]] + sp2[0]]
                    + sp2.drop_first());
                assert(cur + (seq![rest[0]] + sp2[0]) =~= s@.subrange(start as int, i + 1)
                    + sp2[0]);
                assert(stitch(cur, split_char(rest, delim())) =~~= stitch(
                    s@.subrange(start as int, i + 1),
                    sp2,
                ));
            }
        }
        i += 1;
    }
    let last = String::from_str(s.substring_char(start, len));
    r.push(last);
    proof {
        assert(s@.skip(len as int) =~= Seq::<char>::empty());
        assert(split_char(s@.skip(len as int), delim()) == seq![Seq::<char>::empty()]);
        assert(stitch(s@.subrange(start as int, len as int), split_char(
            s@.skip(len as int),
            delim(),
        )) =~~= seq![s@.subrange(start as int, len as int)]);
        assert(views(r@) =~~= views(r@.drop_last()) + seq![s@.subrange(
            start as int,
            len as int,
        )]);
        assert(split_char(s@, delim()) =~~= views(r@));
        assert(forall|k: int| 0 <= k < r@.len() ==> #[trigger] r@[k]@ == views(r@)[k]);
    }
    r
}

/// Whether `s` contains the record delimiter.
pub fn contains_delim(s: &str) -> (r: bool)
    ensures
        r == contains_char(s@, delim()),
{
    let len = s.unicode_len();
    let mut i: usize = 0;
    while i < len
        invariant
            0 <= i <= len,
            len == s@.len(),
            forall|j: int| 0 <= j < i ==> s@[j] != delim(),
        decreases len - i,
    {
        if s.get_char(i) == '|' {
            return true;
        }
        i += 1;
    }
    false
}

} // verus!
