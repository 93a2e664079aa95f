//! Exec helpers for moving between `str`/`String` and `Vec<char>`, the
//! representation the library's parsing and rendering logic works on.

use vstd::prelude::*;

verus! {

use vstd::std_specs::iter::IteratorSpec;

/// Relies on `String::push`: appends the character to the end of the string.
pub assume_specification[ String::push ](s: &mut String, ch: char)
    ensures
        final(s)@ == old(s)@.push(ch),
;

/// Relies on `String::push_str`: appends the string slice to the end of the string.
pub assume_specification[ String::push_str ](s: &mut String, other: &str)
    ensures
        final(s)@ == old(s)@ + other@,
;

/// Collects the characters of a string slice into a vector.
pub fn str_chars(s: &str) -> (r: Vec<char>)
    ensures
        r@ == s@,
{
    let mut it = s.chars();
    let mut out: Vec<char> = Vec::new();
    loop
        invariant
            it.obeys_prophetic_iter_laws(),
            it.decrease() is Some,
            out@ + it.remaining() == s@,
        ensures
            out@ == s@,
        decreases it.decrease()->0,
    {
        match it.next() {
            Some(c) => {
                out.push(c);
            },
            None => {
                proof {
                    assert(out@ =~= s@);
                }
                break ;
            },
        }
    }
    out
}

/// Builds a `String` whose characters are exactly those of the vector.
pub fn chars_to_string(v: &Vec<char>) -> (r: String)
    ensures
        r@ == v@,
{
    let mut out = String::new();
    let mut i: usize = 0;
    while i < v.len()
        invariant
            i <= v.len(),
            out@ == v@.subrange(0, i as int),
        decreases v.len() - i,
    {
        out.push(v[i]);
        i = i + 1;
        proof {
            assert(out@ =~= v@.subrange(0, i as int));
        }
    }
    proof {
        assert(out@ =~= v@);
    }
    out
}

/// Compares two character vectors for equality.
pub fn chars_eq(a: &Vec<char>, b: &Vec<char>) -> (r: bool)
    ensures
        r == (a@ == b@),
{
    if a.len() != b.len() {
        proof {
            assert(a@.len() != b@.len());
        }
        return false;
    }
    let mut i: usize = 0;
    while i < a.len()
        invariant
            i <= a.len(),
            a@.len() == b@.len(),
            forall|j: int| 0 <= j < i ==> a@[j] == b@[j],
        decreases a.len() - i,
    {
        if a[i] != b[i] {
            return false;
        }
        i = i + 1;
    }
    proof {
        assert(a@ =~= b@);
    }
    true
}

/// Compares the characters of a vector with those of a string slice.
pub fn chars_eq_str(a: &Vec<char>, s: &str) -> (r: bool)
    ensures
        r == (a@ == s@),
{
    let b = str_chars(s);
    chars_eq(a, &b)
}

/// Splitting `s` at every occurrence of `sep`: `n` separators give
/// `n + 1` pieces, empty pieces included.
pub open spec fn split_on(s: Seq<char>, sep: char) -> Seq<Seq<char>>
    decreases s.len(),
{
    if s.len() == 0 {
        seq![Seq::<char>::empty()]
    } else if s[0] == sep {
        seq![Seq::<char>::empty()] + split_on(s.drop_first(), sep)
    } else {
        let rest = split_on(s.drop_first(), sep);
        seq![seq![s[0]] + rest[0]] + rest.drop_first()
    }
}

/// A split always yields at least one piece.
pub proof fn lemma_split_nonempty(s: Seq<char>, sep: char)
    ensures
        split_on(s, sep).len() >= 1,
    decreases s.len(),
{
    if s.len() > 0 {
        lemma_split_nonempty(s.drop_first(), sep);
    }
}

/// A separator-free string splits into itself alone.
pub proof fn lemma_split_whole(p: Seq<char>, sep: char)
    requires
        !p.contains(sep),
    ensures
        split_on(p, sep) == seq![p],
    decreases p.len(),
{
    if p.len() == 0 {
        assert(split_on(p, sep) =~~= seq![p]);
    } else {
        assert(p[0] != sep);
        assert(p.drop_first().contains(sep) ==> p.contains(sep)) by {
            if p.drop_first().contains(sep) {
                let i = choose|i: int| 0 <= i < p.drop_first().len() && p.drop_first()[i] == sep;
                assert(p[i + 1] == sep);
            }
        }
        lemma_split_whole(p.drop_first(), sep);
        let rest = split_on(p.drop_first(), sep);
        assert(rest == seq![p.drop_first()]);
        assert(seq![p[0]] + rest[0] =~= p);
        assert(rest.drop_first() =~~= Seq::<Seq<char>>::empty());
        assert(split_on(p, sep) =~~= seq![p]);
    }
}

/// Splitting a string that opens with a separator-free piece, the
/// separator, and a remainder yields the piece followed by the split of
/// the remainder.
pub proof fn lemma_split_step(p: Seq<char>, rest: Seq<char>, sep: char)
    requires
        !p.contains(sep),
    ensures
        split_on(p + seq![sep] + rest, sep) == seq![p] + split_on(rest, sep),
    decreases p.len(),
{
    let s = p + seq![sep] + rest;
    if p.len() == 0 {
        assert(s =~= seq![sep] + rest);
        assert(s[0] == sep);
        assert(s.drop_first() =~= rest);
        assert(split_on(s, sep) =~~= seq![p] + split_on(rest, sep));
    } else {
        assert(s[0] == p[0]);
        assert(p[0] != sep);
        assert(p.drop_first().contains(sep) ==> p.contains(sep)) by {
            if p.drop_first().contains(sep) {
                let i = choose|i: int|
                    0 <= i < p.drop_first().len() && p.drop_first()[i] == sep;
                assert(p[i + 1] == sep);
            }
        }
        assert(s.drop_first() =~= p.drop_first() + seq![sep] + rest);
        lemma_split_step(p.drop_first(), rest, sep);
        lemma_split_nonempty(rest, sep);
        let inner = split_on(s.drop_first(), sep);
        assert(inner == seq![p.drop_first()] + split_on(rest, sep));
        assert(inner[0] == p.drop_first());
        assert(seq![s[0]] + inner[0] =~= p);
        assert(inner.drop_first() =~~= split_on(rest, sep));
        assert(split_on(s, sep) =~~= seq![p] + split_on(rest, sep));
    }
}

/// Splits the characters of `v` at every occurrence of `sep`.
pub fn split_chars(v: &Vec<char>, sep: char) -> (r: Vec<Vec<char>>)
    ensures
        r.deep_view() == split_on(v@, sep),
{
    let mut pieces: Vec<Vec<char>> = Vec::new();
    let mut cur: Vec<char> = Vec::new();
    let mut i: usize = 0;
    let mut j: usize = 0;
    proof {
        assert(v@.subrange(0, v@.len() as int) =~= v@);
        assert(pieces.deep_view() + split_on(v@, sep) =~~= split_on(v@, sep));
        assert(cur@ =~= v@.subrange(0, 0));
    }
    while i < v.len()
        invariant
            0 <= j <= i <= v@.len(),
            cur@ == v@.subrange(j as int, i as int),
            !cur@.contains(sep),
            split_on(v@, sep) == pieces.deep_view() + split_on(
                v@.subrange(j as int, v@.len() as int),
                sep,
            ),
        decreases v@.len() - i,
    {
        let c = v[i];
        if c == sep {
            let ghost olddv = pieces.deep_view();
            let ghost curv = cur@;
            let ghost restv = v@.subrange(i + 1, v@.len() as int);
            proof {
                let tail = v@.subrange(j as int, v@.len() as int);
                assert(tail =~= curv + seq![sep] + restv);
                lemma_split_step(curv, restv, sep);
            }
            pieces.push(cur);
            cur = Vec::new();
            j = i + 1;
            proof {
                assert(pieces.deep_view() =~~= olddv + seq![curv]);
                assert((olddv + seq![curv]) + split_on(restv, sep) =~~= olddv + (seq![curv]
                    + split_on(restv, sep)));
                assert(cur@ =~= v@.subrange(j as int, i + 1));
            }
        } else {
            let ghost prev = cur@;
            cur.push(c);
            proof {
                assert(cur@ =~= v@.subrange(j as int, i + 1));
                if cur@.contains(sep) {
                    let k = choose|k: int| 0 <= k < cur@.len() && cur@[k] == sep;
                    assert(k < cur@.len() - 1 ==> prev[k] == sep);
                }
            }
        }
        i = i + 1;
    }
    proof {
        assert(v@.subrange(j as int, v@.len() as int) == cur@);
        lemma_split_whole(cur@, sep);
    }
    pieces.push(cur);
    proof {
        assert(pieces.deep_view() =~~= split_on(v@, sep));
    }
    pieces
}

/// For a vector of characters the deep view is the view itself.
pub proof fn lemma_char_vec_deep_view(v: Seq<Vec<char>>)
    ensures
        forall|i: int| 0 <= i < v.len() ==> (#[trigger] v[i].deep_view()) == v[i]@,
{
    assert forall|i: int| 0 <= i < v.len() implies (#[trigger] v[i].deep_view()) == v[i]@ by {
        assert(v[i].deep_view() =~= v[i]@);
    }
}

/// Whether `c` is ASCII whitespace.
pub open spec fn is_space(c: char) -> bool {
    c == ' ' || c == '\t' || c == '\n' || c == '\r'
}

/// `s` without its leading whitespace.
pub open spec fn trim_start(s: Seq<char>) -> Seq<char>
    decreases s.len(),
{
    if s.len() > 0 && is_space(s[0]) {
        trim_start(s.drop_first())
    } else {
        s
    }
}

/// `s` without its trailing whitespace.
pub open spec fn trim_end(s: Seq<char>) -> Seq<char>
    decreases s.len(),
{
    if s.len() > 0 && is_space(s.last()) {
        trim_end(s.drop_last())
    } else {
        s
    }
}

/// `s` without leading and trailing whitespace.
pub open spec fn trim(s: Seq<char>) -> Seq<char> {
    trim_end(trim_start(s))
}

/// Whether `c` is ASCII whitespace.
fn is_space_exec(c: char) -> (r: bool)
    ensures
        r == is_space(c),
{
    c == ' ' || c == '\t' || c == '\n' || c == '\r'
}

/// Removes leading and trailing whitespace from the characters of `v`.
pub fn trim_chars(v: &Vec<char>) -> (r: Vec<char>)
    ensures
        r@ == trim(v@),
{
    let mut a: usize = 0;
    proof {
        assert(v@.subrange(0, v@.len() as int) =~= v@);
    }
    while a < v.len() && is_space_exec(v[a])
        invariant
            0 <= a <= v@.len(),
            trim_start(v@) == trim_start(v@.subrange(a as int, v@.len() as int)),
        decreases v@.len() - a,
    {
        proof {
            let cur = v@.subrange(a as int, v@.len() as int);
            assert(cur.drop_first() =~= v@.subrange(a + 1, v@.len() as int));
        }
        a = a + 1;
    }
    proof {
        let cur = v@.subrange(a as int, v@.len() as int);
        assert(trim_start(cur) == cur);
        assert(trim_start(v@) == v@.subrange(a as int, v@.len() as int));
    }
    let mut b: usize = v.len();
    while b > a && is_space_exec(v[b - 1])
        invariant
            a <= b <= v@.len(),
            trim_start(v@) == v@.subrange(a as int, v@.len() as int),
            trim_end(v@.subrange(a as int, v@.len() as int)) == trim_end(
                v@.subrange(a as int, b as int),
            ),
        decreases b,
    {
        proof {
            let cur = v@.subrange(a as int, b as int);
            assert(cur.len() > 0 && is_space(cur.last()));
            assert(cur.drop_last() =~= v@.subrange(a as int, b - 1));
        }
        b = b - 1;
    }
    let mut out: Vec<char> = Vec::new();
    let mut i: usize = a;
    while i < b
        invariant
            a <= i <= b <= v@.len(),
            out@ == v@.subrange(a as int, i as int),
        decreases b - i,
    {
        out.push(v[i]);
        i = i + 1;
        proof {
            assert(out@ =~= v@.subrange(a as int, i as int));
        }
    }
    proof {
        let cur = v@.subrange(a as int, b as int);
        assert(cur.len() > 0 ==> !is_space(cur.last()));
        assert(trim_end(cur) == cur);
        assert(out@ =~= cur);
    }
    out
}

} // verus!
