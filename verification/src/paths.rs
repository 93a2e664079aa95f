//! Path-string helpers: the final component, its extension, and
//! extension replacement. Paths are plain strings with `/` as the
//! component separator; no normalization beyond that is modeled.

use vstd::prelude::*;
use crate::text::str_chars;

verus! {

/// The final component of a path: everything after the last `/`, the
/// whole path when it has none, empty for a path that ends in `/`.
pub open spec fn file_name_of(p: Seq<char>) -> Seq<char>
    decreases p.len(),
{
    if p.len() == 0 {
        p
    } else if p.last() == '/' {
        Seq::<char>::empty()
    } else {
        file_name_of(p.drop_last()).push(p.last())
    }
}

/// The extension of a bare file name: the characters after its last
/// `.`, none when the name has no `.` or only a leading one.
pub open spec fn name_extension(name: Seq<char>) -> Option<Seq<char>> {
    let d = name.index_of_last('.');
    if d is Some && d->0 > 0 {
        Some(name.subrange(d->0 + 1, name.len() as int))
    } else {
        None
    }
}

/// The extension of the path's final component.
pub open spec fn extension_of(p: Seq<char>) -> Option<Seq<char>> {
    name_extension(file_name_of(p))
}

/// The path with its extension replaced (or appended, when it has none).
pub open spec fn with_extension_spec(p: Seq<char>, ext: Seq<char>) -> Seq<char> {
    match extension_of(p) {
        Some(e) => p.subrange(0, p.len() - e.len() - 1) + seq!['.'] + ext,
        None => p + seq!['.'] + ext,
    }
}

/// The start of the final component: the position after the last `/`.
fn file_name_start(chars: &Vec<char>) -> (k: usize)
    ensures
        k <= chars@.len(),
        file_name_of(chars@) == chars@.subrange(k as int, chars@.len() as int),
        forall|j: int| k <= j < chars@.len() ==> chars@[j] != '/',
        k > 0 ==> chars@[k - 1] == '/',
{
    let n = chars.len();
    let mut m: usize = n;
    proof {
        assert(chars@.subrange(0, n as int) =~= chars@);
        assert(chars@.subrange(n as int, n as int) =~= Seq::<char>::empty());
        assert(file_name_of(chars@) + chars@.subrange(n as int, n as int) =~= file_name_of(
            chars@,
        ));
    }
    while m > 0 && chars[m - 1] != '/'
        invariant
            0 <= m <= chars@.len(),
            chars@.len() == n,
            file_name_of(chars@) == file_name_of(chars@.subrange(0, m as int)) + chars@.subrange(
                m as int,
                n as int,
            ),
            forall|j: int| m <= j < n ==> chars@[j] != '/',
        decreases m,
    {
        proof {
            let pre = chars@.subrange(0, m as int);
            assert(pre.last() == chars@[m - 1]);
            assert(pre.drop_last() =~= chars@.subrange(0, m - 1));
            assert(file_name_of(pre) == file_name_of(chars@.subrange(0, m - 1)).push(
                chars@[m - 1],
            ));
            assert(file_name_of(chars@.subrange(0, m - 1)).push(chars@[m - 1]) + chars@.subrange(
                m as int,
                n as int,
            ) =~= file_name_of(chars@.subrange(0, m - 1)) + chars@.subrange(m - 1, n as int));
        }
        m = m - 1;
    }
    proof {
        if m == 0 {
            assert(chars@.subrange(0, 0) =~= Seq::<char>::empty());
            assert(file_name_of(Seq::<char>::empty()) + chars@.subrange(0, n as int)
                =~= chars@.subrange(0, n as int));
        } else {
            let pre = chars@.subrange(0, m as int);
            assert(pre.last() == chars@[m - 1]);
            assert(file_name_of(pre) == Seq::<char>::empty());
            assert(Seq::<char>::empty() + chars@.subrange(m as int, n as int) =~= chars@.subrange(
                m as int,
                n as int,
            ));
        }
    }
    m
}

/// The extension of the path's final component.
pub fn file_extension(path: &str) -> (r: Option<String>)
    ensures
        r is Some <==> extension_of(path@) is Some,
        r is Some ==> r->0@ == extension_of(path@)->0,
{
    let chars = str_chars(path);
    let n = chars.len();
    let k = file_name_start(&chars);
    let ghost name = chars@.subrange(k as int, n as int);
    // Scan the component from its end for the last '.'.
    let mut m: usize = n;
    while m > k && chars[m - 1] != '.'
        invariant
            k <= m <= n,
            n == chars@.len(),
            name == chars@.subrange(k as int, n as int),
            forall|j: int| m <= j < n ==> chars@[j] != '.',
        decreases m,
    {
        m = m - 1;
    }
    proof {
        name.index_of_last_ensures('.');
    }
    if m == k {
        // No '.' in the component at all.
        proof {
            if name.contains('.') {
                let j = choose|j: int| 0 <= j < name.len() && name[j] == '.';
                assert(chars@[k + j] == '.');
            }
            assert(name.index_of_last('.') is None);
        }
        None
    } else if m == k + 1 {
        // The only '.' leads the component: a hidden file, no extension.
        proof {
            let d = name.index_of_last('.');
            if d is Some && d->0 > 0 {
                assert(name[d->0] == '.');
                assert(chars@[k + d->0] == '.');
            }
        }
        None
    } else {
        proof {
            let i = m - 1 - k;
            assert(name[i] == chars@[m - 1]);
            assert(name.contains('.'));
            let d = name.index_of_last('.')->0;
            assert forall|j: int| i < j < name.len() implies #[trigger] name[j] != '.' by {
                assert(chars@[k + j] != '.');
            }
            assert(d == i);
        }
        let mut out: Vec<char> = Vec::new();
        let mut j: usize = m;
        while j < n
            invariant
                m <= j <= n,
                n == chars@.len(),
                out@ == chars@.subrange(m as int, j as int),
            decreases n - j,
        {
            out.push(chars[j]);
            j = j + 1;
            proof {
                assert(out@ =~= chars@.subrange(m as int, j as int));
            }
        }
        proof {
            assert(out@ =~= name.subrange(m - k, name.len() as int));
            assert(extension_of(path@)->0 == name.subrange(m - k, name.len() as int));
        }
        Some(crate::text::chars_to_string(&out))
    }
}

/// The path with its extension replaced (or appended, when it has none).
pub fn with_extension(path: &str, ext: &str) -> (r: String)
    ensures
        r@ == with_extension_spec(path@, ext@),
{
    let chars = str_chars(path);
    let n = chars.len();
    let stem_len: usize = match file_extension(path) {
        Some(e) => {
            let el = crate::text::str_chars(e.as_str()).len();
            proof {
                let name = file_name_of(chars@);
                let d = name.index_of_last('.');
                name.index_of_last_ensures('.');
                assert(extension_of(path@)->0 == name.subrange(d->0 + 1, name.len() as int));
                assert(name.len() <= n) by {
                    lemma_file_name_len(chars@);
                }
                assert(el == extension_of(path@)->0.len());
                assert(el + 1 < name.len() || el + 1 == name.len() - d->0 + d->0);
                assert(el + 1 <= n);
            }
            n - el - 1
        },
        None => n,
    };
    let mut out: Vec<char> = Vec::new();
    let mut i: usize = 0;
    while i < stem_len
        invariant
            0 <= i <= stem_len <= n,
            n == chars@.len(),
            out@ == chars@.subrange(0, i as int),
        decreases stem_len - i,
    {
        out.push(chars[i]);
        i = i + 1;
        proof {
            assert(out@ =~= chars@.subrange(0, i as int));
        }
    }
    let mut s = crate::text::chars_to_string(&out);
    s.push('.');
    s.push_str(ext);
    proof {
        if extension_of(path@) is Some {
            let e = extension_of(path@)->0;
            assert(stem_len == n - e.len() - 1);
            assert(s@ =~= with_extension_spec(path@, ext@));
        } else {
            assert(chars@.subrange(0, n as int) =~= chars@);
            assert(s@ =~= with_extension_spec(path@, ext@));
        }
    }
    s
}

/// The final component is never longer than the path.
pub proof fn lemma_file_name_len(p: Seq<char>)
    ensures
        file_name_of(p).len() <= p.len(),
    decreases p.len(),
{
    if p.len() > 0 && p.last() != '/' {
        lemma_file_name_len(p.drop_last());
    }
}

} // verus!
