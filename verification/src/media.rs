//! Media file recognition.
//!
//! A dropped file is loadable exactly when the lowercase form of its
//! extension — the characters after the last `.` of the path, or the
//! whole path when it has no dot — is one of the recognized video
//! container suffixes.

use vstd::prelude::*;
use vstd::string::StrSliceExecFns;

verus! {

/// An ASCII capital letter lowered; any other character unchanged.
pub open spec fn lower_char(c: char) -> char {
    if 'A' <= c && c <= 'Z' {
        (((c as u8) + 32) as char)
    } else {
        c
    }
}

/// A character sequence with every ASCII capital lowered.
pub open spec fn lower_seq(s: Seq<char>) -> Seq<char> {
    s.map_values(|c: char| lower_char(c))
}

/// The extension of a file name: the characters after the last `.`, or
/// the whole name when no dot occurs in it.
pub open spec fn ext_of(s: Seq<char>) -> Seq<char>
    decreases s.len(),
{
    if s.len() == 0 {
        s
    } else if s.last() == '.' {
        Seq::empty()
    } else {
        ext_of(s.drop_last()).push(s.last())
    }
}

/// The recognized video container suffixes, already lowercase.
pub open spec fn video_ext(e: Seq<char>) -> bool {
    ||| e == seq!['m', 'p', '4']
    ||| e == seq!['m', 'k', 'v']
    ||| e == seq!['w', 'e', 'b', 'm']
    ||| e == seq!['m', 'o', 'v']
    ||| e == seq!['a', 'v', 'i']
    ||| e == seq!['m', '4', 'v']
    ||| e == seq!['t', 's']
}

/// Whether a dropped path names a loadable video file.
pub open spec fn video_name(s: Seq<char>) -> bool {
    video_ext(lower_seq(ext_of(s)))
}

/// When every character from position `k` on differs from `.`, and the
/// character just before position `k` (if any) is a `.`, the extension
/// is exactly the tail that starts at `k`.
proof fn lemma_ext_of_tail(s: Seq<char>, k: int)
    requires
        0 <= k <= s.len(),
        forall|j: int| k <= j < s.len() ==> s[j] != '.',
        if k > 0 {
            s[k - 1] == '.'
        } else {
            true
        },
    ensures
        ext_of(s) == s.subrange(k, s.len() as int),
    decreases s.len() - k,
{
    if s.len() == k {
        if k == 0 {
            assert(ext_of(s) =~= s.subrange(k, s.len() as int));
        } else {
            assert(s.last() == '.');
            assert(ext_of(s) =~= s.subrange(k, s.len() as int));
        }
    } else {
        let s0 = s.drop_last();
        lemma_ext_of_tail(s0, k);
        assert(ext_of(s) =~= s.subrange(k, s.len() as int));
    }
}

/// An ASCII capital letter lowered; any other character unchanged.
fn lower_char_exec(c: char) -> (r: char)
    ensures
        r == lower_char(c),
{
    if 'A' <= c && c <= 'Z' {
        ((c as u8) + 32) as char
    } else {
        c
    }
}

/// The characters of a string, collected.
fn str_chars(s: &str) -> (r: Vec<char>)
    ensures
        r@ == s@,
{
    let n = s.unicode_len();
    let mut r: Vec<char> = Vec::new();
    let mut i: usize = 0;
    while i < n
        invariant
            n == s@.len(),
            i <= n,
            r@ == s@.subrange(0, i as int),
        decreases n - i,
    {
        r.push(s.get_char(i));
        proof {
            assert(r@ =~= s@.subrange(0, i as int + 1));
        }
        i = i + 1;
    }
    proof {
        assert(r@ =~= s@);
    }
    r
}

/// Whether the lowered extension has exactly the two given characters.
fn ext_is2(e: &Vec<char>, a: char, b: char) -> (r: bool)
    ensures
        r == (e@ == seq![a, b]),
{
    if e.len() == 2 && e[0] == a && e[1] == b {
        proof {
            assert(e@ =~= seq![a, b]);
        }
        true
    } else {
        proof {
            if e@ == seq![a, b] {
                assert(e@.len() == 2 && e@[0] == a && e@[1] == b);
            }
        }
        false
    }
}

/// Whether the lowered extension has exactly the three given characters.
fn ext_is3(e: &Vec<char>, a: char, b: char, c: char) -> (r: bool)
    ensures
        r == (e@ == seq![a, b, c]),
{
    if e.len() == 3 && e[0] == a && e[1] == b && e[2] == c {
        proof {
            assert(e@ =~= seq![a, b, c]);
        }
        true
    } else {
        proof {
            if e@ == seq![a, b, c] {
                assert(e@.len() == 3 && e@[0] == a && e@[1] == b && e@[2] == c);
            }
        }
        false
    }
}

/// Whether the lowered extension has exactly the four given characters.
fn ext_is4(e: &Vec<char>, a: char, b: char, c: char, d: char) -> (r: bool)
    ensures
        r == (e@ == seq![a, b, c, d]),
{
    if e.len() == 4 && e[0] == a && e[1] == b && e[2] == c && e[3] == d {
        proof {
            assert(e@ =~= seq![a, b, c, d]);
        }
        true
    } else {
        proof {
            if e@ == seq![a, b, c, d] {
                assert(e@.len() == 4 && e@[0] == a && e@[1] == b && e@[2] == c && e@[3] == d);
            }
        }
        false
    }
}

/// Whether a dropped path names a loadable video file: its extension,
/// lowercased, is one of the recognized container suffixes.
pub fn is_video_path(path: &str) -> (r: bool)
    ensures
        r == video_name(path@),
{
    let v = str_chars(path);
    let n = v.len();
    // Position right after the last dot; 0 when the path has none.
    let mut start: usize = 0;
    let mut j: usize = 0;
    while j < n
        invariant
            n == v@.len(),
            j <= n,
            start <= j,
            start > 0 ==> v@[start as int - 1] == '.',
            forall|j2: int| start <= j2 < j ==> v@[j2] != '.',
        decreases n - j,
    {
        if v[j] == '.' {
            start = j + 1;
        }
        j = j + 1;
    }
    proof {
        lemma_ext_of_tail(v@, start as int);
    }
    // The extension, lowercased.
    let mut e: Vec<char> = Vec::new();
    let mut i: usize = start;
    while i < n
        invariant
            n == v@.len(),
            start <= i <= n,
            e@.len() == i - start,
            forall|j2: int| 0 <= j2 < e@.len() ==> e@[j2] == lower_char(v@[start + j2]),
        decreases n - i,
    {
        e.push(lower_char_exec(v[i]));
        i = i + 1;
    }
    proof {
        assert(e@ =~= lower_seq(ext_of(path@)));
    }
    let r = ext_is3(&e, 'm', 'p', '4') || ext_is3(&e, 'm', 'k', 'v')
        || ext_is4(&e, 'w', 'e', 'b', 'm') || ext_is3(&e, 'm', 'o', 'v')
        || ext_is3(&e, 'a', 'v', 'i') || ext_is3(&e, 'm', '4', 'v')
        || ext_is2(&e, 't', 's');
    r
}

} // verus!
