//! Small verified string helpers shared by the pipeline modules.
//!
//! Paths, object-store keys and endpoint URLs are built and compared here,
//! character by character, so that their exact contents can be stated in
//! contracts.

use vstd::prelude::*;
use vstd::string::StrSliceExecFns;
use vstd::string::StringExecFns;

verus! {

/// Relies on std's `String::push`: appends exactly one character.
#[verifier::external_body]
pub fn push_char(s: &mut String, c: char)
    ensures
        final(s)@ == old(s)@.push(c),
{
    s.push(c);
}

/// Character-for-character equality of two string slices.
pub fn str_eq(a: &str, b: &str) -> (r: bool)
    ensures
        r == (a@ == b@),
{
    let alen = a.unicode_len();
    let blen = b.unicode_len();
    if alen != blen {
        assert(a@ != b@);
        return false;
    }
    let mut i: usize = 0;
    while i < alen
        invariant
            alen == a@.len(),
            alen == b@.len(),
            i <= alen,
            forall|k: int| 0 <= k < i ==> a@[k] == b@[k],
        decreases alen - i,
    {
        if a.get_char(i) != b.get_char(i) {
            assert(a@[i as int] != b@[i as int]);
            return false;
        }
        i += 1;
    }
    proof {
        assert(a@ =~= b@);
    }
    true
}

/// Whether `p` begins with the characters of `prefix`.
pub open spec fn starts_with(p: Seq<char>, prefix: Seq<char>) -> bool {
    p.len() >= prefix.len() && p.subrange(0, prefix.len() as int) == prefix
}

/// Character-for-character prefix test.
pub fn str_starts_with(a: &str, prefix: &str) -> (r: bool)
    ensures
        r == starts_with(a@, prefix@),
{
    let alen = a.unicode_len();
    let plen = prefix.unicode_len();
    if alen < plen {
        return false;
    }
    let mut i: usize = 0;
    while i < plen
        invariant
            alen == a@.len(),
            plen == prefix@.len(),
            plen <= alen,
            i <= plen,
            forall|k: int| 0 <= k < i ==> a@[k] == prefix@[k],
        decreases plen - i,
    {
        if a.get_char(i) != prefix.get_char(i) {
            assert(a@.subrange(0, plen as int)[i as int] != prefix@[i as int]);
            return false;
        }
        i += 1;
    }
    proof {
        assert(a@.subrange(0, plen as int) =~= prefix@);
    }
    true
}

/// Whether the path `p` lies inside the directory `d`: it is `d` itself or
/// continues below it past a separator.  Both paths are taken as written,
/// without normalization.
pub open spec fn path_inside(p: Seq<char>, d: Seq<char>) -> bool {
    p == d || (p.len() > d.len() && p.subrange(0, d.len() as int) == d && p[d.len() as int]
        == '/')
}

/// Component-wise containment test of a path in a directory.
pub fn path_is_inside(p: &str, d: &str) -> (r: bool)
    ensures
        r == path_inside(p@, d@),
{
    if str_eq(p, d) {
        return true;
    }
    let plen = p.unicode_len();
    let dlen = d.unicode_len();
    if plen > dlen && str_starts_with(p, d) {
        p.get_char(dlen) == '/'
    } else {
        false
    }
}

/// `s` with every space replaced by a dash.
pub open spec fn dashed(s: Seq<char>) -> Seq<char> {
    Seq::new(s.len(), |i: int| if s[i] == ' ' { '-' } else { s[i] })
}

/// Replaces spaces with dashes, as done to project names inside object-store
/// keys.
pub fn dash_spaces(s: &str) -> (r: String)
    ensures
        r@ == dashed(s@),
{
    let len = s.unicode_len();
    let mut out = String::new();
    let mut i: usize = 0;
    while i < len
        invariant
            len == s@.len(),
            i <= len,
            out@ =~= dashed(s@).subrange(0, i as int),
        decreases len - i,
    {
        let c = s.get_char(i);
        if c == ' ' {
            push_char(&mut out, '-');
        } else {
            push_char(&mut out, c);
        }
        i += 1;
        proof {
            assert(out@ =~= dashed(s@).subrange(0, i as int));
        }
    }
    proof {
        assert(out@ =~= dashed(s@));
    }
    out
}

/// The length of `s` once every trailing slash is removed.
pub open spec fn len_without_trailing_slashes(s: Seq<char>) -> int
    decreases s.len(),
{
    if s.len() > 0 && s[s.len() - 1] == '/' {
        len_without_trailing_slashes(s.drop_last())
    } else {
        s.len() as int
    }
}

/// `s` with every trailing slash removed.
pub open spec fn without_trailing_slashes(s: Seq<char>) -> Seq<char> {
    s.subrange(0, len_without_trailing_slashes(s))
}

proof fn lemma_len_without_trailing_slashes(s: Seq<char>, k: int)
    requires
        0 <= k <= s.len(),
        forall|j: int| k <= j < s.len() ==> s[j] == '/',
        k == 0 || s[k - 1] != '/',
    ensures
        len_without_trailing_slashes(s) == k,
    decreases s.len(),
{
    if s.len() > 0 && s[s.len() - 1] == '/' {
        assert(k < s.len());
        lemma_len_without_trailing_slashes(s.drop_last(), k);
    }
}

/// Removes every trailing slash, as done to configured base endpoints.
pub fn trim_trailing_slashes(s: &str) -> (r: &str)
    ensures
        r@ == without_trailing_slashes(s@),
{
    let len = s.unicode_len();
    let mut end: usize = len;
    while end > 0 && s.get_char(end - 1) == '/'
        invariant
            len == s@.len(),
            end <= len,
            forall|j: int| end <= j < len ==> s@[j] == '/',
        decreases end,
    {
        end -= 1;
    }
    proof {
        lemma_len_without_trailing_slashes(s@, end as int);
    }
    s.substring_char(0, end)
}

/// How many slashes `s` begins with.
pub open spec fn leading_slashes(s: Seq<char>) -> int
    decreases s.len(),
{
    if s.len() > 0 && s[0] == '/' {
        1 + leading_slashes(s.drop_first())
    } else {
        0
    }
}

proof fn lemma_leading_slashes(s: Seq<char>, k: int)
    requires
        0 <= k <= s.len(),
        forall|j: int| 0 <= j < k ==> s[j] == '/',
        k == s.len() || s[k] != '/',
    ensures
        leading_slashes(s) == k,
    decreases k,
{
    if k == 0 {
    } else {
        lemma_leading_slashes(s.drop_first(), k - 1);
    }
}

/// `s` with every leading and trailing slash removed.
pub open spec fn without_edge_slashes(s: Seq<char>) -> Seq<char> {
    let t = without_trailing_slashes(s);
    t.subrange(leading_slashes(t), t.len() as int)
}

/// Removes leading and trailing slashes, as done to the configured key
/// prefix of the object store.
pub fn trim_edge_slashes(s: &str) -> (r: &str)
    ensures
        r@ == without_edge_slashes(s@),
{
    let t = trim_trailing_slashes(s);
    let tlen = t.unicode_len();
    let mut i: usize = 0;
    while i < tlen && t.get_char(i) == '/'
        invariant
            tlen == t@.len(),
            i <= tlen,
            forall|j: int| 0 <= j < i ==> t@[j] == '/',
        decreases tlen - i,
    {
        i += 1;
    }
    proof {
        lemma_leading_slashes(t@, i as int);
    }
    t.substring_char(i, tlen)
}

/// The ASCII-lowercase counterpart of a character; everything outside
/// `'A'..='Z'` is left as it is.
pub open spec fn lower_char(c: char) -> char {
    if c == 'A' {
        'a'
    } else if c == 'B' {
        'b'
    } else if c == 'C' {
        'c'
    } else if c == 'D' {
        'd'
    } else if c == 'E' {
        'e'
    } else if c == 'F' {
        'f'
    } else if c == 'G' {
        'g'
    } else if c == 'H' {
        'h'
    } else if c == 'I' {
        'i'
    } else if c == 'J' {
        'j'
    } else if c == 'K' {
        'k'
    } else if c == 'L' {
        'l'
    } else if c == 'M' {
        'm'
    } else if c == 'N' {
        'n'
    } else if c == 'O' {
        'o'
    } else if c == 'P' {
        'p'
    } else if c == 'Q' {
        'q'
    } else if c == 'R' {
        'r'
    } else if c == 'S' {
        's'
    } else if c == 'T' {
        't'
    } else if c == 'U' {
        'u'
    } else if c == 'V' {
        'v'
    } else if c == 'W' {
        'w'
    } else if c == 'X' {
        'x'
    } else if c == 'Y' {
        'y'
    } else if c == 'Z' {
        'z'
    } else {
        c
    }
}

/// `s` with ASCII uppercase letters lowered.
pub open spec fn lowered(s: Seq<char>) -> Seq<char> {
    Seq::new(s.len(), |i: int| lower_char(s[i]))
}

/// ASCII-lowercases one character.
pub fn char_to_lower(c: char) -> (r: char)
    ensures
        r == lower_char(c),
{
    if c == 'A' {
        'a'
    } else if c == 'B' {
        'b'
    } else if c == 'C' {
        'c'
    } else if c == 'D' {
        'd'
    } else if c == 'E' {
        'e'
    } else if c == 'F' {
        'f'
    } else if c == 'G' {
        'g'
    } else if c == 'H' {
        'h'
    } else if c == 'I' {
        'i'
    } else if c == 'J' {
        'j'
    } else if c == 'K' {
        'k'
    } else if c == 'L' {
        'l'
    } else if c == 'M' {
        'm'
    } else if c == 'N' {
        'n'
    } else if c == 'O' {
        'o'
    } else if c == 'P' {
        'p'
    } else if c == 'Q' {
        'q'
    } else if c == 'R' {
        'r'
    } else if c == 'S' {
        's'
    } else if c == 'T' {
        't'
    } else if c == 'U' {
        'u'
    } else if c == 'V' {
        'v'
    } else if c == 'W' {
        'w'
    } else if c == 'X' {
        'x'
    } else if c == 'Y' {
        'y'
    } else if c == 'Z' {
        'z'
    } else {
        c
    }
}

/// ASCII-lowercases a string.
pub fn to_lower(s: &str) -> (r: String)
    ensures
        r@ == lowered(s@),
{
    let len = s.unicode_len();
    let mut out = String::new();
    let mut i: usize = 0;
    while i < len
        invariant
            len == s@.len(),
            i <= len,
            out@ =~= lowered(s@).subrange(0, i as int),
        decreases len - i,
    {
        let c = s.get_char(i);
        push_char(&mut out, char_to_lower(c));
        i += 1;
        proof {
            assert(out@ =~= lowered(s@).subrange(0, i as int));
        }
    }
    proof {
        assert(out@ =~= lowered(s@));
    }
    out
}

/// The text of an optional string, the empty text when absent.
pub open spec fn or_empty(o: Option<String>) -> Seq<char> {
    match o {
        Some(s) => s@,
        None => Seq::empty(),
    }
}

/// The view of an optional string.
pub open spec fn opt_view(o: Option<String>) -> Option<Seq<char>> {
    match o {
        Some(s) => Some(s@),
        None => None,
    }
}

/// Copies an optional string.
pub fn clone_opt_string(o: &Option<String>) -> (r: Option<String>)
    ensures
        r == *o,
{
    match o {
        Some(s) => Some(s.clone()),
        None => None,
    }
}

/// The concatenation of three strings.
pub fn concat3(a: &str, b: &str, c: &str) -> (r: String)
    ensures
        r@ == a@ + b@ + c@,
{
    let mut out = String::from_str(a);
    out.append(b);
    out.append(c);
    out
}

} // verus!
