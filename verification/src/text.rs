//! Verified text utilities: whitespace classification, trimming and
//! substring search, together with the trusted case-folding wrapper.

use vstd::prelude::*;
use vstd::string::StrSliceExecFns;
use vstd::string::StringExecFns;

verus! {

/// A character counts as whitespace exactly when it has the Unicode
/// `White_Space` property.
pub open spec fn is_white(c: char) -> bool {
    let n = c as int;
    (0x09 <= n && n <= 0x0d) || n == 0x20 || n == 0x85 || n == 0xa0 || n == 0x1680 || (0x2000
        <= n && n <= 0x200a) || n == 0x2028 || n == 0x2029 || n == 0x202f || n == 0x205f || n
        == 0x3000
}

/// Whitespace test over the Unicode `White_Space` characters.
pub fn white_char(c: char) -> (r: bool)
    ensures
        r == is_white(c),
{
    let n = c as u32;
    (0x09 <= n && n <= 0x0d) || n == 0x20 || n == 0x85 || n == 0xa0 || n == 0x1680 || (0x2000
        <= n && n <= 0x200a) || n == 0x2028 || n == 0x2029 || n == 0x202f || n == 0x205f || n
        == 0x3000
}

/// The case-folded form of a character sequence, as Unicode lowercasing
/// produces it.
pub uninterp spec fn lower_of(s: Seq<char>) -> Seq<char>;

/// Relies on str::to_lowercase: the result depends on the characters of
/// the input alone, and an empty input stays empty.
#[verifier::external_body]
pub fn to_lower(s: &str) -> (r: String)
    ensures
        r@ == lower_of(s@),
        s@.len() == 0 ==> r@.len() == 0,
{
    s.to_lowercase()
}

/// A needle occurs somewhere in the haystack as a contiguous run.
pub open spec fn contains_seq(h: Seq<char>, n: Seq<char>) -> bool {
    exists|i: int| 0 <= i && i + n.len() <= h.len() && #[trigger] h.subrange(i, i + n.len()) == n
}

/// Substring search: decides whether `needle` occurs in `hay`.
pub fn contains_str(hay: &str, needle: &str) -> (r: bool)
    ensures
        r == contains_seq(hay@, needle@),
{
    let hl = hay.unicode_len();
    let nl = needle.unicode_len();
    if nl > hl {
        return false;
    }
    let mut i: usize = 0;
    while i <= hl - nl
        invariant
            nl <= hl,
            hl == hay@.len(),
            nl == needle@.len(),
            i <= hl - nl + 1,
            forall|k: int| 0 <= k < i ==> #[trigger] hay@.subrange(k, k + needle@.len())
                != needle@,
        decreases hl - nl + 1 - i,
    {
        let mut j: usize = 0;
        while j < nl && hay.get_char(i + j) == needle.get_char(j)
            invariant
                nl <= hl,
                hl == hay@.len(),
                nl == needle@.len(),
                i + nl <= hl,
                j <= nl,
                forall|t: int| 0 <= t < j ==> hay@[i + t] == needle@[t],
            decreases nl - j,
        {
            j += 1;
        }
        if j == nl {
            proof {
                assert(hay@.subrange(i as int, i + needle@.len()) =~= needle@);
            }
            return true;
        }
        proof {
            assert(hay@.subrange(i as int, i + needle@.len())[j as int] == hay@[i + j]);
        }
        i += 1;
    }
    false
}

/// The sequence with its leading whitespace removed.
pub open spec fn trim_front(s: Seq<char>) -> Seq<char>
    decreases s.len(),
{
    if s.len() > 0 && is_white(s[0]) {
        trim_front(s.drop_first())
    } else {
        s
    }
}

/// The sequence with its trailing whitespace removed.
pub open spec fn trim_back(s: Seq<char>) -> Seq<char>
    decreases s.len(),
{
    if s.len() > 0 && is_white(s.last()) {
        trim_back(s.drop_last())
    } else {
        s
    }
}

/// The sequence with both leading and trailing whitespace removed.
pub open spec fn trim_of(s: Seq<char>) -> Seq<char> {
    trim_back(trim_front(s))
}

proof fn lemma_trim_front_chop(s: Seq<char>, a: int)
    requires
        0 <= a <= s.len(),
        forall|k: int| 0 <= k < a ==> is_white(s[k]),
        a < s.len() ==> !is_white(s[a]),
    ensures
        trim_front(s) == s.subrange(a, s.len() as int),
    decreases a,
{
    if a == 0 {
        if s.len() > 0 {
            assert(!is_white(s[0]));
        }
        assert(s.subrange(0, s.len() as int) =~= s);
    } else {
        assert(is_white(s[0]));
        let t = s.drop_first();
        lemma_trim_front_chop(t, a - 1);
        assert(t.subrange(a - 1, t.len() as int) =~= s.subrange(a, s.len() as int));
    }
}

proof fn lemma_trim_back_chop(s: Seq<char>, b: int)
    requires
        0 <= b <= s.len(),
        forall|k: int| b <= k < s.len() ==> is_white(s[k]),
        b > 0 ==> !is_white(s[b - 1]),
    ensures
        trim_back(s) == s.subrange(0, b),
    decreases s.len() - b,
{
    if b == s.len() {
        if s.len() > 0 {
            assert(!is_white(s.last()));
        }
        assert(s.subrange(0, s.len() as int) =~= s);
    } else {
        assert(is_white(s.last()));
        let t = s.drop_last();
        lemma_trim_back_chop(t, b);
        assert(t.subrange(0, b) =~= s.subrange(0, b));
    }
}

/// Removes leading and trailing Unicode whitespace.
pub fn trim_str(s: &str) -> (r: String)
    ensures
        r@ == trim_of(s@),
{
    let len = s.unicode_len();
    let mut a: usize = 0;
    while a < len && white_char(s.get_char(a))
        invariant
            len == s@.len(),
            a <= len,
            forall|k: int| 0 <= k < a ==> is_white(s@[k]),
        decreases len - a,
    {
        a += 1;
    }
    proof {
        lemma_trim_front_chop(s@, a as int);
    }
    let mut b: usize = len;
    while b > a && white_char(s.get_char(b - 1))
        invariant
            len == s@.len(),
            a <= b <= len,
            forall|k: int| b <= k < len ==> is_white(s@[k]),
        decreases b,
    {
        b -= 1;
    }
    proof {
        let t = s@.subrange(a as int, len as int);
        lemma_trim_back_chop(t, b - a);
        assert(t.subrange(0, b - a) =~= s@.subrange(a as int, b as int));
    }
    let sub = s.substring_char(a, b);
    String::from_str(sub)
}

proof fn lemma_trim_front_white_prefix(u: Seq<char>, s: Seq<char>)
    requires
        forall|k: int| 0 <= k < u.len() ==> is_white(u[k]),
    ensures
        trim_front(u + s) == trim_front(s),
    decreases u.len(),
{
    if u.len() == 0 {
        assert(u + s =~= s);
    } else {
        assert(is_white((u + s)[0]));
        assert((u + s).drop_first() =~= u.drop_first() + s);
        lemma_trim_front_white_prefix(u.drop_first(), s);
    }
}

proof fn lemma_trim_back_white_suffix(s: Seq<char>, v: Seq<char>)
    requires
        forall|k: int| 0 <= k < v.len() ==> is_white(v[k]),
    ensures
        trim_back(s + v) == trim_back(s),
    decreases v.len(),
{
    if v.len() == 0 {
        assert(s + v =~= s);
    } else {
        assert(is_white((s + v).last()));
        assert((s + v).drop_last() =~= s + v.drop_last());
        lemma_trim_back_white_suffix(s, v.drop_last());
    }
}

proof fn lemma_trim_front_append(s: Seq<char>, v: Seq<char>)
    ensures
        trim_front(s).len() > 0 ==> trim_front(s + v) == trim_front(s) + v,
        trim_front(s).len() == 0 ==> trim_front(s + v) == trim_front(v),
    decreases s.len(),
{
    if s.len() == 0 {
        assert(s + v =~= v);
    } else if is_white(s[0]) {
        assert((s + v).len() > 0 && is_white((s + v)[0]));
        assert((s + v).drop_first() =~= s.drop_first() + v);
        lemma_trim_front_append(s.drop_first(), v);
    } else {
        assert(trim_front(s) == s);
        if (s + v).len() > 0 && is_white((s + v)[0]) {
            assert(is_white(s[0]));
        }
        assert(trim_front(s + v) == s + v);
    }
}

/// Whitespace-only differences outside the trimmed content do not
/// affect the trimmed result: surrounding a sequence with whitespace
/// leaves its trim unchanged.
pub proof fn lemma_trim_ignores_surrounding_whitespace(u: Seq<char>, s: Seq<char>, v: Seq<char>)
    requires
        forall|k: int| 0 <= k < u.len() ==> is_white(u[k]),
        forall|k: int| 0 <= k < v.len() ==> is_white(v[k]),
    ensures
        trim_of(u + s + v) == trim_of(s),
{
    assert(u + s + v =~= u + (s + v));
    lemma_trim_front_white_prefix(u, s + v);
    lemma_trim_front_append(s, v);
    if trim_front(s).len() > 0 {
        lemma_trim_back_white_suffix(trim_front(s), v);
    } else {
        lemma_trim_front_white_prefix(v, Seq::empty());
        assert(v + Seq::<char>::empty() =~= v);
        assert(trim_front(v) == trim_front(Seq::<char>::empty()));
    }
}

} // verus!
