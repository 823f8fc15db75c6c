//! Character-level string utilities: equality, substring search and
//! whitespace trimming, with specifications over `Seq<char>` views.

use vstd::prelude::*;

verus! {

/// Whitespace, as trimming understands it: the characters with the Unicode
/// `White_Space` property, the same set `str::trim` removes.
pub open spec fn is_ws(c: char) -> bool {
    let u = c as u32;
    ||| u == 0x20
    ||| 0x9 <= u <= 0xD
    ||| u == 0x85
    ||| u == 0xA0
    ||| u == 0x1680
    ||| 0x2000 <= u <= 0x200A
    ||| u == 0x2028
    ||| u == 0x2029
    ||| u == 0x202F
    ||| u == 0x205F
    ||| u == 0x3000
}

/// `needle` occurs in `hay` starting at position `i`.
pub open spec fn is_match_at(hay: Seq<char>, needle: Seq<char>, i: int) -> bool {
    &&& 0 <= i
    &&& i + needle.len() <= hay.len()
    &&& hay.subrange(i, i + needle.len() as int) == needle
}

/// Position of the first occurrence of `needle` in `hay`, or `-1` when
/// `needle` does not occur in `hay`.
pub open spec fn find_first(hay: Seq<char>, needle: Seq<char>) -> int
    decreases hay.len(),
{
    if is_match_at(hay, needle, 0) {
        0
    } else if hay.len() == 0 {
        -1
    } else {
        let r = find_first(hay.skip(1), needle);
        if r < 0 {
            -1
        } else {
            r + 1
        }
    }
}

/// Shifting a match over the first character of `hay`.
proof fn lemma_match_shift(hay: Seq<char>, needle: Seq<char>, i: int)
    requires
        i >= 1,
        hay.len() >= 1,
    ensures
        is_match_at(hay, needle, i) == is_match_at(hay.skip(1), needle, i - 1),
{
    if is_match_at(hay, needle, i) {
        assert(hay.skip(1).subrange(i - 1, i - 1 + needle.len() as int) =~= hay.subrange(
            i,
            i + needle.len() as int,
        ));
    } else if is_match_at(hay.skip(1), needle, i - 1) {
        assert(hay.subrange(i, i + needle.len() as int) =~= hay.skip(1).subrange(
            i - 1,
            i - 1 + needle.len() as int,
        ));
    }
}

/// `find_first` returns `-1` exactly when there is no occurrence, and
/// otherwise the position of the first occurrence.
pub proof fn lemma_find_first_props(hay: Seq<char>, needle: Seq<char>)
    ensures
        find_first(hay, needle) == -1 ==> forall|i: int| !is_match_at(hay, needle, i),
        find_first(hay, needle) != -1 ==> {
            &&& 0 <= find_first(hay, needle)
            &&& is_match_at(hay, needle, find_first(hay, needle))
            &&& forall|i: int| 0 <= i < find_first(hay, needle) ==> !is_match_at(hay, needle, i)
        },
    decreases hay.len(),
{
    if is_match_at(hay, needle, 0) {
    } else if hay.len() == 0 {
        assert forall|i: int| !is_match_at(hay, needle, i) by {
            if i >= 1 {
                assert(i + needle.len() > hay.len());
            }
        }
    } else {
        lemma_find_first_props(hay.skip(1), needle);
        let r = find_first(hay.skip(1), needle);
        if r < 0 {
            assert forall|i: int| !is_match_at(hay, needle, i) by {
                if i >= 1 {
                    lemma_match_shift(hay, needle, i);
                }
            }
        } else {
            lemma_match_shift(hay, needle, r + 1);
            assert forall|i: int| 0 <= i < r + 1 implies !is_match_at(hay, needle, i) by {
                if i >= 1 {
                    lemma_match_shift(hay, needle, i);
                }
            }
        }
    }
}

/// The string with its leading whitespace removed.
pub open spec fn trim_front(s: Seq<char>) -> Seq<char>
    decreases s.len(),
{
    if s.len() > 0 && is_ws(s[0]) {
        trim_front(s.skip(1))
    } else {
        s
    }
}

/// The string with its trailing whitespace removed.
pub open spec fn trim_back(s: Seq<char>) -> Seq<char>
    decreases s.len(),
{
    if s.len() > 0 && is_ws(s[s.len() - 1]) {
        trim_back(s.drop_last())
    } else {
        s
    }
}

/// The string with surrounding whitespace removed.
pub open spec fn spec_trim(s: Seq<char>) -> Seq<char> {
    trim_back(trim_front(s))
}

proof fn lemma_trim_front_skip(s: Seq<char>, a: int)
    requires
        0 <= a <= s.len(),
        forall|j: int| 0 <= j < a ==> is_ws(s[j]),
        a < s.len() ==> !is_ws(s[a]),
    ensures
        trim_front(s) == s.skip(a),
    decreases a,
{
    if a == 0 {
        assert(s.skip(0) =~= s);
    } else {
        lemma_trim_front_skip(s.skip(1), a - 1);
        assert(s.skip(1).skip(a - 1) =~= s.skip(a));
    }
}

proof fn lemma_trim_back_take(s: Seq<char>, b: int)
    requires
        0 <= b <= s.len(),
        forall|j: int| b <= j < s.len() ==> is_ws(s[j]),
        b > 0 ==> !is_ws(s[b - 1]),
    ensures
        trim_back(s) == s.take(b),
    decreases s.len(),
{
    if b == s.len() {
        assert(s.take(b) =~= s);
    } else {
        lemma_trim_back_take(s.drop_last(), b);
        assert(s.drop_last().take(b) =~= s.take(b));
    }
}

/// Character-by-character string equality, proved against the views.
pub fn str_eq(a: &str, b: &str) -> (r: bool)
    ensures
        r == (a@ == b@),
{
    let n = a.unicode_len();
    if n != b.unicode_len() {
        return false;
    }
    let mut j: usize = 0;
    while j < n
        invariant
            j <= n,
            n == a@.len(),
            n == b@.len(),
            forall|k: int| 0 <= k < j ==> a@[k] == b@[k],
        decreases n - j,
    {
        if a.get_char(j) != b.get_char(j) {
            return false;
        }
        j += 1;
    }
    proof {
        assert(a@ =~= b@);
    }
    true
}

/// Does `needle` occur in `hay` at position `i`?
fn match_at(hay: &str, needle: &str, i: usize, hay_len: usize, needle_len: usize) -> (r: bool)
    requires
        hay_len == hay@.len(),
        needle_len == needle@.len(),
        i + needle_len <= hay_len,
    ensures
        r == is_match_at(hay@, needle@, i as int),
{
    let mut j: usize = 0;
    while j < needle_len
        invariant
            j <= needle_len,
            hay_len == hay@.len(),
            needle_len == needle@.len(),
            i + needle_len <= hay_len,
            forall|k: int| 0 <= k < j ==> hay@[i + k] == needle@[k],
        decreases needle_len - j,
    {
        if hay.get_char(i + j) != needle.get_char(j) {
            proof {
                if is_match_at(hay@, needle@, i as int) {
                    assert(hay@.subrange(i as int, i + needle@.len() as int)[j as int]
                        == needle@[j as int]);
                }
            }
            return false;
        }
        j += 1;
    }
    proof {
        assert(hay@.subrange(i as int, i + needle@.len() as int) =~= needle@);
    }
    true
}

/// Position of the first occurrence of `needle` in `hay`, if any.
pub fn find_sub(hay: &str, needle: &str) -> (r: Option<usize>)
    ensures
        match r {
            Some(i) => find_first(hay@, needle@) == i as int,
            None => find_first(hay@, needle@) == -1,
        },
{
    let hay_len = hay.unicode_len();
    let needle_len = needle.unicode_len();
    if needle_len > hay_len {
        proof {
            lemma_find_first_props(hay@, needle@);
            let f = find_first(hay@, needle@);
            if f != -1 {
                assert(is_match_at(hay@, needle@, f));
            }
        }
        return None;
    }
    if needle_len == 0 {
        proof {
            assert(hay@.subrange(0, 0) =~= needle@);
        }
        return Some(0);
    }
    let last = hay_len - needle_len;
    let mut i: usize = 0;
    while i <= last
        invariant
            hay_len == hay@.len(),
            needle_len == needle@.len(),
            0 < needle_len <= hay_len,
            last == hay_len - needle_len,
            i <= last + 1,
            forall|k: int| 0 <= k < i ==> !is_match_at(hay@, needle@, k),
        decreases last + 1 - i,
    {
        if match_at(hay, needle, i, hay_len, needle_len) {
            proof {
                lemma_find_first_props(hay@, needle@);
                let f = find_first(hay@, needle@);
                if f == -1 {
                    assert(!is_match_at(hay@, needle@, i as int));
                } else if f < i {
                    assert(is_match_at(hay@, needle@, f));
                } else if f > i {
                    assert(!is_match_at(hay@, needle@, i as int));
                }
            }
            return Some(i);
        }
        i += 1;
    }
    proof {
        lemma_find_first_props(hay@, needle@);
        assert forall|k: int| !is_match_at(hay@, needle@, k) by {
            if 0 <= k < i {
            } else if k >= i {
                assert(k + needle@.len() > hay@.len());
            }
        }
        let f = find_first(hay@, needle@);
        if f != -1 {
            assert(is_match_at(hay@, needle@, f));
        }
    }
    None
}

/// A view of `s` with surrounding whitespace removed.
pub fn trim<'a>(s: &'a str) -> (r: &'a str)
    ensures
        r@ == spec_trim(s@),
{
    let n = s.unicode_len();
    let mut a: usize = 0;
    while a < n && is_ws_char(s.get_char(a))
        invariant
            a <= n,
            n == s@.len(),
            forall|j: int| 0 <= j < a ==> is_ws(s@[j]),
        decreases n - a,
    {
        a += 1;
    }
    let mut b: usize = n;
    while b > a && is_ws_char(s.get_char(b - 1))
        invariant
            a <= b <= n,
            n == s@.len(),
            forall|j: int| b <= j < n ==> is_ws(s@[j]),
        decreases b,
    {
        b -= 1;
    }
    proof {
        lemma_trim_front_skip(s@, a as int);
        lemma_trim_back_take(s@.skip(a as int), b - a);
        assert(s@.skip(a as int).take(b - a) =~= s@.subrange(a as int, b as int));
    }
    s.substring_char(a, b)
}

/// Whitespace test on a single character.
fn is_ws_char(c: char) -> (r: bool)
    ensures
        r == is_ws(c),
{
    let u: u32 = c as u32;
    u == 0x20 || (0x9 <= u && u <= 0xD) || u == 0x85 || u == 0xA0 || u == 0x1680 || (0x2000 <= u
        && u <= 0x200A) || u == 0x2028 || u == 0x2029 || u == 0x202F || u == 0x205F || u == 0x3000
}

} // verus!
