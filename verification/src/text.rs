//! Character-level text helpers, each stated over `Seq<char>`.
use crate::cli::join;
use vstd::prelude::*;

verus! {

/// The Unicode `White_Space` property, the set `char::is_whitespace` tests.
pub open spec fn is_ws(c: char) -> bool {
    let u = c as u32;
    ||| 0x9 <= u <= 0xD
    ||| u == 0x20
    ||| u == 0x85
    ||| u == 0xA0
    ||| u == 0x1680
    ||| 0x2000 <= u <= 0x200A
    ||| u == 0x2028
    ||| u == 0x2029
    ||| u == 0x202F
    ||| u == 0x205F
    ||| u == 0x3000
}

/// `s` without its leading whitespace.
pub open spec fn trim_start(s: Seq<char>) -> Seq<char>
    decreases s.len(),
{
    if s.len() > 0 && is_ws(s[0]) {
        trim_start(s.subrange(1, s.len() as int))
    } else {
        s
    }
}

/// `s` without its trailing whitespace.
pub open spec fn trim_end(s: Seq<char>) -> Seq<char>
    decreases s.len(),
{
    if s.len() > 0 && is_ws(s.last()) {
        trim_end(s.drop_last())
    } else {
        s
    }
}

/// `s` without leading and trailing whitespace, as `str::trim` gives it.
pub open spec fn trim(s: Seq<char>) -> Seq<char> {
    trim_end(trim_start(s))
}

/// The pieces of `s` between occurrences of `sep`, as `str::split(sep)` yields them:
/// one more piece than there are separators, empty pieces included.
pub open spec fn split(s: Seq<char>, sep: char) -> Seq<Seq<char>>
    decreases s.len(),
{
    if s.len() == 0 {
        seq![Seq::<char>::empty()]
    } else {
        let rest = split(s.drop_last(), sep);
        if s.last() == sep {
            rest.push(Seq::<char>::empty())
        } else {
            rest.drop_last().push(rest.last().push(s.last()))
        }
    }
}

/// The maximal runs of non-whitespace characters of `s`, as `str::split_whitespace`
/// yields them.
pub open spec fn words(s: Seq<char>) -> Seq<Seq<char>>
    decreases s.len(),
{
    if s.len() == 0 {
        Seq::<Seq<char>>::empty()
    } else {
        let rest = words(s.drop_last());
        let c = s.last();
        if is_ws(c) {
            rest
        } else if s.len() == 1 || is_ws(s[s.len() - 2]) {
            rest.push(seq![c])
        } else {
            rest.drop_last().push(rest.last().push(c))
        }
    }
}

/// Whether `p` is a prefix of `s`.
pub open spec fn has_prefix(s: Seq<char>, p: Seq<char>) -> bool {
    p.len() <= s.len() && s.take(p.len() as int) == p
}

/// Whether `needle` occurs somewhere in `hay` as a contiguous piece.
pub open spec fn contains_seq(hay: Seq<char>, needle: Seq<char>) -> bool {
    exists|i: int|
        0 <= i && i + needle.len() <= hay.len() && #[trigger] hay.subrange(i, i + needle.len())
            == needle
}

/// Each space of `s` replaced by a hyphen.
pub open spec fn spaces_to_hyphens(s: Seq<char>) -> Seq<char> {
    s.map_values(|c: char| if c == ' ' { '-' } else { c })
}

/// The views of a sequence of character vectors.
pub open spec fn char_vecs_view(v: Seq<Vec<char>>) -> Seq<Seq<char>> {
    v.map_values(|x: Vec<char>| x@)
}

/// The views of a sequence of strings.
pub open spec fn strings_view(v: Seq<String>) -> Seq<Seq<char>> {
    v.map_values(|x: String| x@)
}

/// The lowercase form of `s` as `str::to_lowercase` computes it, by the Unicode
/// `Lowercase` mapping (with its context rule for final sigma).
pub uninterp spec fn lowercase(s: Seq<char>) -> Seq<char>;

/// Whether every character of `s` is ASCII.
pub open spec fn is_ascii(s: Seq<char>) -> bool {
    forall|i: int| 0 <= i < s.len() ==> (s[i] as u32) < 128
}

/// Whether `c` is an ASCII uppercase letter.
pub open spec fn is_ascii_upper(c: char) -> bool {
    65 <= (c as u32) <= 90
}

/// `c` with an ASCII uppercase letter mapped to its lowercase letter.
pub open spec fn ascii_lower_char(c: char) -> char {
    if is_ascii_upper(c) {
        ((c as u32) + 32) as char
    } else {
        c
    }
}

/// `s` with each ASCII uppercase letter mapped to its lowercase letter.
pub open spec fn ascii_lower(s: Seq<char>) -> Seq<char> {
    s.map_values(|c: char| ascii_lower_char(c))
}

/// Calls `str::to_lowercase`; the result is named `lowercase` of the argument. On
/// ASCII text it maps `A`-`Z` to `a`-`z` and keeps every other character, as the
/// documentation of `str::to_lowercase` and of `char::to_lowercase` says.
#[verifier::external_body]
pub(crate) fn to_lowercase(s: &str) -> (r: String)
    ensures
        r@ == lowercase(s@),
        is_ascii(s@) ==> r@ == ascii_lower(s@),
{
    s.to_lowercase()
}

/// Calls `String::push`, which appends one character.
#[verifier::external_body]
pub(crate) fn push_char(s: &mut String, c: char)
    ensures
        final(s)@ == old(s)@.push(c),
{
    s.push(c)
}

/// Calls `String::pop`, which removes and returns the last character, if any.
#[verifier::external_body]
pub(crate) fn pop_char(s: &mut String) -> (r: Option<char>)
    ensures
        old(s)@.len() == 0 ==> r is None && final(s)@ == old(s)@,
        old(s)@.len() > 0 ==> r == Some(old(s)@.last()) && final(s)@ == old(s)@.drop_last(),
{
    s.pop()
}

/// Whether `c` is whitespace in the sense of `is_ws`.
pub fn is_whitespace(c: char) -> (b: bool)
    ensures
        b == is_ws(c),
{
    let u = c as u32;
    (0x9 <= u && u <= 0xD) || u == 0x20 || u == 0x85 || u == 0xA0 || u == 0x1680 || (0x2000
        <= u && u <= 0x200A) || u == 0x2028 || u == 0x2029 || u == 0x202F || u == 0x205F || u
        == 0x3000
}

/// The characters of `s`, in order.
pub fn chars_of(s: &str) -> (v: Vec<char>)
    ensures
        v@ == s@,
{
    let n = s.unicode_len();
    let mut v: Vec<char> = Vec::new();
    let mut i: usize = 0;
    while i < n
        invariant
            n == s@.len(),
            i <= n,
            v@ == s@.take(i as int),
        decreases n - i,
    {
        v.push(s.get_char(i));
        i = i + 1;
        assert(v@ =~= s@.take(i as int));
    }
    assert(v@ =~= s@);
    v
}

/// A string holding the characters `v`, in order.
pub fn string_of(v: &[char]) -> (s: String)
    ensures
        s@ == v@,
{
    let mut s = String::new();
    let mut i: usize = 0;
    while i < v.len()
        invariant
            i <= v@.len(),
            s@ == v@.take(i as int),
        decreases v.len() - i,
    {
        push_char(&mut s, v[i]);
        i = i + 1;
        assert(s@ =~= v@.take(i as int));
    }
    assert(s@ =~= v@);
    s
}

/// Whether the characters `v` spell exactly `lit`.
pub fn chars_eq(v: &[char], lit: &str) -> (b: bool)
    ensures
        b == (v@ == lit@),
{
    let n = lit.unicode_len();
    if v.len() != n {
        return false;
    }
    let mut i: usize = 0;
    while i < n
        invariant
            n == lit@.len(),
            n == v@.len(),
            i <= n,
            v@.take(i as int) == lit@.take(i as int),
        decreases n - i,
    {
        if v[i] != lit.get_char(i) {
            return false;
        }
        i = i + 1;
        assert(v@.take(i as int) =~= lit@.take(i as int)) by {
            assert(v@.take(i as int) =~= v@.take(i - 1).push(v@[i - 1]));
            assert(lit@.take(i as int) =~= lit@.take(i - 1).push(lit@[i - 1]));
        }
    }
    assert(v@ =~= v@.take(n as int));
    assert(lit@ =~= lit@.take(n as int));
    true
}

/// Whether the strings `a` and `b` hold the same characters.
pub fn str_eq(a: &str, b: &str) -> (r: bool)
    ensures
        r == (a@ == b@),
{
    let v = chars_of(a);
    chars_eq(v.as_slice(), b)
}

/// Whether `v` starts with the characters of `p`.
pub fn starts_with(v: &[char], p: &str) -> (b: bool)
    ensures
        b == has_prefix(v@, p@),
{
    let n = p.unicode_len();
    if n > v.len() {
        return false;
    }
    let mut i: usize = 0;
    while i < n
        invariant
            n == p@.len(),
            n <= v@.len(),
            i <= n,
            v@.take(i as int) == p@.take(i as int),
        decreases n - i,
    {
        if v[i] != p.get_char(i) {
            assert(v@.take(n as int)[i as int] != p@[i as int]);
            return false;
        }
        i = i + 1;
        assert(v@.take(i as int) =~= p@.take(i as int)) by {
            assert(v@.take(i as int) =~= v@.take(i - 1).push(v@[i - 1]));
            assert(p@.take(i as int) =~= p@.take(i - 1).push(p@[i - 1]));
        }
    }
    assert(p@ =~= p@.take(n as int));
    true
}

proof fn lemma_trim_start_step(s: Seq<char>, i: int)
    requires
        0 <= i < s.len(),
        is_ws(s[i]),
    ensures
        trim_start(s.subrange(i, s.len() as int)) == trim_start(s.subrange(i + 1, s.len() as int)),
{
    let t = s.subrange(i, s.len() as int);
    assert(t.subrange(1, t.len() as int) =~= s.subrange(i + 1, s.len() as int));
}

proof fn lemma_trim_end_step(s: Seq<char>, j: int)
    requires
        0 < j <= s.len(),
        is_ws(s[j - 1]),
    ensures
        trim_end(s.take(j)) == trim_end(s.take(j - 1)),
{
    assert(s.take(j).drop_last() =~= s.take(j - 1));
}

/// What `trim_start` leaves is a suffix, starting with a non-whitespace character.
pub(crate) proof fn lemma_trim_start_suffix(s: Seq<char>) -> (k: int)
    ensures
        0 <= k <= s.len(),
        forall|i: int| 0 <= i < k ==> is_ws(#[trigger] s[i]),
        trim_start(s) == s.subrange(k, s.len() as int),
        trim_start(s).len() > 0 ==> !is_ws(trim_start(s)[0]),
    decreases s.len(),
{
    if s.len() > 0 && is_ws(s[0]) {
        let rest = s.subrange(1, s.len() as int);
        let k1 = lemma_trim_start_suffix(rest);
        assert(rest.subrange(k1, rest.len() as int) =~= s.subrange(k1 + 1, s.len() as int));
        assert forall|i: int| 0 <= i < k1 + 1 implies is_ws(#[trigger] s[i]) by {
            if i > 0 {
                assert(s[i] == rest[i - 1]);
            }
        }
        k1 + 1
    } else {
        assert(s.subrange(0, s.len() as int) =~= s);
        0
    }
}

/// What `trim_end` leaves is a prefix, ending with a non-whitespace character.
pub(crate) proof fn lemma_trim_end_prefix(s: Seq<char>) -> (k: int)
    ensures
        0 <= k <= s.len(),
        forall|i: int| k <= i < s.len() ==> is_ws(#[trigger] s[i]),
        trim_end(s) == s.subrange(0, k),
        trim_end(s).len() > 0 ==> !is_ws(trim_end(s).last()),
    decreases s.len(),
{
    if s.len() > 0 && is_ws(s.last()) {
        let rest = s.drop_last();
        let k1 = lemma_trim_end_prefix(rest);
        assert(rest.subrange(0, k1) =~= s.subrange(0, k1));
        assert forall|i: int| k1 <= i < s.len() implies is_ws(#[trigger] s[i]) by {
            if i < s.len() - 1 {
                assert(s[i] == rest[i]);
            }
        }
        k1
    } else {
        assert(s.subrange(0, s.len() as int) =~= s);
        s.len() as int
    }
}

/// What `trim` leaves is a piece of `s` that neither starts nor ends with
/// whitespace, and trimming it again changes nothing.
pub(crate) proof fn lemma_trim_piece(s: Seq<char>) -> (range: (int, int))
    ensures
        0 <= range.0 <= range.1 <= s.len(),
        trim(s) == s.subrange(range.0, range.1),
        trim(s).len() > 0 ==> !is_ws(trim(s)[0]) && !is_ws(trim(s).last()),
        trim(trim(s)) == trim(s),
{
    let a = lemma_trim_start_suffix(s);
    let mid = trim_start(s);
    let b = lemma_trim_end_prefix(mid);
    assert(mid.subrange(0, b) =~= s.subrange(a, a + b));
    let t = trim(s);
    if t.len() > 0 {
        assert(t[0] == mid[0]);
    }
    lemma_trim_fixed(t);
    (a, a + b)
}

/// A sequence that neither starts nor ends with whitespace is its own trim.
pub(crate) proof fn lemma_trim_fixed(t: Seq<char>)
    requires
        t.len() > 0 ==> !is_ws(t[0]) && !is_ws(t.last()),
    ensures
        trim(t) == t,
{
}

/// `v` without leading and trailing whitespace.
pub fn trim_chars(v: &[char]) -> (r: Vec<char>)
    ensures
        r@ == trim(v@),
{
    let n = v.len();
    let mut i: usize = 0;
    assert(v@.subrange(0, n as int) =~= v@);
    while i < n && is_whitespace(v[i])
        invariant
            n == v@.len(),
            i <= n,
            trim_start(v@) == trim_start(v@.subrange(i as int, n as int)),
        decreases n - i,
    {
        proof {
            lemma_trim_start_step(v@, i as int);
        }
        i = i + 1;
    }
    let ghost mid = v@.subrange(i as int, n as int);
    assert(trim_start(mid) == mid);
    let mut j: usize = n;
    assert(mid.take((n - i) as int) =~= mid);
    while j > i && is_whitespace(v[j - 1])
        invariant
            n == v@.len(),
            i <= j <= n,
            mid == v@.subrange(i as int, n as int),
            trim_end(mid) == trim_end(mid.take(j - i)),
        decreases j,
    {
        proof {
            lemma_trim_end_step(mid, (j - i) as int);
        }
        j = j - 1;
    }
    let mut r: Vec<char> = Vec::new();
    let mut k: usize = i;
    while k < j
        invariant
            i <= k <= j <= n,
            n == v@.len(),
            r@ == v@.subrange(i as int, k as int),
        decreases j - k,
    {
        r.push(v[k]);
        k = k + 1;
        assert(r@ =~= v@.subrange(i as int, k as int));
    }
    assert(mid.take(j - i) =~= r@);
    r
}

/// `s` without leading and trailing whitespace.
pub fn trim_str(s: &str) -> (r: String)
    ensures
        r@ == trim(s@),
{
    let v = chars_of(s);
    let t = trim_chars(v.as_slice());
    string_of(t.as_slice())
}

/// The pieces of `v` between occurrences of `sep`.
pub fn split_chars(v: &[char], sep: char) -> (r: Vec<Vec<char>>)
    ensures
        char_vecs_view(r@) == split(v@, sep),
{
    let mut acc: Vec<Vec<char>> = Vec::new();
    let mut cur: Vec<char> = Vec::new();
    let mut i: usize = 0;
    assert(v@.take(0) =~= Seq::<char>::empty());
    assert(char_vecs_view(acc@).push(cur@) =~= split(v@.take(0), sep));
    while i < v.len()
        invariant
            i <= v@.len(),
            split(v@.take(i as int), sep) == char_vecs_view(acc@).push(cur@),
        decreases v.len() - i,
    {
        let c = v[i];
        let ghost pre = v@.take(i as int);
        assert(v@.take(i + 1).drop_last() =~= pre);
        if c == sep {
            acc.push(cur);
            cur = Vec::new();
            assert(char_vecs_view(acc@).push(cur@) =~= split(pre, sep).push(Seq::<char>::empty()));
        } else {
            cur.push(c);
            assert(char_vecs_view(acc@).push(cur@) =~= split(pre, sep).drop_last().push(
                split(pre, sep).last().push(c),
            ));
        }
        i = i + 1;
    }
    assert(v@.take(v.len() as int) =~= v@);
    acc.push(cur);
    assert(char_vecs_view(acc@) =~= split(v@, sep));
    acc
}

/// The maximal runs of non-whitespace characters of `v`.
pub fn split_words(v: &[char]) -> (r: Vec<Vec<char>>)
    ensures
        char_vecs_view(r@) == words(v@),
{
    let mut acc: Vec<Vec<char>> = Vec::new();
    let mut cur: Vec<char> = Vec::new();
    let mut i: usize = 0;
    assert(v@.take(0) =~= Seq::<char>::empty());
    assert(char_vecs_view(acc@) =~= words(v@.take(0)));
    while i < v.len()
        invariant
            i <= v@.len(),
            cur@.len() > 0 <==> (i > 0 && !is_ws(v@[i - 1])),
            cur@.len() > 0 ==> words(v@.take(i as int)) == char_vecs_view(acc@).push(cur@),
            cur@.len() == 0 ==> words(v@.take(i as int)) == char_vecs_view(acc@),
        decreases v.len() - i,
    {
        let c = v[i];
        let ghost pre = v@.take(i as int);
        let ghost now = v@.take(i + 1);
        assert(now.drop_last() =~= pre);
        assert(now.last() == c);
        if is_whitespace(c) {
            if cur.len() > 0 {
                acc.push(cur);
                cur = Vec::new();
                assert(char_vecs_view(acc@) =~= words(pre));
            }
        } else {
            if cur.len() == 0 {
                if i > 0 {
                    assert(now[now.len() - 2] == v@[i - 1]);
                }
                assert(now.len() == 1 || is_ws(now[now.len() - 2]));
                cur.push(c);
                assert(cur@ =~= seq![c]);
                assert(words(now) =~= char_vecs_view(acc@).push(cur@));
            } else {
                assert(now[now.len() - 2] == v@[i - 1]);
                cur.push(c);
                assert(words(now) =~= char_vecs_view(acc@).push(cur@));
            }
        }
        i = i + 1;
    }
    assert(v@.take(v.len() as int) =~= v@);
    if cur.len() > 0 {
        acc.push(cur);
    }
    assert(char_vecs_view(acc@) =~= words(v@));
    acc
}

/// `v` with each space replaced by a hyphen.
pub fn replace_spaces(v: &[char]) -> (r: Vec<char>)
    ensures
        r@ == spaces_to_hyphens(v@),
{
    let mut r: Vec<char> = Vec::new();
    let mut i: usize = 0;
    while i < v.len()
        invariant
            i <= v@.len(),
            r@ == spaces_to_hyphens(v@.take(i as int)),
        decreases v.len() - i,
    {
        let c = v[i];
        if c == ' ' {
            r.push('-');
        } else {
            r.push(c);
        }
        i = i + 1;
        assert(r@ =~= spaces_to_hyphens(v@.take(i as int)));
    }
    assert(v@.take(v.len() as int) =~= v@);
    r
}

/// Whether `needle` occurs in `hay`.
pub fn contains_chars(hay: &[char], needle: &[char]) -> (b: bool)
    ensures
        b == contains_seq(hay@, needle@),
{
    if needle.len() > hay.len() {
        return false;
    }
    if needle.len() == 0 {
        assert(hay@.subrange(0int, 0int + needle@.len()) =~= needle@);
        return true;
    }
    let hn = hay.len();
    let last = hn - needle.len();
    let mut i: usize = 0;
    while i <= last
        invariant
            hn == hay@.len(),
            last == hay@.len() - needle@.len(),
            1 <= needle@.len() <= hay@.len(),
            i <= last + 1,
            forall|k: int|
                0 <= k < i ==> #[trigger] hay@.subrange(k, k + needle@.len()) != needle@,
        decreases last + 1 - i,
    {
        let mut j: usize = 0;
        let mut same = true;
        assert(hay@.subrange(i as int, i as int) =~= needle@.take(0));
        while j < needle.len()
            invariant
                hn == hay@.len(),
                i <= last,
                needle@.len() <= hay@.len(),
                last == hay@.len() - needle@.len(),
                j <= needle@.len(),
                same == (hay@.subrange(i as int, i + j) == needle@.take(j as int)),
            decreases needle.len() - j,
        {
            assert(i + j < hay@.len());
            if hay[i + j] != needle[j] {
                same = false;
                assert(hay@.subrange(i as int, i + j + 1)[j as int] != needle@.take(j + 1)[j as int]);
            } else if same {
                assert(hay@.subrange(i as int, i + j + 1) =~= hay@.subrange(i as int, i + j).push(
                    hay@[i + j],
                ));
                assert(needle@.take(j + 1) =~= needle@.take(j as int).push(needle@[j as int]));
            }
            if !same {
                assert(hay@.subrange(i as int, i + j + 1) != needle@.take(j + 1)) by {
                    if hay@.subrange(i as int, i + j + 1) == needle@.take(j + 1) {
                        assert(hay@.subrange(i as int, i + j) =~= hay@.subrange(
                            i as int,
                            i + j + 1,
                        ).take(j as int));
                        assert(needle@.take(j as int) =~= needle@.take(j + 1).take(j as int));
                    }
                }
            }
            j = j + 1;
        }
        assert(needle@.take(needle@.len() as int) =~= needle@);
        if same {
            return true;
        }
        i = i + 1;
    }
    assert forall|k: int|
        0 <= k && k + needle@.len() <= hay@.len() implies #[trigger] hay@.subrange(
        k,
        k + needle@.len(),
    ) != needle@ by {}
    false
}

/// The decimal digit `d` (for `d < 10`).
pub open spec fn digit_char(d: nat) -> char {
    if d == 0 {
        '0'
    } else if d == 1 {
        '1'
    } else if d == 2 {
        '2'
    } else if d == 3 {
        '3'
    } else if d == 4 {
        '4'
    } else if d == 5 {
        '5'
    } else if d == 6 {
        '6'
    } else if d == 7 {
        '7'
    } else if d == 8 {
        '8'
    } else {
        '9'
    }
}

/// The decimal digits of `n`, most significant first, without leading zeros.
pub open spec fn digits(n: nat) -> Seq<char>
    decreases n,
{
    if n < 10 {
        seq![digit_char(n)]
    } else {
        digits(n / 10).push(digit_char(n % 10))
    }
}

/// The decimal form of `n`, with a leading `-` when it is negative, as `Display` writes
/// an integer.
pub open spec fn decimal(n: int) -> Seq<char> {
    if n < 0 {
        seq!['-'] + digits((-n) as nat)
    } else {
        digits(n as nat)
    }
}

fn digit(d: u64) -> (c: char)
    requires
        d < 10,
    ensures
        c == digit_char(d as nat),
{
    if d == 0 {
        '0'
    } else if d == 1 {
        '1'
    } else if d == 2 {
        '2'
    } else if d == 3 {
        '3'
    } else if d == 4 {
        '4'
    } else if d == 5 {
        '5'
    } else if d == 6 {
        '6'
    } else if d == 7 {
        '7'
    } else if d == 8 {
        '8'
    } else {
        '9'
    }
}

fn digits_of(n: u64) -> (v: Vec<char>)
    ensures
        v@ == digits(n as nat),
    decreases n,
{
    if n < 10 {
        let mut v: Vec<char> = Vec::new();
        v.push(digit(n));
        assert(v@ =~= seq![digit_char(n as nat)]);
        v
    } else {
        let mut v = digits_of(n / 10);
        v.push(digit(n % 10));
        v
    }
}

/// The decimal form of `n`.
pub fn decimal_i32(n: i32) -> (s: String)
    ensures
        s@ == decimal(n as int),
{
    if n < 0 {
        let m: u64 = (0i64 - (n as i64)) as u64;
        let d = digits_of(m);
        let mut v: Vec<char> = Vec::new();
        v.push('-');
        let mut i: usize = 0;
        while i < d.len()
            invariant
                i <= d@.len(),
                v@ == seq!['-'] + d@.take(i as int),
            decreases d.len() - i,
        {
            v.push(d[i]);
            i = i + 1;
            assert(v@ =~= seq!['-'] + d@.take(i as int));
        }
        assert(d@.take(d.len() as int) =~= d@);
        string_of(v.as_slice())
    } else {
        let d = digits_of(n as u64);
        string_of(d.as_slice())
    }
}


/// Splitting gives at least one piece, no piece holds the separator, and joining the
/// pieces with the separator gives back the text.
pub proof fn lemma_split_pieces(s: Seq<char>, sep: char)
    ensures
        split(s, sep).len() >= 1,
        forall|i: int, k: int|
            0 <= i < split(s, sep).len() && 0 <= k < split(s, sep)[i].len() ==> #[trigger] split(
                s,
                sep,
            )[i][k] != sep,
        join(split(s, sep), seq![sep]) == s,
    decreases s.len(),
{
    if s.len() > 0 {
        let s0 = s.drop_last();
        lemma_split_pieces(s0, sep);
        let rest = split(s0, sep);
        let c = s.last();
        if c == sep {
            let r = rest.push(Seq::<char>::empty());
            assert(r.drop_last() =~= rest);
            assert(join(r, seq![sep]) == join(rest, seq![sep]) + seq![sep] + Seq::<char>::empty());
            assert(s0 + seq![sep] + Seq::<char>::empty() =~= s);
            assert forall|i: int, k: int|
                0 <= i < r.len() && 0 <= k < r[i].len() implies #[trigger] r[i][k] != sep by {
                assert(r[i] == rest[i]);
            }
        } else {
            let last = rest.last().push(c);
            let r = rest.drop_last().push(last);
            assert(r.drop_last() =~= rest.drop_last());
            if rest.len() == 1 {
                assert(join(rest, seq![sep]) == rest[0]);
                assert(join(r, seq![sep]) == r[0]);
                assert(last =~= s);
            } else {
                assert(join(rest, seq![sep]) == join(rest.drop_last(), seq![sep]) + seq![sep] + rest.last());
                assert(join(r, seq![sep]) == join(rest.drop_last(), seq![sep]) + seq![sep] + last);
                assert(join(rest.drop_last(), seq![sep]) + seq![sep] + last =~= (join(
                    rest.drop_last(),
                    seq![sep],
                ) + seq![sep] + rest.last()).push(c));
                assert(s0.push(c) =~= s);
            }
            assert forall|i: int, k: int|
                0 <= i < r.len() && 0 <= k < r[i].len() implies #[trigger] r[i][k] != sep by {
                if i < r.len() - 1 {
                    assert(r[i] == rest[i]);
                } else if k < rest.last().len() {
                    assert(r[i][k] == rest[rest.len() - 1][k]);
                }
            }
        }
    } else {
        assert(join(seq![Seq::<char>::empty()], seq![sep]) == Seq::<char>::empty());
    }
}


/// Whether `w` holds no whitespace.
pub open spec fn no_ws(w: Seq<char>) -> bool {
    forall|i: int| 0 <= i < w.len() ==> !is_ws(#[trigger] w[i])
}

/// A run without whitespace is one word.
pub proof fn lemma_words_single(w: Seq<char>)
    requires
        w.len() > 0,
        no_ws(w),
    ensures
        words(w) == seq![w],
    decreases w.len(),
{
    let c = w.last();
    assert(!is_ws(w[w.len() - 1]));
    if w.len() == 1 {
        assert(w.drop_last() =~= Seq::<char>::empty());
        assert(words(w.drop_last()) == Seq::<Seq<char>>::empty());
        assert(words(w) == words(w.drop_last()).push(seq![c]));
        assert(seq![c] =~= w);
        assert(Seq::<Seq<char>>::empty().push(w) =~= seq![w]);
    } else {
        let p = w.drop_last();
        assert(no_ws(p)) by {
            assert forall|i: int| 0 <= i < p.len() implies !is_ws(#[trigger] p[i]) by {
                assert(p[i] == w[i]);
            }
        }
        lemma_words_single(p);
        assert(!is_ws(w[w.len() - 2]));
        assert(words(w) == words(p).drop_last().push(words(p).last().push(c)));
        assert(seq![p].drop_last() =~= Seq::<Seq<char>>::empty());
        assert(p.push(c) =~= w);
        assert(Seq::<Seq<char>>::empty().push(w) =~= seq![w]);
    }
}

/// A space and a further run without whitespace add that run as one more word.
pub proof fn lemma_words_append_word(a: Seq<char>, w: Seq<char>)
    requires
        w.len() > 0,
        no_ws(w),
    ensures
        words(a + seq![' '] + w) == words(a).push(w),
    decreases w.len(),
{
    let x = a + seq![' '] + w;
    let c = w.last();
    assert(!is_ws(w[w.len() - 1]));
    assert(x.last() == c);
    assert((a + seq![' ']).drop_last() =~= a);
    assert(is_ws(' '));
    assert(words(a + seq![' ']) == words(a));
    if w.len() == 1 {
        assert(x.drop_last() =~= a + seq![' ']);
        assert(x[x.len() - 2] == ' ');
        assert(words(x) == words(x.drop_last()).push(seq![c]));
        assert(seq![c] =~= w);
    } else {
        let p = w.drop_last();
        assert(no_ws(p)) by {
            assert forall|i: int| 0 <= i < p.len() implies !is_ws(#[trigger] p[i]) by {
                assert(p[i] == w[i]);
            }
        }
        lemma_words_append_word(a, p);
        assert(x.drop_last() =~= a + seq![' '] + p);
        assert(x[x.len() - 2] == w[w.len() - 2]);
        assert(!is_ws(w[w.len() - 2]));
        assert(words(x) == words(x.drop_last()).drop_last().push(words(x.drop_last()).last().push(c)));
        assert(p.push(c) =~= w);
        assert(words(a).push(p).drop_last() =~= words(a));
    }
}


/// Trimming takes off exactly the whitespace at both ends: what is left is a run of
/// the text that neither starts nor ends with whitespace, and everything before and
/// after it is whitespace. Space, tab, line feed and carriage return are whitespace;
/// letters, digits, `-` and `_` are not.
pub proof fn lemma_trim_strips_whitespace(s: Seq<char>) -> (range: (int, int))
    ensures
        0 <= range.0 <= range.1 <= s.len(),
        trim(s) == s.subrange(range.0, range.1),
        forall|i: int| 0 <= i < range.0 ==> is_ws(#[trigger] s[i]),
        forall|i: int| range.1 <= i < s.len() ==> is_ws(#[trigger] s[i]),
        trim(s).len() > 0 ==> !is_ws(trim(s)[0]) && !is_ws(trim(s).last()),
        is_ws(' ') && is_ws('\t') && is_ws('\n') && is_ws('\r'),
        forall|c: char| ('a' <= c <= 'z' || 'A' <= c <= 'Z' || '0' <= c <= '9' || c == '-' || c == '_') ==> !is_ws(c),
{
    let a = lemma_trim_start_suffix(s);
    let mid = trim_start(s);
    let b = lemma_trim_end_prefix(mid);
    assert(mid.subrange(0, b) =~= s.subrange(a, a + b));
    assert forall|i: int| a + b <= i < s.len() implies is_ws(#[trigger] s[i]) by {
        assert(mid[i - a] == s[i]);
    }
    lemma_trim_piece(s);
    (a, a + b)
}

} // verus!
