//! Verified string utilities the log classifier and the list parsers build
//! on: whitespace tests, substring search, token extraction, and decimal
//! conversion in both directions.

use vstd::prelude::*;
use vstd::string::*;

verus! {

/// The characters `char::is_whitespace` accepts: the Unicode `White_Space`
/// set.
pub open spec fn is_space(c: char) -> bool {
    c == ' ' || c == '\t' || c == '\n' || c == '\r' || c == '\u{000B}' || c == '\u{000C}'
        || c == '\u{0085}' || c == '\u{00A0}' || c == '\u{1680}' || c == '\u{2000}'
        || c == '\u{2001}' || c == '\u{2002}' || c == '\u{2003}' || c == '\u{2004}'
        || c == '\u{2005}' || c == '\u{2006}' || c == '\u{2007}' || c == '\u{2008}'
        || c == '\u{2009}' || c == '\u{200A}' || c == '\u{2028}' || c == '\u{2029}'
        || c == '\u{202F}' || c == '\u{205F}' || c == '\u{3000}'
}

/// Executable counterpart of `is_space`.
pub fn is_space_char(c: char) -> (r: bool)
    ensures
        r == is_space(c),
{
    c == ' ' || c == '\t' || c == '\n' || c == '\r' || c == '\u{000B}' || c == '\u{000C}'
        || c == '\u{0085}' || c == '\u{00A0}' || c == '\u{1680}' || c == '\u{2000}'
        || c == '\u{2001}' || c == '\u{2002}' || c == '\u{2003}' || c == '\u{2004}'
        || c == '\u{2005}' || c == '\u{2006}' || c == '\u{2007}' || c == '\u{2008}'
        || c == '\u{2009}' || c == '\u{200A}' || c == '\u{2028}' || c == '\u{2029}'
        || c == '\u{202F}' || c == '\u{205F}' || c == '\u{3000}'
}

/// `needle` occurs in `hay` starting at position `k`.
pub open spec fn matches_at(hay: Seq<char>, needle: Seq<char>, k: int) -> bool {
    &&& 0 <= k
    &&& k + needle.len() <= hay.len()
    &&& forall|j: int| 0 <= j < needle.len() ==> hay[k + j] == needle[j]
}

/// `needle` occurs somewhere in `hay`.
pub open spec fn contains_seq(hay: Seq<char>, needle: Seq<char>) -> bool {
    exists|k: int| matches_at(hay, needle, k)
}

/// Position of the first occurrence of `needle` in `hay` at or after `i`.
pub open spec fn find_sub_from(hay: Seq<char>, needle: Seq<char>, i: int) -> Option<int>
    decreases hay.len() - i,
{
    if i < 0 || i + needle.len() > hay.len() {
        None
    } else if matches_at(hay, needle, i) {
        Some(i)
    } else {
        find_sub_from(hay, needle, i + 1)
    }
}

/// `find_sub_from` finds exactly the first occurrence at or after `i`:
/// `Some(k)` is an occurrence with none earlier, and `None` means there is no
/// occurrence at or after `i` at all.
pub proof fn lemma_find_sub_from(hay: Seq<char>, needle: Seq<char>, i: int)
    requires
        0 <= i,
    ensures
        match find_sub_from(hay, needle, i) {
            Some(k) => i <= k && matches_at(hay, needle, k) && forall|m: int|
                i <= m < k ==> !matches_at(hay, needle, m),
            None => forall|m: int| i <= m ==> !matches_at(hay, needle, m),
        },
    decreases hay.len() - i,
{
    if i + needle.len() > hay.len() {
        assert forall|m: int| i <= m implies !matches_at(hay, needle, m) by {}
    } else if matches_at(hay, needle, i) {
    } else {
        lemma_find_sub_from(hay, needle, i + 1);
    }
}

/// A search from the start decides `contains_seq`.
pub proof fn lemma_find_sub_contains(hay: Seq<char>, needle: Seq<char>)
    ensures
        find_sub_from(hay, needle, 0).is_some() <==> contains_seq(hay, needle),
{
    lemma_find_sub_from(hay, needle, 0);
    if contains_seq(hay, needle) {
        let k = choose|k: int| matches_at(hay, needle, k);
        if find_sub_from(hay, needle, 0) is None {
            assert(!matches_at(hay, needle, k));
        }
    }
}

/// Finds the first occurrence of `needle` in `hay`, as a character position.
pub fn find_sub(hay: &str, needle: &str) -> (r: Option<usize>)
    ensures
        match r {
            Some(k) => find_sub_from(hay@, needle@, 0) == Some(k as int),
            None => find_sub_from(hay@, needle@, 0) is None,
        },
{
    let hay_len = hay.unicode_len();
    let needle_len = needle.unicode_len();
    if needle_len > hay_len {
        return None;
    }
    let mut i: usize = 0;
    while i <= hay_len - needle_len
        invariant
            hay_len == hay@.len(),
            needle_len == needle@.len(),
            needle_len <= hay_len,
            0 <= i <= hay_len - needle_len + 1,
            find_sub_from(hay@, needle@, 0) == find_sub_from(hay@, needle@, i as int),
        decreases hay_len - i,
    {
        let mut j: usize = 0;
        let mut all_eq = true;
        while j < needle_len
            invariant
                hay_len == hay@.len(),
                needle_len == needle@.len(),
                i + needle_len <= hay_len,
                0 <= j <= needle_len,
                all_eq <==> forall|m: int| 0 <= m < j ==> hay@[i + m] == needle@[m],
            decreases needle_len - j,
        {
            let hc = hay.get_char(i + j);
            let nc = needle.get_char(j);
            if hc != nc {
                all_eq = false;
                proof {
                    assert(hay@[i + j as int] != needle@[j as int]);
                }
                j = needle_len;
            } else {
                j = j + 1;
            }
        }
        if all_eq {
            proof {
                assert(matches_at(hay@, needle@, i as int));
            }
            return Some(i);
        }
        proof {
            assert(!matches_at(hay@, needle@, i as int));
        }
        i = i + 1;
    }
    proof {
        assert(find_sub_from(hay@, needle@, i as int) is None);
    }
    None
}

/// Whether `hay` contains `needle`, mirroring `str::contains`.
pub fn contains_sub(hay: &str, needle: &str) -> (r: bool)
    ensures
        r == contains_seq(hay@, needle@),
{
    proof {
        lemma_find_sub_contains(hay@, needle@);
    }
    find_sub(hay, needle).is_some()
}

/// Smallest `e' <= e` such that `s[e'..e]` is all whitespace; the end of the
/// last whitespace-delimited token of `s[..e]`, if one exists.
pub open spec fn skip_spaces_back(s: Seq<char>, e: int) -> int
    decreases e,
{
    if e > 0 && e <= s.len() && is_space(s[e - 1]) {
        skip_spaces_back(s, e - 1)
    } else {
        e
    }
}

/// Start of the maximal non-whitespace run ending right before `e`.
pub open spec fn token_start(s: Seq<char>, e: int) -> int
    decreases e,
{
    if e > 0 && e <= s.len() && !is_space(s[e - 1]) {
        token_start(s, e - 1)
    } else {
        e
    }
}

/// What `line.split_whitespace().last()` yields: the last whitespace-delimited
/// token of `s`, or `None` when `s` holds no non-whitespace character.
pub open spec fn last_token(s: Seq<char>) -> Option<Seq<char>> {
    let e = skip_spaces_back(s, s.len() as int);
    if e <= 0 {
        None
    } else {
        Some(s.subrange(token_start(s, e), e))
    }
}



/// Character bounds of the last whitespace-delimited token of `s`, as
/// `last_token` describes it.
pub fn find_last_token(s: &str) -> (r: Option<(usize, usize)>)
    ensures
        match r {
            Some((b, e)) => {
                &&& 0 <= b < e <= s@.len()
                &&& last_token(s@) == Some(s@.subrange(b as int, e as int))
            },
            None => last_token(s@) is None,
        },
{
    let n = s.unicode_len();
    let mut e: usize = n;
    while e > 0 && is_space_char(s.get_char(e - 1))
        invariant
            n == s@.len(),
            0 <= e <= n,
            skip_spaces_back(s@, n as int) == skip_spaces_back(s@, e as int),
        decreases e,
    {
        e = e - 1;
    }
    if e == 0 {
        return None;
    }
    proof {
        assert(skip_spaces_back(s@, e as int) == e as int);
    }
    let mut b: usize = e;
    while b > 0 && !is_space_char(s.get_char(b - 1))
        invariant
            n == s@.len(),
            0 <= b <= e <= n,
            token_start(s@, e as int) == token_start(s@, b as int),
        decreases b,
    {
        b = b - 1;
    }
    proof {
        assert(token_start(s@, b as int) == b as int);
    }
    Some((b, e))
}

/// Position of the last occurrence of `c` in `s[..e]`, as `str::rsplit_once`
/// would find it.
pub open spec fn find_char_last_before(s: Seq<char>, c: char, e: int) -> Option<int>
    decreases e,
{
    if e <= 0 || e > s.len() {
        None
    } else if s[e - 1] == c {
        Some(e - 1)
    } else {
        find_char_last_before(s, c, e - 1)
    }
}

/// Position of the last occurrence of `c` in `s`.
pub open spec fn find_char_last(s: Seq<char>, c: char) -> Option<int> {
    find_char_last_before(s, c, s.len() as int)
}

pub proof fn lemma_find_char_last_before(s: Seq<char>, c: char, e: int)
    requires
        e <= s.len(),
    ensures
        match find_char_last_before(s, c, e) {
            Some(k) => 0 <= k < e && s[k] == c && forall|m: int| k < m < e ==> s[m] != c,
            None => forall|m: int| 0 <= m < e ==> s[m] != c,
        },
    decreases e,
{
    if 0 < e && s[e - 1] != c {
        lemma_find_char_last_before(s, c, e - 1);
    }
}

/// Smallest `i' >= i` such that `s[i..i']` is all whitespace.
pub open spec fn skip_spaces_front(s: Seq<char>, i: int) -> int
    decreases s.len() - i,
{
    if 0 <= i < s.len() && is_space(s[i]) {
        skip_spaces_front(s, i + 1)
    } else {
        i
    }
}


/// Smallest `i' >= i` such that `s[i..i']` is all `*`, as
/// `str::trim_start_matches("*")` skips them.
pub open spec fn skip_stars_front(s: Seq<char>, i: int) -> int
    decreases s.len() - i,
{
    if 0 <= i < s.len() && s[i] == '*' {
        skip_stars_front(s, i + 1)
    } else {
        i
    }
}


/// What `str::trim` yields: `s` without leading and trailing whitespace.
pub open spec fn trim_spec(s: Seq<char>) -> Seq<char> {
    let b = skip_spaces_front(s, 0);
    let e = skip_spaces_back(s, s.len() as int);
    if b < e {
        s.subrange(b, e)
    } else {
        Seq::empty()
    }
}

/// Index where the whitespace prefix of `s` starting at `start` ends.
pub fn skip_spaces_from_idx(s: &str, start: usize) -> (r: usize)
    requires
        start <= s@.len(),
    ensures
        r == skip_spaces_front(s@, start as int),
        start <= r <= s@.len(),
{
    let n = s.unicode_len();
    let mut i: usize = start;
    while i < n && is_space_char(s.get_char(i))
        invariant
            n == s@.len(),
            start <= i <= n,
            skip_spaces_front(s@, start as int) == skip_spaces_front(s@, i as int),
        decreases n - i,
    {
        i = i + 1;
    }
    i
}

/// Index where the `*` prefix of `s` starting at `start` ends.
pub fn skip_stars_from_idx(s: &str, start: usize) -> (r: usize)
    requires
        start <= s@.len(),
    ensures
        r == skip_stars_front(s@, start as int),
        start <= r <= s@.len(),
{
    let n = s.unicode_len();
    let mut i: usize = start;
    while i < n && s.get_char(i) == '*'
        invariant
            n == s@.len(),
            start <= i <= n,
            skip_stars_front(s@, start as int) == skip_stars_front(s@, i as int),
        decreases n - i,
    {
        i = i + 1;
    }
    i
}

/// Trims `s` at both ends, as `str::trim` does.
pub fn trim_str<'a>(s: &'a str) -> (r: &'a str)
    ensures
        r@ == trim_spec(s@),
{
    let n = s.unicode_len();
    let b = skip_spaces_from_idx(s, 0);
    let mut e: usize = n;
    while e > 0 && is_space_char(s.get_char(e - 1))
        invariant
            n == s@.len(),
            0 <= e <= n,
            skip_spaces_back(s@, n as int) == skip_spaces_back(s@, e as int),
        decreases e,
    {
        e = e - 1;
    }
    if b < e {
        s.substring_char(b, e)
    } else {
        let r = s.substring_char(0, 0);
        proof {
            assert(r@ =~= Seq::<char>::empty());
        }
        r
    }
}

/// Position of the first whitespace character of `s` at or after `i`, as
/// `str::splitn` with `char::is_whitespace` would split there.
pub open spec fn find_space_from(s: Seq<char>, i: int) -> Option<int>
    decreases s.len() - i,
{
    if i < 0 || i >= s.len() {
        None
    } else if is_space(s[i]) {
        Some(i)
    } else {
        find_space_from(s, i + 1)
    }
}

pub proof fn lemma_find_space_from(s: Seq<char>, i: int)
    requires
        0 <= i,
    ensures
        match find_space_from(s, i) {
            Some(k) => i <= k < s.len() && is_space(s[k]) && forall|m: int|
                i <= m < k ==> !is_space(s[m]),
            None => forall|m: int| i <= m < s.len() ==> !is_space(s[m]),
        },
    decreases s.len() - i,
{
    if i < s.len() && !is_space(s[i]) {
        lemma_find_space_from(s, i + 1);
    }
}

/// Finds the first whitespace character of `s`.
pub fn find_space(s: &str) -> (r: Option<usize>)
    ensures
        match r {
            Some(k) => find_space_from(s@, 0) == Some(k as int),
            None => find_space_from(s@, 0) is None,
        },
{
    let n = s.unicode_len();
    let mut i: usize = 0;
    while i < n
        invariant
            n == s@.len(),
            0 <= i <= n,
            find_space_from(s@, 0) == find_space_from(s@, i as int),
        decreases n - i,
    {
        if is_space_char(s.get_char(i)) {
            return Some(i);
        }
        i = i + 1;
    }
    None
}

/// Character-wise string equality, what `==` on `str` decides.
pub fn str_eq(a: &str, b: &str) -> (r: bool)
    ensures
        r == (a@ == b@),
{
    let na = a.unicode_len();
    let nb = b.unicode_len();
    if na != nb {
        return false;
    }
    let mut i: usize = 0;
    while i < na
        invariant
            na == a@.len(),
            na == b@.len(),
            0 <= i <= na,
            forall|j: int| 0 <= j < i ==> a@[j] == b@[j],
        decreases na - i,
    {
        if a.get_char(i) != b.get_char(i) {
            return false;
        }
        i = i + 1;
    }
    proof {
        assert(a@ =~= b@);
    }
    true
}

pub open spec fn is_digit(c: char) -> bool {
    c == '0' || c == '1' || c == '2' || c == '3' || c == '4' || c == '5' || c == '6' || c == '7'
        || c == '8' || c == '9'
}

pub open spec fn digit_val(c: char) -> nat {
    if c == '0' {
        0
    } else if c == '1' {
        1
    } else if c == '2' {
        2
    } else if c == '3' {
        3
    } else if c == '4' {
        4
    } else if c == '5' {
        5
    } else if c == '6' {
        6
    } else if c == '7' {
        7
    } else if c == '8' {
        8
    } else {
        9
    }
}

pub open spec fn all_digits(s: Seq<char>) -> bool {
    forall|i: int| 0 <= i < s.len() ==> is_digit(s[i])
}

/// Numeric value of a digit string, most significant digit first.
pub open spec fn digits_val(s: Seq<char>) -> nat
    decreases s.len(),
{
    if s.len() == 0 {
        0
    } else {
        digits_val(s.drop_last()) * 10 + digit_val(s.last())
    }
}

/// Extending a digit string on the right cannot shrink its value.
pub proof fn lemma_digits_val_prefix_le(s: Seq<char>, i: int)
    requires
        0 <= i <= s.len(),
    ensures
        digits_val(s.subrange(0, i)) <= digits_val(s),
    decreases s.len() - i,
{
    if i == s.len() {
        assert(s.subrange(0, i) =~= s);
    } else {
        let p = s.subrange(0, i);
        let q = s.subrange(0, i + 1);
        assert(q.drop_last() =~= p);
        assert(digits_val(q) == digits_val(p) * 10 + digit_val(q.last()));
        lemma_digits_val_prefix_le(s, i + 1);
    }
}

/// What `str::parse::<u16>` returns: an optional leading `+`, then one or
/// more decimal digits whose value fits in a `u16`; anything else fails.
pub open spec fn parse_u16_spec(s: Seq<char>) -> Option<u16> {
    let body = if s.len() > 0 && s[0] == '+' {
        s.subrange(1, s.len() as int)
    } else {
        s
    };
    if body.len() > 0 && all_digits(body) && digits_val(body) <= 65535 {
        Some(digits_val(body) as u16)
    } else {
        None
    }
}

/// Maps a decimal digit character to its value.
pub fn digit_of(c: char) -> (r: Option<u32>)
    ensures
        r == if is_digit(c) {
            Some(digit_val(c) as u32)
        } else {
            None::<u32>
        },
{
    if c == '0' {
        Some(0)
    } else if c == '1' {
        Some(1)
    } else if c == '2' {
        Some(2)
    } else if c == '3' {
        Some(3)
    } else if c == '4' {
        Some(4)
    } else if c == '5' {
        Some(5)
    } else if c == '6' {
        Some(6)
    } else if c == '7' {
        Some(7)
    } else if c == '8' {
        Some(8)
    } else if c == '9' {
        Some(9)
    } else {
        None
    }
}

/// Parses a `u16` exactly as `str::parse::<u16>` does.
pub fn parse_u16(s: &str) -> (r: Option<u16>)
    ensures
        r == parse_u16_spec(s@),
{
    let n = s.unicode_len();
    let start: usize = if n > 0 && s.get_char(0) == '+' {
        1
    } else {
        0
    };
    let ghost body = if s@.len() > 0 && s@[0] == '+' {
        s@.subrange(1, s@.len() as int)
    } else {
        s@
    };
    proof {
        assert(body =~= s@.subrange(start as int, n as int));
    }
    if start >= n {
        return None;
    }
    let mut acc: u32 = 0;
    let mut i: usize = start;
    while i < n
        invariant
            n == s@.len(),
            start <= i <= n,
            start < n,
            start == 0 || start == 1,
            (start == 1) <==> (s@.len() > 0 && s@[0] == '+'),
            body == s@.subrange(start as int, n as int),
            body == (if s@.len() > 0 && s@[0] == '+' {
                s@.subrange(1, s@.len() as int)
            } else {
                s@
            }),
            acc <= 65535,
            acc == digits_val(body.subrange(0, i - start)),
            all_digits(body.subrange(0, i - start)),
        decreases n - i,
    {
        let c = s.get_char(i);
        let ghost k = i - start;
        proof {
            assert(body[k as int] == s@[i as int]);
        }
        match digit_of(c) {
            None => {
                proof {
                    assert(!is_digit(body[k as int]));
                    assert(!all_digits(body));
                }
                return None;
            },
            Some(d) => {
                proof {
                    let p = body.subrange(0, k as int);
                    let q = body.subrange(0, k + 1);
                    assert(q.drop_last() =~= p);
                    assert(q.last() == body[k as int]);
                }
                acc = acc * 10 + d;
                i = i + 1;
                if acc > 65535 {
                    proof {
                        if all_digits(body) {
                            lemma_digits_val_prefix_le(body, i - start);
                        }
                    }
                    return None;
                }
            },
        }
    }
    proof {
        assert(body.subrange(0, (i - start) as int) =~= body);
    }
    Some(acc as u16)
}

/// Decimal digit character of a value below ten.
pub open spec fn digit_char(d: nat) -> char {
    if d == 0 {
        '0'
    } else if d == 1 {
        '1'
    } else if d == 2 {
        '2'
    } else if d == 3 {
        '3'
    } else if d == 4 {
        '4'
    } else if d == 5 {
        '5'
    } else if d == 6 {
        '6'
    } else if d == 7 {
        '7'
    } else if d == 8 {
        '8'
    } else {
        '9'
    }
}

/// Decimal rendering of `n`, most significant digit first, no sign and no
/// leading zero except for `n == 0` itself.
pub open spec fn dec_str(n: nat) -> Seq<char>
    decreases n,
{
    if n < 10 {
        seq![digit_char(n)]
    } else {
        dec_str(n / 10).push(digit_char(n % 10))
    }
}

fn digit_str(d: u32) -> (r: &'static str)
    requires
        d < 10,
    ensures
        r@ =~= seq![digit_char(d as nat)],
{
    if d == 0 {
        proof {
            reveal_strlit("0");
        }
        "0"
    } else if d == 1 {
        proof {
            reveal_strlit("1");
        }
        "1"
    } else if d == 2 {
        proof {
            reveal_strlit("2");
        }
        "2"
    } else if d == 3 {
        proof {
            reveal_strlit("3");
        }
        "3"
    } else if d == 4 {
        proof {
            reveal_strlit("4");
        }
        "4"
    } else if d == 5 {
        proof {
            reveal_strlit("5");
        }
        "5"
    } else if d == 6 {
        proof {
            reveal_strlit("6");
        }
        "6"
    } else if d == 7 {
        proof {
            reveal_strlit("7");
        }
        "7"
    } else if d == 8 {
        proof {
            reveal_strlit("8");
        }
        "8"
    } else {
        proof {
            reveal_strlit("9");
        }
        "9"
    }
}

/// Renders `x` in decimal, as `u32::to_string` does.
pub fn u32_to_dec(x: u32) -> (r: String)
    ensures
        r@ == dec_str(x as nat),
    decreases x,
{
    if x < 10 {
        let s = String::from_str(digit_str(x));
        proof {
            assert(s@ =~= dec_str(x as nat));
        }
        s
    } else {
        let mut s = u32_to_dec(x / 10);
        s.append(digit_str(x % 10));
        proof {
            assert(s@ =~= dec_str(x as nat));
        }
        s
    }
}

/// Renders `x` in decimal, as `u16::to_string` does.
pub fn u16_to_dec(x: u16) -> (r: String)
    ensures
        r@ == dec_str(x as nat),
{
    u32_to_dec(x as u32)
}

/// Finds the last occurrence of `c` in `s`.
pub fn find_last_char(s: &str, c: char) -> (r: Option<usize>)
    ensures
        match r {
            Some(k) => find_char_last(s@, c) == Some(k as int),
            None => find_char_last(s@, c) is None,
        },
{
    let n = s.unicode_len();
    let mut e: usize = n;
    while e > 0
        invariant
            n == s@.len(),
            0 <= e <= n,
            find_char_last_before(s@, c, n as int) == find_char_last_before(s@, c, e as int),
        decreases e,
    {
        if s.get_char(e - 1) == c {
            return Some(e - 1);
        }
        e = e - 1;
    }
    None
}

} // verus!
