//! Character-level text operations used by the library's parsers and formatters.

use vstd::prelude::*;

verus! {

/// Unicode `White_Space` code points, as used by `char::is_whitespace`.
pub open spec fn is_ws(c: char) -> bool {
    ||| c == ' '
    ||| ('\t' <= c && c <= '\r')
    ||| c == '\u{85}'
    ||| c == '\u{a0}'
    ||| c == '\u{1680}'
    ||| ('\u{2000}' <= c && c <= '\u{200a}')
    ||| c == '\u{2028}'
    ||| c == '\u{2029}'
    ||| c == '\u{202f}'
    ||| c == '\u{205f}'
    ||| c == '\u{3000}'
}

/// A set of characters removed by trimming.
#[derive(Clone, Copy, Debug)]
pub enum TrimSet {
    /// Unicode whitespace.
    Whitespace,
    /// One specific character.
    Char(char),
}

pub open spec fn in_set(t: TrimSet, c: char) -> bool {
    match t {
        TrimSet::Whitespace => is_ws(c),
        TrimSet::Char(x) => c == x,
    }
}

/// Drops the leading characters of `s` that belong to `t`.
pub open spec fn trim_start(s: Seq<char>, t: TrimSet) -> Seq<char>
    decreases s.len(),
{
    if s.len() > 0 && in_set(t, s[0]) {
        trim_start(s.drop_first(), t)
    } else {
        s
    }
}

/// Drops the trailing characters of `s` that belong to `t`.
pub open spec fn trim_end(s: Seq<char>, t: TrimSet) -> Seq<char>
    decreases s.len(),
{
    if s.len() > 0 && in_set(t, s.last()) {
        trim_end(s.drop_last(), t)
    } else {
        s
    }
}

/// Both ends trimmed, as `str::trim_matches` does.
pub open spec fn trim(s: Seq<char>, t: TrimSet) -> Seq<char> {
    trim_end(trim_start(s, t), t)
}

/// `str::trim`.
pub open spec fn trim_ws(s: Seq<char>) -> Seq<char> {
    trim(s, TrimSet::Whitespace)
}

/// `n` occurs in `h` at index `i`.
pub open spec fn occurs_at(h: Seq<char>, n: Seq<char>, i: int) -> bool {
    0 <= i && i + n.len() <= h.len() && h.subrange(i, i + n.len()) == n
}

/// First occurrence of `n` in `h` at or after `i`.
pub open spec fn find_from(h: Seq<char>, n: Seq<char>, i: int) -> Option<int>
    decreases h.len() + 1 - i,
{
    if i < 0 || i + n.len() > h.len() {
        None
    } else if occurs_at(h, n, i) {
        Some(i)
    } else {
        find_from(h, n, i + 1)
    }
}

/// First occurrence of `n` in `h` (`str::find`, counted in characters).
pub open spec fn find(h: Seq<char>, n: Seq<char>) -> Option<int> {
    find_from(h, n, 0)
}

pub open spec fn contains(h: Seq<char>, n: Seq<char>) -> bool {
    find(h, n) is Some
}

/// Last index of character `c` in `s` (`str::rfind` with a `char`).
pub open spec fn rfind_char(s: Seq<char>, c: char) -> Option<int>
    decreases s.len(),
{
    if s.len() == 0 {
        None
    } else if s.last() == c {
        Some(s.len() - 1)
    } else {
        rfind_char(s.drop_last(), c)
    }
}

pub open spec fn opt_usize_int(o: Option<usize>) -> Option<int> {
    match o {
        Some(x) => Some(x as int),
        None => None,
    }
}


/// Number of bytes of `c` in UTF-8.
pub open spec fn utf8_width(c: char) -> nat {
    if (c as u32) < 0x80 {
        1
    } else if (c as u32) < 0x800 {
        2
    } else if (c as u32) < 0x10000 {
        3
    } else {
        4
    }
}

/// Number of bytes of `s` in UTF-8 (`str::len`).
pub open spec fn byte_len(s: Seq<char>) -> nat
    decreases s.len(),
{
    if s.len() == 0 {
        0
    } else {
        byte_len(s.drop_last()) + utf8_width(s.last())
    }
}

/// The character index of `s` at which byte offset `b` falls, when `b` is a character boundary.
pub open spec fn char_index_of_byte(s: Seq<char>, b: int) -> Option<int>
    decreases s.len(),
{
    if b == byte_len(s) {
        Some(s.len() as int)
    } else if s.len() == 0 {
        None
    } else {
        char_index_of_byte(s.drop_last(), b)
    }
}

pub fn utf8_width_exec(c: char) -> (r: usize)
    ensures
        r == utf8_width(c),
{
    let v = c as u32;
    if v < 0x80 {
        1
    } else if v < 0x800 {
        2
    } else if v < 0x10000 {
        3
    } else {
        4
    }
}

pub proof fn lemma_byte_len_take_step(s: Seq<char>, k: int)
    requires
        0 <= k < s.len(),
    ensures
        byte_len(s.take(k + 1)) == byte_len(s.take(k)) + utf8_width(s[k]),
{
    assert(s.take(k + 1).drop_last() == s.take(k));
}

pub proof fn lemma_byte_len_take_mono(s: Seq<char>, j: int, k: int)
    requires
        0 <= j <= k <= s.len(),
    ensures
        byte_len(s.take(j)) + (k - j) <= byte_len(s.take(k)),
    decreases k - j,
{
    if j < k {
        lemma_byte_len_take_mono(s, j, k - 1);
        lemma_byte_len_take_step(s, k - 1);
    }
}

/// `char_index_of_byte` found by scanning prefixes.
pub proof fn lemma_char_index_of_byte(s: Seq<char>, b: int, k: int)
    requires
        0 <= k <= s.len(),
        byte_len(s.take(k)) == b,
    ensures
        char_index_of_byte(s, b) == Some(k),
    decreases s.len(),
{
    assert(s.take(s.len() as int) == s);
    if k < s.len() {
        lemma_byte_len_take_mono(s, k + 1, s.len() as int);
        lemma_byte_len_take_step(s, k);
        assert(s.drop_last().take(k) == s.take(k));
        lemma_char_index_of_byte(s.drop_last(), b, k);
    }
}

pub proof fn lemma_char_index_of_byte_none(s: Seq<char>, b: int)
    requires
        forall|k: int| 0 <= k <= s.len() ==> byte_len(#[trigger] s.take(k)) != b,
    ensures
        char_index_of_byte(s, b) is None,
    decreases s.len(),
{
    assert(s.take(s.len() as int) == s);
    if s.len() > 0 {
        assert forall|k: int| 0 <= k <= s.drop_last().len() implies byte_len(#[trigger] s.drop_last().take(k)) != b by {
            assert(s.drop_last().take(k) == s.take(k));
        }
        lemma_char_index_of_byte_none(s.drop_last(), b);
    }
}

/// Number of UTF-8 bytes of the first `k` characters of `s`.
pub fn byte_len_prefix(s: &[char], k: usize) -> (r: usize)
    requires
        k <= s@.len(),
        byte_len(s@.take(k as int)) <= usize::MAX,
    ensures
        r == byte_len(s@.take(k as int)),
{
    let mut acc: usize = 0;
    let mut i: usize = 0;
    assert(s@.take(0) =~= Seq::<char>::empty());
    while i < k
        invariant
            i <= k <= s@.len(),
            byte_len(s@.take(k as int)) <= usize::MAX,
            acc == byte_len(s@.take(i as int)),
        decreases k - i,
    {
        proof {
            lemma_byte_len_take_step(s@, i as int);
            lemma_byte_len_take_mono(s@, i + 1, k as int);
        }
        acc = acc + utf8_width_exec(s[i]);
        i = i + 1;
    }
    acc
}

/// The character index at which byte offset `b` falls in `s`, if it is a boundary.
pub fn char_index_of_byte_exec(s: &[char], b: usize) -> (r: Option<usize>)
    ensures
        opt_usize_int(r) == char_index_of_byte(s@, b as int),
{
    let mut acc: usize = 0;
    let mut i: usize = 0;
    assert(s@.take(0) =~= Seq::<char>::empty());
    while i < s.len() && acc < b
        invariant
            i <= s@.len(),
            acc <= b,
            acc == byte_len(s@.take(i as int)),
            forall|j: int| 0 <= j < i ==> byte_len(#[trigger] s@.take(j)) < b,
        decreases s@.len() - i,
    {
        proof {
            lemma_byte_len_take_step(s@, i as int);
        }
        let w = utf8_width_exec(s[i]);
        if w > b - acc {
            proof {
                assert forall|k: int| 0 <= k <= s@.len() implies byte_len(#[trigger] s@.take(k)) != b by {
                    if k > i {
                        lemma_byte_len_take_mono(s@, i + 1, k);
                    }
                }
                lemma_char_index_of_byte_none(s@, b as int);
            }
            return None;
        }
        acc = acc + w;
        i = i + 1;
    }
    if acc == b {
        proof {
            lemma_char_index_of_byte(s@, b as int, i as int);
        }
        Some(i)
    } else {
        proof {
            assert(i == s@.len());
            assert(s@.take(i as int) == s@);
            assert forall|k: int| 0 <= k <= s@.len() implies byte_len(#[trigger] s@.take(k)) != b by {
                if k < i {
                } else {
                    assert(k == i);
                }
            }
            lemma_char_index_of_byte_none(s@, b as int);
        }
        None
    }
}

/// The characters of `s`; a string's UTF-8 length never exceeds `isize::MAX`.
#[verifier::external_body]
pub(crate) fn chars_of(s: &str) -> (v: Vec<char>)
    ensures
        v@ == s@,
        byte_len(v@) <= isize::MAX,
{
    s.chars().collect()
}

/// The string whose characters are `cs`.
#[verifier::external_body]
pub(crate) fn string_of(cs: &[char]) -> (r: String)
    ensures
        r@ == cs@,
{
    cs.iter().collect()
}

pub fn is_whitespace(c: char) -> (r: bool)
    ensures
        r == is_ws(c),
{
    c == ' ' || ('\t' <= c && c <= '\r') || c == '\u{85}' || c == '\u{a0}' || c == '\u{1680}'
        || ('\u{2000}' <= c && c <= '\u{200a}') || c == '\u{2028}' || c == '\u{2029}'
        || c == '\u{202f}' || c == '\u{205f}' || c == '\u{3000}'
}

pub fn in_trim_set(t: TrimSet, c: char) -> (r: bool)
    ensures
        r == in_set(t, c),
{
    match t {
        TrimSet::Whitespace => is_whitespace(c),
        TrimSet::Char(x) => c == x,
    }
}

pub fn slice_to_vec(s: &[char], lo: usize, hi: usize) -> (r: Vec<char>)
    requires
        lo <= hi <= s@.len(),
    ensures
        r@ == s@.subrange(lo as int, hi as int),
{
    let mut r: Vec<char> = Vec::new();
    let mut i = lo;
    while i < hi
        invariant
            lo <= i <= hi <= s@.len(),
            r@ == s@.subrange(lo as int, i as int),
        decreases hi - i,
    {
        r.push(s[i]);
        i = i + 1;
    }
    r
}

/// Trims both ends of `s` by `t`.
pub fn trim_chars(s: &[char], t: TrimSet) -> (r: Vec<char>)
    ensures
        r@ == trim(s@, t),
{
    let mut lo: usize = 0;
    assert(s@.skip(0) == s@);
    while lo < s.len() && in_trim_set(t, s[lo])
        invariant
            lo <= s@.len(),
            trim_start(s@, t) == trim_start(s@.skip(lo as int), t),
        decreases s@.len() - lo,
    {
        assert(s@.skip(lo as int).drop_first() == s@.skip(lo + 1));
        lo = lo + 1;
    }
    assert(trim_start(s@, t) == s@.subrange(lo as int, s@.len() as int));
    let mut hi: usize = s.len();
    while hi > lo && in_trim_set(t, s[hi - 1])
        invariant
            lo <= hi <= s@.len(),
            trim(s@, t) == trim_end(s@.subrange(lo as int, hi as int), t),
        decreases hi,
    {
        assert(s@.subrange(lo as int, hi as int).drop_last() == s@.subrange(lo as int, hi - 1));
        hi = hi - 1;
    }
    slice_to_vec(s, lo, hi)
}

/// Whether `n` occurs in `h` at `i`.
pub fn occurs_at_exec(h: &[char], n: &[char], i: usize) -> (r: bool)
    ensures
        r == occurs_at(h@, n@, i as int),
{
    if i > h.len() || n.len() > h.len() - i {
        return false;
    }
    let mut j: usize = 0;
    while j < n.len()
        invariant
            i + n@.len() <= h@.len(),
            i + n.len() <= h.len(),
            j <= n@.len(),
            forall|k: int| 0 <= k < j ==> h@[i + k] == n@[k],
        decreases n@.len() - j,
    {
        if h[i + j] != n[j] {
            assert(h@.subrange(i as int, i + n@.len())[j as int] != n@[j as int]);
            return false;
        }
        j = j + 1;
    }
    assert(h@.subrange(i as int, i + n@.len()) =~= n@);
    true
}

/// First occurrence of `n` in `h`.
pub fn find_chars(h: &[char], n: &[char]) -> (r: Option<usize>)
    ensures
        opt_usize_int(r) == find(h@, n@),
{
    if n.len() == 0 {
        assert(h@.subrange(0, 0) =~= n@);
        return Some(0);
    }
    let mut i: usize = 0;
    while i <= h.len() && n.len() <= h.len() - i
        invariant
            n@.len() > 0,
            i <= h@.len(),
            find(h@, n@) == find_from(h@, n@, i as int),
        decreases h@.len() + 1 - i,
    {
        if occurs_at_exec(h, n, i) {
            return Some(i);
        }
        i = i + 1;
    }
    None
}

/// Last index of `c` in `s`.
pub fn rfind_char_exec(s: &[char], c: char) -> (r: Option<usize>)
    ensures
        opt_usize_int(r) == rfind_char(s@, c),
{
    let mut i: usize = s.len();
    assert(s@.take(i as int) == s@);
    while i > 0
        invariant
            i <= s@.len(),
            rfind_char(s@, c) == rfind_char(s@.take(i as int), c),
        decreases i,
    {
        assert(s@.take(i as int).drop_last() == s@.take(i - 1));
        if s[i - 1] == c {
            return Some(i - 1);
        }
        i = i - 1;
    }
    None
}

/// Whether two character slices are equal.
pub fn chars_eq(a: &[char], b: &[char]) -> (r: bool)
    ensures
        r == (a@ == b@),
{
    if a.len() != b.len() {
        return false;
    }
    let mut i: usize = 0;
    while i < a.len()
        invariant
            a@.len() == b@.len(),
            i <= a@.len(),
            forall|k: int| 0 <= k < i ==> a@[k] == b@[k],
        decreases a@.len() - i,
    {
        if a[i] != b[i] {
            return false;
        }
        i = i + 1;
    }
    assert(a@ =~= b@);
    true
}

} // verus!

verus! {

/// What `str::to_lowercase` gives (Unicode lower-case mapping).
pub uninterp spec fn spec_lowercase(s: Seq<char>) -> Seq<char>;

/// `str::to_lowercase`; the contract only names the result.
#[verifier::external_body]
pub(crate) fn to_lowercase(s: &str) -> (r: String)
    ensures
        r@ == spec_lowercase(s@),
{
    s.to_lowercase()
}

/// What `char::is_alphanumeric` gives for a character outside ASCII (Unicode
/// `Alphabetic` or `Numeric`).
pub uninterp spec fn spec_non_ascii_alphanumeric(c: char) -> bool;

/// `char::is_alphanumeric`: ASCII letters and digits, and beyond ASCII the Unicode
/// alphabetic and numeric characters.
pub open spec fn is_alnum(c: char) -> bool {
    if (c as u32) < 0x80 {
        ('a' <= c && c <= 'z') || ('A' <= c && c <= 'Z') || ('0' <= c && c <= '9')
    } else {
        spec_non_ascii_alphanumeric(c)
    }
}

/// `char::is_alphanumeric`; exact on ASCII, named beyond it.
#[verifier::external_body]
pub(crate) fn is_alphanumeric(c: char) -> (r: bool)
    ensures
        r == is_alnum(c),
        (c as u32) >= 0x80 ==> r == spec_non_ascii_alphanumeric(c),
{
    c.is_alphanumeric()
}

/// Decimal digit character.
pub open spec fn digit_char(d: int) -> char {
    (('0' as int) + d) as char
}

/// Decimal representation of `n` (`Display` of an unsigned integer).
pub open spec fn dec(n: nat) -> Seq<char>
    decreases n,
{
    if n < 10 {
        seq![digit_char(n as int)]
    } else {
        dec(n / 10).push(digit_char((n % 10) as int))
    }
}

/// Decimal representation of `n`.
pub fn dec_chars(n: u64) -> (r: Vec<char>)
    ensures
        r@ == dec(n as nat),
    decreases n,
{
    if n < 10 {
        let mut v: Vec<char> = Vec::new();
        v.push(('0' as u8 + n as u8) as char);
        assert(v@ =~= seq![digit_char(n as int)]);
        v
    } else {
        let mut v = dec_chars(n / 10);
        let d = (n % 10) as u8;
        v.push(('0' as u8 + d) as char);
        v
    }
}

/// The value of a decimal digit character, if it is one.
pub open spec fn digit_value(c: char) -> Option<nat> {
    if '0' <= c && c <= '9' {
        Some(((c as int) - ('0' as int)) as nat)
    } else {
        None
    }
}

/// All characters are decimal digits.
pub open spec fn all_digits(s: Seq<char>) -> bool {
    forall|i: int| 0 <= i < s.len() ==> digit_value(#[trigger] s[i]) is Some
}

/// Value of a string of decimal digits.
pub open spec fn digits_value(s: Seq<char>) -> nat
    decreases s.len(),
{
    if s.len() == 0 {
        0
    } else {
        digits_value(s.drop_last()) * 10 + digit_value(s.last()).unwrap()
    }
}

/// The digits of an unsigned decimal literal, after an optional `+`.
pub open spec fn unsigned_digits(s: Seq<char>) -> Seq<char> {
    if s.len() > 0 && s[0] == '+' {
        s.drop_first()
    } else {
        s
    }
}

/// `u64::from_str`: an optional `+`, then at least one decimal digit, with a value that fits.
pub open spec fn parse_u64(s: Seq<char>) -> Option<u64> {
    let d = unsigned_digits(s);
    if d.len() > 0 && all_digits(d) && digits_value(d) <= u64::MAX {
        Some(digits_value(d) as u64)
    } else {
        None
    }
}

proof fn lemma_digits_value_mono(s: Seq<char>, k: int)
    requires
        0 <= k <= s.len(),
        all_digits(s),
    ensures
        digits_value(s.take(k)) <= digits_value(s),
    decreases s.len(),
{
    assert(s.take(s.len() as int) == s);
    if k < s.len() {
        assert(s.drop_last().take(k) == s.take(k));
        assert forall|i: int| 0 <= i < s.drop_last().len() implies digit_value(#[trigger] s.drop_last()[i]) is Some by {
            assert(s.drop_last()[i] == s[i]);
        }
        lemma_digits_value_mono(s.drop_last(), k);
    }
}

/// Parses an unsigned decimal integer as `u64::from_str` does.
pub fn parse_u64_exec(s: &[char]) -> (r: Option<u64>)
    ensures
        r == parse_u64(s@),
{
    let start: usize = if s.len() > 0 && s[0] == '+' { 1 } else { 0 };
    let ghost d = unsigned_digits(s@);
    assert(d == s@.skip(start as int));
    if start >= s.len() {
        return None;
    }
    let mut acc: u64 = 0;
    let mut i: usize = start;
    assert(d.take(0) =~= Seq::<char>::empty());
    while i < s.len()
        invariant
            start <= i <= s@.len(),
            d == s@.skip(start as int),
            d == unsigned_digits(s@),
            forall|j: int| 0 <= j < i - start ==> digit_value(#[trigger] d[j]) is Some,
            acc == digits_value(d.take(i - start)),
        decreases s@.len() - i,
    {
        let c = s[i];
        assert(d[i - start] == c);
        if c < '0' || c > '9' {
            assert(digit_value(d[i - start]) is None);
            return None;
        }
        let v = (c as u32 - '0' as u32) as u64;
        assert(d.take(i - start + 1).drop_last() == d.take(i - start));
        if acc > (u64::MAX - v) / 10 {
            proof {
                if all_digits(d) {
                    assert(d.take(i - start + 1).last() == c);
                    lemma_digits_value_mono(d, i - start + 1);
                    assert(digits_value(d.take(i - start + 1)) == acc * 10 + v) by (nonlinear_arith)
                        requires digits_value(d.take(i - start + 1)) == digits_value(d.take(i - start)) * 10 + v,
                            acc == digits_value(d.take(i - start));
                    assert(acc * 10 + v > u64::MAX) by (nonlinear_arith)
                        requires acc > (u64::MAX - v) / 10, v <= 9;
                }
            }
            return None;
        }
        assert(acc * 10 + v <= u64::MAX) by (nonlinear_arith)
            requires acc <= (u64::MAX - v) / 10, v <= 9;
        acc = acc * 10 + v;
        i = i + 1;
    }
    assert(d.take(i - start) == d);
    Some(acc)
}

/// Length of the leading run of non-whitespace characters.
pub open spec fn word_len(s: Seq<char>) -> nat
    decreases s.len(),
{
    if s.len() > 0 && !is_ws(s[0]) {
        1 + word_len(s.drop_first())
    } else {
        0
    }
}

pub proof fn lemma_trim_start_len(s: Seq<char>)
    ensures
        trim_start(s, TrimSet::Whitespace).len() <= s.len(),
        trim_start(s, TrimSet::Whitespace).len() > 0 ==> !is_ws(trim_start(s, TrimSet::Whitespace)[0]),
        exists|k: int| 0 <= k <= s.len() && trim_start(s, TrimSet::Whitespace) == s.skip(k),
    decreases s.len(),
{
    if s.len() > 0 && is_ws(s[0]) {
        lemma_trim_start_len(s.drop_first());
        let k = choose|k: int| 0 <= k <= s.drop_first().len() && trim_start(s.drop_first(), TrimSet::Whitespace) == s.drop_first().skip(k);
        assert(s.drop_first().skip(k) == s.skip(k + 1));
    } else {
        assert(s.skip(0) == s);
    }
}

pub proof fn lemma_word_len(s: Seq<char>)
    ensures
        word_len(s) <= s.len(),
        s.len() > 0 && !is_ws(s[0]) ==> word_len(s) >= 1,
    decreases s.len(),
{
    if s.len() > 0 && !is_ws(s[0]) {
        lemma_word_len(s.drop_first());
    }
}

/// `str::split_whitespace`: the maximal runs of non-whitespace characters.
pub open spec fn words(s: Seq<char>) -> Seq<Seq<char>>
    decreases s.len(),
{
    let t = trim_start(s, TrimSet::Whitespace);
    if t.len() == 0 {
        seq![]
    } else {
        let n = word_len(t);
        if n == 0 {
            seq![]
        } else {
            proof {
                lemma_trim_start_len(s);
                lemma_word_len(t);
            }
            seq![t.take(n as int)] + words(t.skip(n as int))
        }
    }
}

} // verus!

verus! {

/// The texts of a list of strings.
pub open spec fn strings_view(v: Seq<String>) -> Seq<Seq<char>> {
    v.map_values(|s: String| s@)
}

pub open spec fn views_of(v: Seq<Vec<char>>) -> Seq<Seq<char>> {
    v.map_values(|w: Vec<char>| w@)
}

/// `str::split_whitespace`, collected.
pub fn split_whitespace(s: &[char]) -> (r: Vec<Vec<char>>)
    ensures
        views_of(r@) == words(s@),
{
    let mut r: Vec<Vec<char>> = Vec::new();
    let mut i: usize = 0;
    assert(s@.skip(0) == s@);
    while i < s.len()
        invariant
            i <= s@.len(),
            words(s@) == views_of(r@) + words(s@.skip(i as int)),
        decreases s@.len() - i,
    {
        let mut j = i;
        while j < s.len() && is_whitespace(s[j])
            invariant
                i <= j <= s@.len(),
                trim_start(s@.skip(i as int), TrimSet::Whitespace) == trim_start(s@.skip(j as int), TrimSet::Whitespace),
            decreases s@.len() - j,
        {
            assert(s@.skip(j as int).drop_first() == s@.skip(j + 1));
            j = j + 1;
        }
        if j == s.len() {
            assert(trim_start(s@.skip(j as int), TrimSet::Whitespace).len() == 0);
            assert(words(s@.skip(i as int)) == Seq::<Seq<char>>::empty());
            assert(views_of(r@) + Seq::<Seq<char>>::empty() == views_of(r@));
            i = j;
            assert(s@.skip(i as int).len() == 0);
            assert(words(s@.skip(i as int)) == Seq::<Seq<char>>::empty());
        } else {
            let ghost t = s@.skip(j as int);
            assert(trim_start(t, TrimSet::Whitespace) == t);
            let mut k = j;
            while k < s.len() && !is_whitespace(s[k])
                invariant
                    j <= k <= s@.len(),
                    t == s@.skip(j as int),
                    word_len(t) == (k - j) + word_len(s@.skip(k as int)),
                decreases s@.len() - k,
            {
                assert(s@.skip(k as int).drop_first() == s@.skip(k + 1));
                k = k + 1;
            }
            assert(word_len(s@.skip(k as int)) == 0);
            let w = slice_to_vec(s, j, k);
            assert(t.take(k - j) == s@.subrange(j as int, k as int));
            assert(t.skip(k - j) == s@.skip(k as int));
            assert(words(s@.skip(i as int)) == seq![w@] + words(s@.skip(k as int)));
            let ghost old_r = r@;
            r.push(w);
            assert(views_of(r@) == views_of(old_r) + seq![w@]);
            assert(views_of(old_r) + (seq![w@] + words(s@.skip(k as int))) == views_of(r@) + words(s@.skip(k as int)));
            i = k;
        }
    }
    assert(s@.skip(i as int).len() == 0);
    assert(words(s@.skip(i as int)) == Seq::<Seq<char>>::empty());
    assert(views_of(r@) + Seq::<Seq<char>>::empty() == views_of(r@));
    r
}

} // verus!

verus! {

/// Appends the characters of `w` to `v`.
pub fn push_all(v: &mut Vec<char>, w: &[char])
    ensures
        final(v)@ == old(v)@ + w@,
{
    let mut i: usize = 0;
    let ghost v0 = v@;
    while i < w.len()
        invariant
            i <= w@.len(),
            v@ == v0 + w@.take(i as int),
        decreases w@.len() - i,
    {
        v.push(w[i]);
        i = i + 1;
        assert(w@.take(i as int) == w@.take(i - 1).push(w@[i - 1]));
    }
    assert(w@.take(i as int) == w@);
}

/// Appends the characters of `s` to `v`.
pub fn push_str(v: &mut Vec<char>, s: &str)
    ensures
        final(v)@ == old(v)@ + s@,
{
    let w = chars_of(s);
    push_all(v, &w);
}

} // verus!

verus! {

pub proof fn lemma_find_from(h: Seq<char>, n: Seq<char>, i: int)
    ensures
        find_from(h, n, i) matches Some(k) ==> occurs_at(h, n, k) && i <= k && (forall|j: int| i <= j < k ==> !#[trigger] occurs_at(h, n, j)),
        0 <= i && find_from(h, n, i) is None ==> (forall|j: int| i <= j ==> !#[trigger] occurs_at(h, n, j)),
    decreases h.len() + 1 - i,
{
    if i < 0 || i + n.len() > h.len() {
    } else if occurs_at(h, n, i) {
    } else {
        lemma_find_from(h, n, i + 1);
    }
}

/// `find` gives the first occurrence.
pub proof fn lemma_find(h: Seq<char>, n: Seq<char>)
    ensures
        find(h, n) matches Some(k) ==> occurs_at(h, n, k) && (forall|j: int| 0 <= j < k ==> !#[trigger] occurs_at(h, n, j)),
        find(h, n) is None ==> (forall|j: int| 0 <= j ==> !#[trigger] occurs_at(h, n, j)),
{
    lemma_find_from(h, n, 0);
}

} // verus!

verus! {

/// `rfind_char` gives an index of `c`.
pub proof fn lemma_rfind_char(s: Seq<char>, c: char)
    ensures
        rfind_char(s, c) matches Some(k) ==> 0 <= k < s.len() && s[k] == c,
    decreases s.len(),
{
    if s.len() > 0 && s.last() != c {
        lemma_rfind_char(s.drop_last(), c);
    }
}

} // verus!

verus! {

/// A found character index lies within the string.
pub proof fn lemma_char_index_of_byte_bound(s: Seq<char>, b: int)
    ensures
        char_index_of_byte(s, b) matches Some(k) ==> 0 <= k <= s.len(),
    decreases s.len(),
{
    if b != byte_len(s) && s.len() > 0 {
        lemma_char_index_of_byte_bound(s.drop_last(), b);
    }
}

} // verus!

verus! {

/// All characters are ASCII.
pub open spec fn all_ascii(s: Seq<char>) -> bool {
    forall|i: int| 0 <= i < s.len() ==> (#[trigger] s[i] as u32) < 0x80
}

/// On ASCII text, bytes and characters coincide.
pub proof fn lemma_ascii_byte_len(s: Seq<char>)
    requires
        all_ascii(s),
    ensures
        byte_len(s) == s.len(),
        forall|k: int| 0 <= k <= s.len() ==> byte_len(#[trigger] s.take(k)) == k,
    decreases s.len(),
{
    if s.len() > 0 {
        assert(all_ascii(s.drop_last()));
        lemma_ascii_byte_len(s.drop_last());
    }
    assert forall|k: int| 0 <= k <= s.len() implies byte_len(#[trigger] s.take(k)) == k by {
        if k < s.len() {
            assert(all_ascii(s.drop_last()));
            assert(s.drop_last().take(k) == s.take(k));
        } else {
            assert(s.take(k) == s);
        }
    }
}

/// The bytes of a text whose characters from `k` on are ASCII: those of its first `k`
/// characters, and one per remaining character.
pub proof fn lemma_byte_len_ascii_tail(s: Seq<char>, k: int)
    requires
        0 <= k <= s.len(),
        forall|i: int| k <= i < s.len() ==> (#[trigger] s[i] as u32) < 0x80,
    ensures
        byte_len(s) == byte_len(s.take(k)) + (s.len() - k),
    decreases s.len() - k,
{
    if k == s.len() {
        assert(s.take(k) == s);
    } else {
        lemma_byte_len_ascii_tail(s, k + 1);
        lemma_byte_len_take_step(s, k);
    }
}

/// On ASCII text, every offset up to the length is a character boundary.
pub proof fn lemma_ascii_char_index(s: Seq<char>, k: int)
    requires
        all_ascii(s),
        0 <= k <= s.len(),
    ensures
        char_index_of_byte(s, k) == Some(k),
{
    lemma_ascii_byte_len(s);
    assert(byte_len(s.take(k)) == k);
    lemma_char_index_of_byte(s, k, k);
}

} // verus!
