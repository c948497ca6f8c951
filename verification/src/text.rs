//! String utilities proved against `Seq<char>` views: decimal rendering and
//! parsing, ASCII case folding, and substring search.

use vstd::prelude::*;
use vstd::string::*;

verus! {

/// The character for a single decimal digit.
pub open spec fn digit_char(d: nat) -> char {
    if d == 0 {
        '0'
    } else if d == 1 {
        '1'
    } else if d == 2 {
        '2'
    } else if d == 3 {
        '3'
    } else if d == 4 {
        '4'
    } else if d == 5 {
        '5'
    } else if d == 6 {
        '6'
    } else if d == 7 {
        '7'
    } else if d == 8 {
        '8'
    } else {
        '9'
    }
}

/// Decimal rendering of a natural number, most significant digit first.
pub open spec fn dec_digits(n: nat) -> Seq<char>
    decreases n,
{
    if n < 10 {
        seq![digit_char(n)]
    } else {
        dec_digits(n / 10) + seq![digit_char(n % 10)]
    }
}

/// Decimal rendering of an integer, with a leading minus sign when negative.
pub open spec fn dec_int(v: int) -> Seq<char> {
    if v < 0 {
        seq!['-'] + dec_digits((-v) as nat)
    } else {
        dec_digits(v as nat)
    }
}

/// One decimal digit as a string slice.
fn digit_str(d: u64) -> (r: &'static str)
    requires
        d < 10,
    ensures
        r@ =~= seq![digit_char(d as nat)],
{
    proof {
        reveal_strlit("0");
        reveal_strlit("1");
        reveal_strlit("2");
        reveal_strlit("3");
        reveal_strlit("4");
        reveal_strlit("5");
        reveal_strlit("6");
        reveal_strlit("7");
        reveal_strlit("8");
        reveal_strlit("9");
    }
    match d {
        0 => "0",
        1 => "1",
        2 => "2",
        3 => "3",
        4 => "4",
        5 => "5",
        6 => "6",
        7 => "7",
        8 => "8",
        _ => "9",
    }
}

/// Decimal rendering of an unsigned number.
pub fn u64_to_string(n: u64) -> (r: String)
    ensures
        r@ == dec_digits(n as nat),
    decreases n,
{
    if n < 10 {
        String::from_str(digit_str(n))
    } else {
        let high = u64_to_string(n / 10);
        high.concat(digit_str(n % 10))
    }
}

/// Decimal rendering of a signed number.
pub fn i64_to_string(v: i64) -> (r: String)
    ensures
        r@ == dec_int(v as int),
{
    if v < 0 {
        let magnitude: u64 = (-(v as i128)) as u64;
        proof {
            reveal_strlit("-");
        }
        String::from_str("-").concat(u64_to_string(magnitude).as_str())
    } else {
        u64_to_string(v as u64)
    }
}

/// Whether a character is a decimal digit.
pub open spec fn is_digit(c: char) -> bool {
    '0' <= c <= '9'
}

/// The numeric value of a digit character.
pub open spec fn digit_val(c: char) -> nat {
    (c as u32 - '0' as u32) as nat
}

/// The value of a digit string, read left to right.
pub open spec fn digits_val(s: Seq<char>) -> nat
    decreases s.len(),
{
    if s.len() == 0 {
        0
    } else {
        digits_val(s.drop_last()) * 10 + digit_val(s.last())
    }
}

/// Whether every character of the sequence is a decimal digit.
pub open spec fn all_digits(s: Seq<char>) -> bool {
    forall|i: int| 0 <= i < s.len() ==> is_digit(#[trigger] s[i])
}

/// What `parse_i64` accepts: an optional minus sign, then one or more digits,
/// denoting a value that fits in an `i64`.
pub open spec fn parse_i64_spec(s: Seq<char>) -> Option<int> {
    if s.len() >= 1 && s[0] == '-' {
        let ds = s.subrange(1, s.len() as int);
        if ds.len() >= 1 && all_digits(ds) && -(digits_val(ds) as int) >= i64::MIN {
            Some(-(digits_val(ds) as int))
        } else {
            None
        }
    } else if s.len() >= 1 && all_digits(s) && digits_val(s) <= i64::MAX {
        Some(digits_val(s) as int)
    } else {
        None
    }
}

proof fn lemma_digits_val_take(s: Seq<char>, i: int)
    requires
        0 <= i < s.len(),
    ensures
        digits_val(s.take(i + 1)) == digits_val(s.take(i)) * 10 + digit_val(s[i]),
{
    assert(s.take(i + 1).drop_last() =~= s.take(i));
    assert(s.take(i + 1).last() == s[i]);
}

/// Parse an unsigned decimal digit string; `None` when empty, when a
/// non-digit occurs, or when the value exceeds the bound.
fn parse_digits(s: &Vec<char>, from: usize, bound: u64) -> (r: Option<u64>)
    requires
        from <= s@.len(),
    ensures
        ({
            let ds = s@.subrange(from as int, s@.len() as int);
            match r {
                Some(v) => ds.len() >= 1 && all_digits(ds) && digits_val(ds) == v && v <= bound,
                None => ds.len() == 0 || !all_digits(ds) || digits_val(ds) > bound,
            }
        }),
{
    let ghost ds = s@.subrange(from as int, s@.len() as int);
    if from == s.len() {
        return None;
    }
    let mut acc: u64 = 0;
    let mut i: usize = from;
    while i < s.len()
        invariant
            from <= i <= s@.len(),
            ds == s@.subrange(from as int, s@.len() as int),
            all_digits(ds.take(i - from)),
            digits_val(ds.take(i - from)) == acc,
            acc <= bound,
            bound <= u64::MAX,
        decreases s@.len() - i,
    {
        let c = s[i];
        if !('0' <= c && c <= '9') {
            assert(ds[i - from] == c);
            return None;
        }
        let d: u64 = (c as u32 - '0' as u32) as u64;
        proof {
            lemma_digits_val_take(ds, i - from);
        }
        if acc > bound / 10 || (acc == bound / 10 && d > bound % 10) {
            proof {
                let k = (i - from) as int;
                assert(digits_val(ds.take(k + 1)) > bound);
                lemma_digits_prefix_bound(ds, k + 1);
            }
            return None;
        }
        acc = acc * 10 + d;
        i = i + 1;
    }
    assert(ds.take(s@.len() - from) =~= ds);
    Some(acc)
}

/// A digit string is at least as large as the value of any of its prefixes.
proof fn lemma_digits_prefix_bound(s: Seq<char>, k: int)
    requires
        0 <= k <= s.len(),
    ensures
        digits_val(s) >= digits_val(s.take(k)),
    decreases s.len() - k,
{
    if k < s.len() {
        lemma_digits_prefix_bound(s, k + 1);
        lemma_digits_val_take(s, k);
    } else {
        assert(s.take(k) =~= s);
    }
}

/// Parse a signed decimal integer, exactly as `parse_i64_spec` says.
pub fn parse_i64(s: &str) -> (r: Option<i64>)
    ensures
        match r {
            Some(v) => parse_i64_spec(s@) == Some(v as int),
            None => parse_i64_spec(s@) is None,
        },
{
    let chars = str_to_chars(s);
    let n = chars.len();
    if n == 0 {
        return None;
    }
    proof {
        assert(chars@.subrange(0, chars@.len() as int) =~= s@);
    }
    if chars[0] == '-' {
        match parse_digits(&chars, 1, 9223372036854775808u64) {
            Some(v) => {
                assert(i64::MIN as i128 <= -(v as i128) <= i64::MAX as i128);
                let w: i64 = (-(v as i128)) as i64;
                assert(w as int == -(v as int));
                Some(w)
            },
            None => None,
        }
    } else {
        match parse_digits(&chars, 0, 9223372036854775807u64) {
            Some(v) => Some(v as i64),
            None => {
                proof {
                    assert(s@.subrange(0, s@.len() as int) =~= s@);
                }
                None
            },
        }
    }
}

/// What `parse_u64` accepts: one or more digits denoting a value that fits
/// in a `u64`.
pub open spec fn parse_u64_spec(s: Seq<char>) -> Option<int> {
    if s.len() >= 1 && all_digits(s) && digits_val(s) <= u64::MAX {
        Some(digits_val(s) as int)
    } else {
        None
    }
}

/// Parse an unsigned decimal integer, exactly as `parse_u64_spec` says.
pub fn parse_u64(s: &str) -> (r: Option<u64>)
    ensures
        match r {
            Some(v) => parse_u64_spec(s@) == Some(v as int),
            None => parse_u64_spec(s@) is None,
        },
{
    let chars = str_to_chars(s);
    proof {
        assert(chars@.subrange(0, chars@.len() as int) =~= s@);
    }
    parse_digits(&chars, 0, 18446744073709551615u64)
}

/// ASCII lower-casing of one character; other characters are unchanged.
pub open spec fn lower_char(c: char) -> char {
    if 'A' <= c <= 'Z' {
        (c as u32 + 32) as char
    } else {
        c
    }
}

/// ASCII upper-casing of one character; other characters are unchanged.
pub open spec fn upper_char(c: char) -> char {
    if 'a' <= c <= 'z' {
        (c as u32 - 32) as char
    } else {
        c
    }
}

/// ASCII lower-casing of a character sequence.
pub open spec fn lower_seq(s: Seq<char>) -> Seq<char> {
    s.map_values(|c: char| lower_char(c))
}

/// Lower-case one character.
pub fn lower_char_x(c: char) -> (r: char)
    ensures
        r == lower_char(c),
{
    match c {
        'A' => 'a',
        'B' => 'b',
        'C' => 'c',
        'D' => 'd',
        'E' => 'e',
        'F' => 'f',
        'G' => 'g',
        'H' => 'h',
        'I' => 'i',
        'J' => 'j',
        'K' => 'k',
        'L' => 'l',
        'M' => 'm',
        'N' => 'n',
        'O' => 'o',
        'P' => 'p',
        'Q' => 'q',
        'R' => 'r',
        'S' => 's',
        'T' => 't',
        'U' => 'u',
        'V' => 'v',
        'W' => 'w',
        'X' => 'x',
        'Y' => 'y',
        'Z' => 'z',
        _ => c,
    }
}

/// Upper-case one character.
pub fn upper_char_x(c: char) -> (r: char)
    ensures
        r == upper_char(c),
{
    match c {
        'a' => 'A',
        'b' => 'B',
        'c' => 'C',
        'd' => 'D',
        'e' => 'E',
        'f' => 'F',
        'g' => 'G',
        'h' => 'H',
        'i' => 'I',
        'j' => 'J',
        'k' => 'K',
        'l' => 'L',
        'm' => 'M',
        'n' => 'N',
        'o' => 'O',
        'p' => 'P',
        'q' => 'Q',
        'r' => 'R',
        's' => 'S',
        't' => 'T',
        'u' => 'U',
        'v' => 'V',
        'w' => 'W',
        'x' => 'X',
        'y' => 'Y',
        'z' => 'Z',
        _ => c,
    }
}

/// The characters of a string slice as a vector.
pub fn str_to_chars(s: &str) -> (r: Vec<char>)
    ensures
        r@ == s@,
{
    let n = s.unicode_len();
    let mut v: Vec<char> = Vec::new();
    let mut i: usize = 0;
    while i < n
        invariant
            i <= n,
            n == s@.len(),
            v@ == s@.take(i as int),
        decreases n - i,
    {
        v.push(s.get_char(i));
        proof {
            assert(v@ =~= s@.take(i + 1));
        }
        i = i + 1;
    }
    proof {
        assert(v@ =~= s@);
    }
    v
}

/// The ASCII lower-casing of a whole string.
pub fn chars_to_lower(s: &Vec<char>) -> (r: Vec<char>)
    ensures
        r@ == lower_seq(s@),
{
    let mut v: Vec<char> = Vec::new();
    let mut i: usize = 0;
    while i < s.len()
        invariant
            i <= s@.len(),
            v@ == lower_seq(s@.take(i as int)),
        decreases s@.len() - i,
    {
        v.push(lower_char_x(s[i]));
        proof {
            assert(v@ =~= lower_seq(s@.take(i + 1)));
        }
        i = i + 1;
    }
    proof {
        assert(s@.take(s@.len() as int) =~= s@);
    }
    v
}

/// Whether two string slices have equal character sequences.
pub fn str_eq(a: &str, b: &str) -> (r: bool)
    ensures
        r == (a@ == b@),
{
    let n = a.unicode_len();
    if n != b.unicode_len() {
        return false;
    }
    let mut i: usize = 0;
    while i < n
        invariant
            i <= n,
            n == a@.len() == b@.len(),
            forall|j: int| 0 <= j < i ==> a@[j] == b@[j],
        decreases n - i,
    {
        if a.get_char(i) != b.get_char(i) {
            return false;
        }
        i = i + 1;
    }
    proof {
        assert(a@ =~= b@);
    }
    true
}

/// Whether two strings are equal after ASCII lower-casing both.
pub fn eq_ignore_ascii_case(a: &str, b: &str) -> (r: bool)
    ensures
        r == (lower_seq(a@) == lower_seq(b@)),
{
    let n = a.unicode_len();
    if n != b.unicode_len() {
        assert(lower_seq(a@).len() != lower_seq(b@).len());
        return false;
    }
    let mut i: usize = 0;
    while i < n
        invariant
            i <= n,
            n == a@.len() == b@.len(),
            forall|j: int| 0 <= j < i ==> lower_seq(a@)[j] == lower_seq(b@)[j],
        decreases n - i,
    {
        if lower_char_x(a.get_char(i)) != lower_char_x(b.get_char(i)) {
            assert(lower_seq(a@)[i as int] != lower_seq(b@)[i as int]);
            return false;
        }
        i = i + 1;
    }
    proof {
        assert(lower_seq(a@) =~= lower_seq(b@));
    }
    true
}

/// Whether `pat` occurs in `s` starting at index `i`.
pub open spec fn occurs_at(s: Seq<char>, pat: Seq<char>, i: int) -> bool {
    0 <= i && i + pat.len() <= s.len() && s.subrange(i, i + pat.len()) == pat
}

/// Whether `pat` occurs anywhere in `s`.
pub open spec fn contains_seq(s: Seq<char>, pat: Seq<char>) -> bool {
    exists|i: int| occurs_at(s, pat, i)
}

/// Whether `pat` occurs in `chars` starting at `at`.
pub fn chars_match_at(chars: &Vec<char>, pat: &Vec<char>, at: usize) -> (r: bool)
    requires
        at + pat@.len() <= chars@.len(),
    ensures
        r == occurs_at(chars@, pat@, at as int),
{
    let _n = chars.len();
    assert(chars@.len() <= usize::MAX);
    let mut j: usize = 0;
    while j < pat.len()
        invariant
            j <= pat@.len(),
            at + pat@.len() <= chars@.len(),
            chars@.len() <= usize::MAX,
            forall|k: int| 0 <= k < j ==> chars@[at + k] == pat@[k],
        decreases pat@.len() - j,
    {
        if chars[at + j] != pat[j] {
            assert(chars@.subrange(at as int, at + pat@.len())[j as int] != pat@[j as int]);
            return false;
        }
        j = j + 1;
    }
    proof {
        assert(chars@.subrange(at as int, at + pat@.len()) =~= pat@);
    }
    true
}

/// Whether `pat` occurs anywhere in `chars`.
pub fn chars_contain(chars: &Vec<char>, pat: &Vec<char>) -> (r: bool)
    ensures
        r == contains_seq(chars@, pat@),
{
    if pat.len() == 0 {
        proof {
            assert(chars@.subrange(0, 0) =~= pat@);
            assert(occurs_at(chars@, pat@, 0));
        }
        return true;
    }
    if pat.len() > chars.len() {
        return false;
    }
    let last_start = chars.len() - pat.len();
    let mut i: usize = 0;
    while i <= last_start
        invariant
            i <= last_start + 1,
            1 <= pat@.len() <= chars@.len(),
            chars@.len() <= usize::MAX,
            last_start == chars@.len() - pat@.len(),
            forall|k: int| 0 <= k < i ==> !occurs_at(chars@, pat@, k),
        decreases last_start + 1 - i,
    {
        if chars_match_at(chars, pat, i) {
            return true;
        }
        i = i + 1;
    }
    assert(forall|k: int| !occurs_at(chars@, pat@, k));
    false
}

/// Relies on `String::push` from std, which vstd leaves unspecified:
/// it appends exactly the given character to the string.
#[verifier::external_body]
fn push_char(s: &mut String, c: char)
    ensures
        final (s)@ == old(s)@ + seq![c],
{
    s.push(c);
}

/// A `String` holding exactly the given characters.
pub fn chars_to_string(chars: &Vec<char>) -> (r: String)
    ensures
        r@ == chars@,
{
    let mut s = String::new();
    let mut i: usize = 0;
    while i < chars.len()
        invariant
            i <= chars@.len(),
            s@ == chars@.take(i as int),
        decreases chars@.len() - i,
    {
        push_char(&mut s, chars[i]);
        proof {
            assert(s@ =~= chars@.take(i + 1));
        }
        i = i + 1;
    }
    proof {
        assert(s@ =~= chars@);
    }
    s
}

/// A `String` holding the given range of a character vector.
pub fn chars_range_to_string(chars: &Vec<char>, from: usize, to: usize) -> (r: String)
    requires
        from <= to <= chars@.len(),
    ensures
        r@ == chars@.subrange(from as int, to as int),
{
    let _n = chars.len();
    assert(chars@.len() <= usize::MAX);
    let mut s = String::new();
    let mut i: usize = from;
    while i < to
        invariant
            from <= i <= to <= chars@.len(),
            chars@.len() <= usize::MAX,
            s@ == chars@.subrange(from as int, i as int),
        decreases to - i,
    {
        push_char(&mut s, chars[i]);
        proof {
            assert(s@ =~= chars@.subrange(from as int, i + 1));
        }
        i = i + 1;
    }
    s
}

/// A word character of a simple text grammar: an ASCII letter, digit, or
/// underscore.
pub open spec fn is_word_char(c: char) -> bool {
    ('a' <= c <= 'z') || ('A' <= c <= 'Z') || ('0' <= c <= '9') || c == '_'
}

/// A whitespace character of a simple text grammar.
pub open spec fn is_space_char(c: char) -> bool {
    c == ' ' || c == '\t' || c == '\n' || c == '\r' || c == '\u{b}' || c == '\u{c}'
}

/// The end of the maximal run of word characters starting at `j`.
pub open spec fn word_end(t: Seq<char>, j: int) -> int
    decreases t.len() - j,
{
    if 0 <= j && j < t.len() && is_word_char(t[j]) {
        word_end(t, j + 1)
    } else {
        j
    }
}

/// The end of the maximal run of whitespace characters starting at `j`.
pub open spec fn space_end(t: Seq<char>, j: int) -> int
    decreases t.len() - j,
{
    if 0 <= j && j < t.len() && is_space_char(t[j]) {
        space_end(t, j + 1)
    } else {
        j
    }
}

/// Whether `c` is a word character.
pub fn is_word_char_x(c: char) -> (r: bool)
    ensures
        r == is_word_char(c),
{
    ('a' <= c && c <= 'z') || ('A' <= c && c <= 'Z') || ('0' <= c && c <= '9') || c == '_'
}

/// Whether `c` is a whitespace character.
pub fn is_space_char_x(c: char) -> (r: bool)
    ensures
        r == is_space_char(c),
{
    c == ' ' || c == '\t' || c == '\n' || c == '\r' || c == '\u{b}' || c == '\u{c}'
}

/// The end of the maximal whitespace run starting at `j`.
pub fn space_end_x(t: &Vec<char>, j: usize) -> (r: usize)
    requires
        j <= t@.len(),
    ensures
        r == space_end(t@, j as int),
        j <= r <= t@.len(),
{
    let mut i = j;
    while i < t.len() && is_space_char_x(t[i])
        invariant
            j <= i <= t@.len(),
            space_end(t@, j as int) == space_end(t@, i as int),
        decreases t@.len() - i,
    {
        i = i + 1;
    }
    i
}

/// The end of the maximal word-character run starting at `j`.
pub fn word_end_x(t: &Vec<char>, j: usize) -> (r: usize)
    requires
        j <= t@.len(),
    ensures
        r == word_end(t@, j as int),
        j <= r <= t@.len(),
{
    let mut i = j;
    while i < t.len() && is_word_char_x(t[i])
        invariant
            j <= i <= t@.len(),
            word_end(t@, j as int) == word_end(t@, i as int),
        decreases t@.len() - i,
    {
        i = i + 1;
    }
    i
}

/// Whether `s` contains `pat`, both given as string slices.
pub fn str_contains(s: &str, pat: &str) -> (r: bool)
    ensures
        r == contains_seq(s@, pat@),
{
    let chars = str_to_chars(s);
    let p = str_to_chars(pat);
    chars_contain(&chars, &p)
}

/// Decimal rendering of an unsigned 128-bit number.
pub fn u128_to_string(n: u128) -> (r: String)
    ensures
        r@ == dec_digits(n as nat),
    decreases n,
{
    if n < 10 {
        digit_str(n as u64).to_owned()
    } else {
        let high = u128_to_string(n / 10);
        high.concat(digit_str((n % 10) as u64))
    }
}

/// Decimal rendering of a signed 128-bit number.
pub fn i128_to_string(v: i128) -> (r: String)
    ensures
        r@ == dec_int(v as int),
{
    if v < 0 {
        let magnitude: u128 = if v == i128::MIN {
            170141183460469231731687303715884105728u128
        } else {
            (-v) as u128
        };
        assert(magnitude == -(v as int));
        proof {
            reveal_strlit("-");
        }
        String::from_str("-").concat(u128_to_string(magnitude).as_str())
    } else {
        u128_to_string(v as u128)
    }
}

/// The index where the trailing whitespace run begins, scanning back from `j`.
pub open spec fn trim_end_idx(s: Seq<char>, j: int) -> int
    decreases j,
{
    if 0 < j <= s.len() && is_space_char(s[j - 1]) {
        trim_end_idx(s, j - 1)
    } else {
        j
    }
}

/// The sequence with leading and trailing whitespace removed.
pub open spec fn trimmed(s: Seq<char>) -> Seq<char> {
    let a = space_end(s, 0);
    let b = trim_end_idx(s, s.len() as int);
    if a <= b {
        s.subrange(a, b)
    } else {
        Seq::empty()
    }
}

/// The string with leading and trailing whitespace removed.
pub fn trim_str(s: &str) -> (r: String)
    ensures
        r@ == trimmed(s@),
{
    let chars = str_to_chars(s);
    let n = chars.len();
    let a = space_end_x(&chars, 0);
    let mut b: usize = n;
    while b > 0 && is_space_char_x(chars[b - 1])
        invariant
            b <= n,
            n == chars@.len(),
            trim_end_idx(chars@, n as int) == trim_end_idx(chars@, b as int),
        decreases b,
    {
        b = b - 1;
    }
    if a <= b {
        chars_range_to_string(&chars, a, b)
    } else {
        String::new()
    }
}

/// A whitespace run ends right before a non-whitespace character.
pub proof fn lemma_space_end_stops(s: Seq<char>, j: int)
    requires
        0 <= j <= s.len(),
    ensures
        space_end(s, j) < s.len() ==> !is_space_char(s[space_end(s, j)]),
    decreases s.len() - j,
{
    if j < s.len() && is_space_char(s[j]) {
        lemma_space_end_stops(s, j + 1);
    }
}

/// The trailing whitespace run stays within the sequence.
pub proof fn lemma_trim_end_bounds(s: Seq<char>, j: int)
    requires
        0 <= j <= s.len(),
    ensures
        0 <= trim_end_idx(s, j) <= j,
    decreases j,
{
    if 0 < j && is_space_char(s[j - 1]) {
        lemma_trim_end_bounds(s, j - 1);
    }
}

/// The trailing whitespace run cannot reach past a non-whitespace character.
pub proof fn lemma_trim_end_after(s: Seq<char>, j: int, a: int)
    requires
        0 <= a < j <= s.len(),
        !is_space_char(s[a]),
    ensures
        trim_end_idx(s, j) > a,
    decreases j,
{
    if is_space_char(s[j - 1]) {
        lemma_trim_end_after(s, j - 1, a);
    }
}

} // verus!
