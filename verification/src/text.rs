//! Building text: joining pieces, writing numbers, cutting and trimming.

use vstd::prelude::*;

verus! {

/// `String::push` appends one character.
pub assume_specification[ String::push ](s: &mut String, c: char)
    ensures
        final(s)@ == old(s)@.push(c),
;

/// `==` on two `str` values: equal exactly when they hold the same characters.
#[verifier::external_body]
pub(crate) fn same(a: &str, b: &str) -> (equal: bool)
    ensures
        equal == (a@ == b@),
{
    a == b
}

/// What `Debug` writes for a string: the text in double quotes, with std's escapes.
pub uninterp spec fn debug_text(s: Seq<char>) -> Seq<char>;

/// `Debug` formatting of a `str`. The result is the name's value; which characters std
/// escapes is not stated.
#[verifier::external_body]
pub(crate) fn debug_quoted(s: &str) -> (r: String)
    ensures
        r@ == debug_text(s@),
{
    format!("{s:?}")
}

/// Whether a character is white space: the characters that Unicode gives the property
/// `White_Space`.
pub open spec fn white_space(c: char) -> bool {
    let n = c as u32;
    ||| 0x9 <= n <= 0xd
    ||| n == 0x20
    ||| n == 0x85
    ||| n == 0xa0
    ||| n == 0x1680
    ||| 0x2000 <= n <= 0x200a
    ||| 0x2028 <= n <= 0x2029
    ||| n == 0x202f
    ||| n == 0x205f
    ||| n == 0x3000
}

/// Whether a character is white space.
pub(crate) fn is_space(c: char) -> (r: bool)
    ensures
        r == white_space(c),
{
    let n: u32 = c as u32;
    (0x9 <= n && n <= 0xd) || n == 0x20 || n == 0x85 || n == 0xa0 || n == 0x1680 || (0x2000 <= n
        && n <= 0x200a) || n == 0x2028 || n == 0x2029 || n == 0x202f || n == 0x205f || n == 0x3000
}

/// `a` followed by `b`.
pub(crate) fn concat2(a: &str, b: &str) -> (r: String)
    ensures
        r@ == a@ + b@,
{
    let mut s = String::new();
    s.append(a);
    s.append(b);
    proof {
        assert(s@ =~= a@ + b@);
    }
    s
}

/// `a`, `b` and `c` in a row.
pub(crate) fn concat3(a: &str, b: &str, c: &str) -> (r: String)
    ensures
        r@ == a@ + b@ + c@,
{
    let mut s = concat2(a, b);
    s.append(c);
    s
}

/// `a`, `b`, `c` and `d` in a row.
pub(crate) fn concat4(a: &str, b: &str, c: &str, d: &str) -> (r: String)
    ensures
        r@ == a@ + b@ + c@ + d@,
{
    let mut s = concat3(a, b, c);
    s.append(d);
    s
}

/// `a` to `e` in a row.
pub(crate) fn concat5(a: &str, b: &str, c: &str, d: &str, e: &str) -> (r: String)
    ensures
        r@ == a@ + b@ + c@ + d@ + e@,
{
    let mut s = concat4(a, b, c, d);
    s.append(e);
    s
}

/// The character of one decimal digit.
pub open spec fn digit(d: int) -> char {
    ('0' as int + d) as char
}

/// A natural number in decimal, without leading zeros.
pub open spec fn decimal_nat(n: nat) -> Seq<char>
    decreases n,
{
    if n < 10 {
        seq![digit(n as int)]
    } else {
        decimal_nat(n / 10).push(digit((n % 10) as int))
    }
}

/// An integer in decimal, with a minus sign in front when negative.
pub open spec fn decimal(n: int) -> Seq<char> {
    if n < 0 {
        seq!['-'] + decimal_nat((-n) as nat)
    } else {
        decimal_nat(n as nat)
    }
}

fn digit_char(d: u64) -> (c: char)
    requires
        d < 10,
    ensures
        c == digit(d as int),
{
    match d {
        0 => '0',
        1 => '1',
        2 => '2',
        3 => '3',
        4 => '4',
        5 => '5',
        6 => '6',
        7 => '7',
        8 => '8',
        _ => '9',
    }
}

fn push_decimal(out: &mut String, n: u64)
    ensures
        final(out)@ == old(out)@ + decimal_nat(n as nat),
    decreases n,
{
    let ghost before = out@;
    if n >= 10 {
        push_decimal(out, n / 10);
    }
    out.push(digit_char(n % 10));
    proof {
        assert(out@ =~= before + decimal_nat(n as nat));
    }
}

/// `n` in decimal.
pub fn decimal_u64(n: u64) -> (r: String)
    ensures
        r@ == decimal(n as int),
{
    let mut s = String::new();
    push_decimal(&mut s, n);
    proof {
        assert(s@ =~= decimal(n as int));
    }
    s
}

/// `n` in decimal.
pub fn decimal_i64(n: i64) -> (r: String)
    ensures
        r@ == decimal(n as int),
{
    if n >= 0 {
        return decimal_u64(n as u64);
    }
    let mut s = String::new();
    s.push('-');
    let magnitude: u64 = if n == i64::MIN {
        9223372036854775808
    } else {
        (-n) as u64
    };
    push_decimal(&mut s, magnitude);
    proof {
        assert(s@ =~= decimal(n as int));
    }
    s
}

/// Only white space, or nothing at all.
pub open spec fn blank(s: Seq<char>) -> bool {
    forall|i: int| 0 <= i < s.len() ==> white_space(#[trigger] s[i])
}

/// Whether trimming `s` leaves nothing.
pub fn is_blank(s: &str) -> (r: bool)
    ensures
        r == blank(s@),
{
    let n: usize = s.unicode_len();
    let mut i: usize = 0;
    while i < n
        invariant
            i <= n,
            n == s@.len(),
            forall|j: int| 0 <= j < i ==> white_space(#[trigger] s@[j]),
        decreases n - i,
    {
        if !is_space(s.get_char(i)) {
            return false;
        }
        i = i + 1;
    }
    true
}

/// `trimmed` is `s` without the white space at either end.
pub open spec fn is_trimmed(s: Seq<char>, trimmed: Seq<char>) -> bool {
    exists|a: int, b: int|
        {
            &&& 0 <= a <= b <= s.len()
            &&& trimmed == #[trigger] s.subrange(a, b)
            &&& blank(s.subrange(0, a))
            &&& blank(s.subrange(b, s.len() as int))
            &&& a < b ==> !white_space(s[a]) && !white_space(s[b - 1])
        }
}

/// `s` without the white space at either end.
pub fn trim(s: &str) -> (r: &str)
    ensures
        is_trimmed(s@, r@),
{
    let n: usize = s.unicode_len();
    let mut a: usize = 0;
    while a < n && is_space(s.get_char(a))
        invariant
            a <= n,
            n == s@.len(),
            forall|j: int| 0 <= j < a ==> white_space(#[trigger] s@[j]),
        decreases n - a,
    {
        a = a + 1;
    }
    let mut b: usize = n;
    while a < b && is_space(s.get_char(b - 1))
        invariant
            a <= b <= n,
            n == s@.len(),
            a < n ==> !white_space(s@[a as int]),
            forall|j: int| b <= j < n ==> white_space(#[trigger] s@[j]),
        decreases b,
    {
        b = b - 1;
    }
    let r = s.substring_char(a, b);
    proof {
        assert(blank(s@.subrange(0, a as int)));
        assert(blank(s@.subrange(b as int, s@.len() as int)));
        assert(r@ == s@.subrange(a as int, b as int));
    }
    r
}

/// The first `count` characters of `s`.
pub(crate) fn take_chars(s: &str, count: usize) -> (r: String)
    requires
        count <= s@.len(),
    ensures
        r@ == s@.take(count as int),
{
    let r = s.substring_char(0, count).to_owned();
    proof {
        assert(r@ =~= s@.take(count as int));
    }
    r
}

/// The number that a row of decimal digits stands for.
pub open spec fn read_back(digits: Seq<char>) -> int
    decreases digits.len(),
{
    if digits.len() == 0 {
        0
    } else {
        read_back(digits.drop_last()) * 10 + (digits.last() as int - '0' as int)
    }
}

/// A natural number is written in digits alone, without a zero in front of others, and is read
/// back from them.
pub proof fn law_a_number_is_read_back(n: nat)
    ensures
        decimal_nat(n).len() > 0,
        forall|i: int|
            0 <= i < decimal_nat(n).len() ==> '0' <= (#[trigger] decimal_nat(n)[i]) <= '9',
        n >= 10 ==> decimal_nat(n)[0] != '0',
        n > 0 ==> decimal_nat(n)[0] != '0',
        read_back(decimal_nat(n)) == n,
    decreases n,
{
    if n < 10 {
        let s = decimal_nat(n);
        assert(s.drop_last() =~= Seq::empty());
        assert(s.last() == digit(n as int));
        assert(read_back(s.drop_last()) == 0);
    } else {
        law_a_number_is_read_back(n / 10);
        let s = decimal_nat(n);
        assert(s.drop_last() =~= decimal_nat(n / 10));
        assert(s.last() == digit((n % 10) as int));
        assert(s[0] == decimal_nat(n / 10)[0]);
    }
}

/// A negative number is a minus sign before its opposite, and no other number has one.
pub proof fn law_a_minus_sign_is_for_negative_numbers(n: int)
    ensures
        n >= 0 ==> decimal(n) == decimal_nat(n as nat) && decimal(n)[0] != '-',
        n < 0 ==> decimal(n)[0] == '-' && decimal(n).skip(1) == decimal(-n),
{
    if n >= 0 {
        law_a_number_is_read_back(n as nat);
        assert(decimal_nat(n as nat)[0] >= '0');
    } else {
        assert(decimal(n).skip(1) =~= decimal_nat((-n) as nat));
    }
}

/// Text is trimmed in one way only, and what is left of it neither starts nor ends with white
/// space. Nothing is left exactly of text that is blank.
pub proof fn law_text_is_trimmed_in_one_way(s: Seq<char>, a: Seq<char>, b: Seq<char>)
    requires
        is_trimmed(s, a),
        is_trimmed(s, b),
    ensures
        a == b,
        a.len() > 0 ==> !white_space(a[0]) && !white_space(a.last()),
        a.len() == 0 <==> blank(s),
{
    let (i, j) = choose|i: int, j: int|
        {
            &&& 0 <= i <= j <= s.len()
            &&& a == #[trigger] s.subrange(i, j)
            &&& blank(s.subrange(0, i))
            &&& blank(s.subrange(j, s.len() as int))
            &&& i < j ==> !white_space(s[i]) && !white_space(s[j - 1])
        };
    let (k, l) = choose|k: int, l: int|
        {
            &&& 0 <= k <= l <= s.len()
            &&& b == #[trigger] s.subrange(k, l)
            &&& blank(s.subrange(0, k))
            &&& blank(s.subrange(l, s.len() as int))
            &&& k < l ==> !white_space(s[k]) && !white_space(s[l - 1])
        };
    lemma_trimmed_within(s, i, j, k, l);
    lemma_trimmed_within(s, k, l, i, j);
    if i == j {
        assert forall|m: int| 0 <= m < s.len() implies white_space(#[trigger] s[m]) by {
            if m < i {
                assert(s.subrange(0, i)[m] == s[m]);
            } else {
                assert(s.subrange(j, s.len() as int)[m - j] == s[m]);
            }
        }
        assert(a =~= b);
    } else {
        assert(a =~= b);
    }
}

/// What is not white space lies within what is left.
proof fn lemma_trimmed_within(s: Seq<char>, i: int, j: int, k: int, l: int)
    requires
        0 <= i <= j <= s.len(),
        0 <= k <= l <= s.len(),
        blank(s.subrange(0, k)),
        blank(s.subrange(l, s.len() as int)),
        i < j ==> !white_space(s[i]) && !white_space(s[j - 1]),
    ensures
        i < j ==> k <= i && j <= l,
{
    if i < j {
        if i < k {
            assert(s.subrange(0, k)[i] == s[i]);
        }
        if j > l {
            assert(s.subrange(l, s.len() as int)[j - 1 - l] == s[j - 1]);
        }
    }
}

/// The space, the tab and the line endings are white space, and no printing character of ASCII
/// is.
pub proof fn law_what_white_space_is(c: char)
    ensures
        c == ' ' || c == '\t' || c == '\n' || c == '\r' ==> white_space(c),
        '!' <= c <= '~' ==> !white_space(c),
{
}

/// The characters of Unicode that are white space, told by the ends of their ranges: the control
/// characters from the tab to the carriage return, the spaces of fixed width and the separators
/// of lines and paragraphs, and nothing next to them.
pub proof fn law_where_white_space_ends(c: char)
    ensures
        '\t' <= c <= '\r' ==> white_space(c),
        '\u{2000}' <= c <= '\u{200a}' ==> white_space(c),
        c == '\u{2028}' || c == '\u{2029}' ==> white_space(c),
        c == '\u{85}' || c == '\u{a0}' || c == '\u{1680}' || c == '\u{202f}' || c == '\u{205f}'
            || c == '\u{3000}' ==> white_space(c),
        c < '\t' || '\u{e}' <= c < ' ' || '!' <= c < '\u{85}' ==> !white_space(c),
        '\u{86}' <= c < '\u{a0}' || '\u{a1}' <= c < '\u{1680}' ==> !white_space(c),
        '\u{1681}' <= c < '\u{2000}' || '\u{200b}' <= c < '\u{2028}' ==> !white_space(c),
        '\u{202a}' <= c < '\u{202f}' || '\u{2030}' <= c < '\u{205f}' ==> !white_space(c),
        '\u{2060}' <= c < '\u{3000}' || '\u{3000}' < c ==> !white_space(c),
{
}

} // verus!
