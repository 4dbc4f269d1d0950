//! Text helpers: decimal rendering of integers and Unicode whitespace trimming.

use vstd::prelude::*;
use vstd::string::*;

verus! {

/// The character of a decimal digit.
pub open spec fn digit_char(d: nat) -> char {
    if d == 0 { '0' }
    else if d == 1 { '1' }
    else if d == 2 { '2' }
    else if d == 3 { '3' }
    else if d == 4 { '4' }
    else if d == 5 { '5' }
    else if d == 6 { '6' }
    else if d == 7 { '7' }
    else if d == 8 { '8' }
    else { '9' }
}

/// The decimal representation of `n`, without sign or leading zeros.
pub open spec fn decimal(n: nat) -> Seq<char>
    decreases n,
{
    if n < 10 {
        seq![digit_char(n)]
    } else {
        decimal(n / 10).push(digit_char(n % 10))
    }
}

/// Whether `c` is one of the decimal digits `0` to `9`.
pub open spec fn is_digit(c: char) -> bool {
    '0' <= c && c <= '9'
}

/// The number that a string of decimal digits denotes.
pub open spec fn digits_value(s: Seq<char>) -> int
    decreases s.len(),
{
    if s.len() == 0 {
        0
    } else {
        10 * digits_value(s.drop_last()) + (s.last() as int - '0' as int)
    }
}

proof fn lemma_digit_char_value(d: nat)
    requires
        d < 10,
    ensures
        is_digit(digit_char(d)),
        digit_char(d) as int - '0' as int == d,
{
}

/// The decimal rendering of `n` is a nonempty string of digits that denotes
/// `n`, with no leading zero unless `n` is zero.
pub proof fn lemma_decimal_reads_back(n: nat)
    ensures
        decimal(n).len() > 0,
        forall|i: int| 0 <= i < decimal(n).len() ==> is_digit(#[trigger] decimal(n)[i]),
        digits_value(decimal(n)) == n,
        decimal(n)[0] == '0' ==> n == 0,
    decreases n,
{
    if n >= 10 {
        lemma_decimal_reads_back(n / 10);
        let d = decimal(n / 10);
        assert(decimal(n) == d.push(digit_char(n % 10)));
        assert(decimal(n).drop_last() =~= d);
        assert forall|i: int| 0 <= i < decimal(n).len() implies is_digit(#[trigger] decimal(n)[i]) by {
            if i < d.len() {
                assert(decimal(n)[i] == d[i]);
            }
        }
        assert(decimal(n)[0] == d[0]);
        lemma_digit_char_value(n % 10);
        assert(10 * (n / 10) + n % 10 == n);
        assert(decimal(n).last() == digit_char(n % 10));
        assert(digits_value(decimal(n)) == 10 * digits_value(d) + (digit_char(n % 10) as int - '0' as int));
    } else {
        lemma_digit_char_value(n);
        assert(digits_value(Seq::<char>::empty()) == 0);
        assert(decimal(n).last() == digit_char(n));
        assert(decimal(n).drop_last() =~= Seq::<char>::empty());
    }
}

fn digit_str(d: u64) -> (s: &'static str)
    requires
        d < 10,
    ensures
        s@ == seq![digit_char(d as nat)],
{
    proof {
        reveal_strlit("0");
        reveal_strlit("1");
        reveal_strlit("2");
        reveal_strlit("3");
        reveal_strlit("4");
        reveal_strlit("5");
        reveal_strlit("6");
        reveal_strlit("7");
        reveal_strlit("8");
        reveal_strlit("9");
    }
    if d == 0 { "0" }
    else if d == 1 { "1" }
    else if d == 2 { "2" }
    else if d == 3 { "3" }
    else if d == 4 { "4" }
    else if d == 5 { "5" }
    else if d == 6 { "6" }
    else if d == 7 { "7" }
    else if d == 8 { "8" }
    else { "9" }
}

/// Renders `n` in decimal, as `{}` formatting does.
pub fn u64_to_decimal(n: u64) -> (s: String)
    ensures
        s@ == decimal(n as nat),
    decreases n,
{
    if n < 10 {
        String::from_str(digit_str(n))
    } else {
        let mut s = u64_to_decimal(n / 10);
        s.append(digit_str(n % 10));
        s
    }
}


/// Whether `c` has the Unicode `White_Space` property, as `char::is_whitespace` decides.
pub open spec fn is_white_space(c: char) -> bool {
    let u = c as u32;
    ||| 0x9 <= u <= 0xd
    ||| u == 0x20
    ||| u == 0x85
    ||| u == 0xa0
    ||| u == 0x1680
    ||| 0x2000 <= u <= 0x200a
    ||| u == 0x2028
    ||| u == 0x2029
    ||| u == 0x202f
    ||| u == 0x205f
    ||| u == 0x3000
}

/// How many characters at the start of `s` satisfy `p`.
pub open spec fn count_leading(s: Seq<char>, p: spec_fn(char) -> bool) -> nat
    decreases s.len(),
{
    if s.len() > 0 && p(s[0]) {
        1 + count_leading(s.drop_first(), p)
    } else {
        0
    }
}

/// How many characters at the end of `s` satisfy `p`.
pub open spec fn count_trailing(s: Seq<char>, p: spec_fn(char) -> bool) -> nat
    decreases s.len(),
{
    if s.len() > 0 && p(s.last()) {
        1 + count_trailing(s.drop_last(), p)
    } else {
        0
    }
}

pub open spec fn white_space() -> spec_fn(char) -> bool {
    |c: char| is_white_space(c)
}

/// `s` without its leading and trailing white space, as `str::trim` gives it.
pub open spec fn trim(s: Seq<char>) -> Seq<char> {
    let t = s.skip(count_leading(s, white_space()) as int);
    t.take(t.len() - count_trailing(t, white_space()))
}

pub proof fn lemma_count_leading_bound(s: Seq<char>, p: spec_fn(char) -> bool)
    ensures
        count_leading(s, p) <= s.len(),
        forall|k: int| 0 <= k < count_leading(s, p) ==> p(#[trigger] s[k]),
        count_leading(s, p) < s.len() ==> !p(s[count_leading(s, p) as int]),
    decreases s.len(),
{
    if s.len() > 0 && p(s[0]) {
        lemma_count_leading_bound(s.drop_first(), p);
        assert forall|k: int| 0 <= k < count_leading(s, p) implies p(#[trigger] s[k]) by {
            if k > 0 {
                assert(s[k] == s.drop_first()[k - 1]);
            }
        }
    }
}

pub proof fn lemma_count_trailing_bound(s: Seq<char>, p: spec_fn(char) -> bool)
    ensures
        count_trailing(s, p) <= s.len(),
    decreases s.len(),
{
    if s.len() > 0 && p(s.last()) {
        lemma_count_trailing_bound(s.drop_last(), p);
    }
}

proof fn lemma_count_leading_skip(s: Seq<char>, i: int, p: spec_fn(char) -> bool)
    requires
        0 <= i < s.len(),
    ensures
        p(s[i]) ==> count_leading(s.skip(i), p) == 1 + count_leading(s.skip(i + 1), p),
        !p(s[i]) ==> count_leading(s.skip(i), p) == 0,
{
    assert(s.skip(i).drop_first() =~= s.skip(i + 1));
    assert(s.skip(i)[0] == s[i]);
}

proof fn lemma_count_trailing_take(s: Seq<char>, j: int, p: spec_fn(char) -> bool)
    requires
        0 < j <= s.len(),
    ensures
        p(s[j - 1]) ==> count_trailing(s.take(j), p) == 1 + count_trailing(s.take(j - 1), p),
        !p(s[j - 1]) ==> count_trailing(s.take(j), p) == 0,
{
    assert(s.take(j).drop_last() =~= s.take(j - 1));
    assert(s.take(j).last() == s[j - 1]);
}

/// Characters that satisfy `p` at the start of `a + b` are all of `a`, then
/// those at the start of `b`, when all of `a` satisfies `p`.
pub proof fn lemma_count_leading_prefix(a: Seq<char>, b: Seq<char>, p: spec_fn(char) -> bool)
    requires
        forall|i: int| 0 <= i < a.len() ==> p(#[trigger] a[i]),
    ensures
        count_leading(a + b, p) == a.len() + count_leading(b, p),
    decreases a.len(),
{
    if a.len() == 0 {
        assert(a + b =~= b);
    } else {
        assert((a + b)[0] == a[0]);
        assert((a + b).drop_first() =~= a.drop_first() + b);
        assert forall|i: int| 0 <= i < a.drop_first().len() implies p(#[trigger] a.drop_first()[i]) by {
            assert(a.drop_first()[i] == a[i + 1]);
        }
        lemma_count_leading_prefix(a.drop_first(), b, p);
    }
}

pub fn is_white_space_char(c: char) -> (b: bool)
    ensures
        b == is_white_space(c),
{
    let u = c as u32;
    (0x9 <= u && u <= 0xd) || u == 0x20 || u == 0x85 || u == 0xa0 || u == 0x1680 || (0x2000 <= u
        && u <= 0x200a) || u == 0x2028 || u == 0x2029 || u == 0x202f || u == 0x205f || u == 0x3000
}

/// Number of leading white-space characters of `s`.
fn leading_white_space(s: &str) -> (n: usize)
    ensures
        n == count_leading(s@, white_space()),
{
    let len = s.unicode_len();
    let mut i: usize = 0;
    proof {
        assert(s@.skip(0) =~= s@);
    }
    while i < len && is_white_space_char(s.get_char(i))
        invariant
            len == s@.len(),
            i <= len,
            count_leading(s@, white_space()) == i + count_leading(s@.skip(i as int), white_space()),
        decreases len - i,
    {
        proof {
            lemma_count_leading_skip(s@, i as int, white_space());
        }
        i = i + 1;
    }
    proof {
        if i < len {
            lemma_count_leading_skip(s@, i as int, white_space());
        } else {
            assert(s@.skip(i as int).len() == 0);
        }
    }
    i
}

/// Number of trailing white-space characters of `s`.
fn trailing_white_space(s: &str) -> (n: usize)
    ensures
        n == count_trailing(s@, white_space()),
{
    let len = s.unicode_len();
    let mut j: usize = len;
    proof {
        assert(s@.take(len as int) =~= s@);
    }
    while j > 0 && is_white_space_char(s.get_char(j - 1))
        invariant
            len == s@.len(),
            j <= len,
            count_trailing(s@, white_space()) == (len - j) + count_trailing(
                s@.take(j as int),
                white_space(),
            ),
        decreases j,
    {
        proof {
            lemma_count_trailing_take(s@, j as int, white_space());
        }
        j = j - 1;
    }
    proof {
        if j > 0 {
            lemma_count_trailing_take(s@, j as int, white_space());
        } else {
            assert(s@.take(0).len() == 0);
        }
    }
    len - j
}

/// `s` without leading and trailing white space, as `str::trim` gives it.
pub fn trim_str(s: &str) -> (t: &str)
    ensures
        t@ == trim(s@),
{
    let len = s.unicode_len();
    let a = leading_white_space(s);
    proof {
        lemma_count_leading_bound(s@, white_space());
    }
    let rest = s.substring_char(a, len);
    assert(rest@ == s@.skip(a as int));
    let b = trailing_white_space(rest);
    proof {
        lemma_count_trailing_bound(rest@, white_space());
    }
    let rest_len = len - a;
    let t = rest.substring_char(0, rest_len - b);
    assert(t@ =~= rest@.take(rest@.len() - b));
    t
}

/// The predicate "is `c`" when `equal`, "is not `c`" otherwise.
pub open spec fn char_test(c: char, equal: bool) -> spec_fn(char) -> bool {
    |x: char| (x == c) == equal
}

/// Number of characters at the start of `s` that are `c` (when `equal`) or
/// that are not `c` (otherwise).
pub fn leading_run(s: &str, c: char, equal: bool) -> (n: usize)
    ensures
        n == count_leading(s@, char_test(c, equal)),
{
    let len = s.unicode_len();
    let mut i: usize = 0;
    proof {
        assert(s@.skip(0) =~= s@);
    }
    while i < len && (s.get_char(i) == c) == equal
        invariant
            len == s@.len(),
            i <= len,
            count_leading(s@, char_test(c, equal)) == i + count_leading(
                s@.skip(i as int),
                char_test(c, equal),
            ),
        decreases len - i,
    {
        proof {
            lemma_count_leading_skip(s@, i as int, char_test(c, equal));
        }
        i = i + 1;
    }
    proof {
        if i < len {
            lemma_count_leading_skip(s@, i as int, char_test(c, equal));
        } else {
            assert(s@.skip(i as int).len() == 0);
        }
    }
    i
}

/// The concatenation of `a` and `b`.
pub fn text_concat(a: &str, b: &str) -> (s: String)
    ensures
        s@ == a@ + b@,
{
    let mut s = String::from_str(a);
    s.append(b);
    s
}


/// White space includes the space, tab, line feed and carriage return; digits,
/// parentheses, `/` and `.` are no white space.
pub proof fn lemma_white_space_samples()
    ensures
        is_white_space(' '),
        is_white_space('\t'),
        is_white_space('\n'),
        is_white_space('\r'),
        !is_white_space('0'),
        !is_white_space('9'),
        !is_white_space('('),
        !is_white_space('/'),
        !is_white_space('.'),
        !is_white_space('\0'),
{
}

} // verus!
