//! Text helpers: decimal parsing and printing, ASCII case folding, and the
//! contracts of the `String` methods that the form buffers rely on.

use vstd::prelude::*;
use vstd::string::*;

verus! {

/// `String::push` of std: appends one character to the end of the string.
pub assume_specification[ String::push ](s: &mut String, ch: char)
    ensures
        final(s)@ == old(s)@.push(ch),
;

/// `String::pop` of std: removes the last character and returns it, or
/// returns `None` and leaves the string empty when there is none.
pub assume_specification[ String::pop ](s: &mut String) -> (r: Option<char>)
    ensures
        old(s)@.len() == 0 ==> r.is_none() && final(s)@ == old(s)@,
        old(s)@.len() > 0 ==> r == Some(old(s)@.last()) && final(s)@ == old(s)@.drop_last(),
;

/// `String::clear` of std: removes all contents.
pub assume_specification[ String::clear ](s: &mut String)
    ensures
        final(s)@ == Seq::<char>::empty(),
;

/// Whether `c` is one of the ten ASCII digits.
pub open spec fn is_digit(c: char) -> bool {
    48 <= c as int <= 57
}

/// The number that an ASCII digit stands for.
pub open spec fn digit_value(c: char) -> int {
    c as int - 48
}

pub open spec fn all_digits(s: Seq<char>) -> bool {
    forall|i: int| 0 <= i < s.len() ==> is_digit(#[trigger] s[i])
}

/// The value of a digit string read in base ten (0 for the empty string).
pub open spec fn digits_value(s: Seq<char>) -> int
    decreases s.len(),
{
    if s.len() == 0 {
        0
    } else {
        digits_value(s.drop_last()) * 10 + digit_value(s.last())
    }
}

/// What follows an optional leading sign.
pub open spec fn unsigned_part(s: Seq<char>) -> Seq<char> {
    if s.len() > 0 && (s[0] == '-' || s[0] == '+') {
        s.subrange(1, s.len() as int)
    } else {
        s
    }
}

pub open spec fn signed_value(s: Seq<char>) -> int {
    if s.len() > 0 && s[0] == '-' {
        -digits_value(unsigned_part(s))
    } else {
        digits_value(unsigned_part(s))
    }
}

/// Decimal reading of a 32-bit integer: an optional sign, then at least one
/// digit and nothing else, with a value that fits.
pub open spec fn parse_i32_spec(s: Seq<char>) -> Option<i32> {
    let body = unsigned_part(s);
    let v = signed_value(s);
    if body.len() > 0 && all_digits(body) && i32::MIN <= v <= i32::MAX {
        Some(v as i32)
    } else {
        None
    }
}

pub proof fn lemma_digits_value_prefix(s: Seq<char>, k: int)
    requires
        all_digits(s),
        0 <= k <= s.len(),
    ensures
        0 <= digits_value(s.take(k)) <= digits_value(s),
    decreases s.len(),
{
    if k == s.len() {
        assert(s.take(k) =~= s);
        if s.len() > 0 {
            lemma_digits_value_prefix(s.drop_last(), k - 1);
        }
    } else {
        lemma_digits_value_prefix(s.drop_last(), k);
        assert(s.drop_last().take(k) =~= s.take(k));
    }
}

pub fn is_digit_char(c: char) -> (r: bool)
    ensures
        r == is_digit(c),
{
    let v: u32 = c as u32;
    48 <= v && v <= 57
}

/// Reads `s` as a decimal 32-bit integer.
pub fn parse_i32(s: &str) -> (r: Option<i32>)
    ensures
        r == parse_i32_spec(s@),
{
    let n: usize = s.unicode_len();
    if n == 0 {
        return None;
    }
    let first: char = s.get_char(0);
    let negative: bool = first == '-';
    let start: usize = if first == '-' || first == '+' { 1 } else { 0 };
    if start == n {
        return None;
    }
    let ghost body = unsigned_part(s@);
    let mut acc: i64 = 0;
    let mut i: usize = start;
    while i < n
        invariant
            start <= i <= n,
            n == s@.len(),
            body == s@.subrange(start as int, n as int),
            body == unsigned_part(s@),
            all_digits(body.take(i - start)),
            acc == digits_value(body.take(i - start)),
            0 <= acc <= 2147483648,
        decreases n - i,
    {
        let c: char = s.get_char(i);
        assert(body[i - start] == c);
        assert(body.take(i - start + 1).drop_last() =~= body.take(i - start));
        assert(body.take(i - start + 1).last() == c);
        if !is_digit_char(c) {
            return None;
        }
        let d: i64 = (c as u32 - 48) as i64;
        let next: i64 = acc * 10 + d;
        assert(next == digits_value(body.take(i - start + 1)));
        assert(all_digits(body.take(i - start + 1))) by {
            assert forall|j: int| 0 <= j < i - start + 1 implies is_digit(
                #[trigger] body.take(i - start + 1)[j],
            ) by {
                if j < i - start {
                    assert(body.take(i - start)[j] == body[j]);
                }
            }
        }
        if next > 2147483648 {
            proof {
                if all_digits(body) {
                    lemma_digits_value_prefix(body, i - start + 1);
                }
            }
            return None;
        }
        acc = next;
        i = i + 1;
    }
    assert(body.take(n - start) =~= body);
    if negative {
        Some((0 - acc) as i32)
    } else if acc > 2147483647 {
        None
    } else {
        Some(acc as i32)
    }
}

/// The character of a digit below ten.
pub open spec fn digit_char(d: int) -> char {
    (d + 48) as char
}

/// Decimal text of a natural number, without leading zeros.
pub open spec fn nat_text(n: nat) -> Seq<char>
    decreases n,
{
    if n < 10 {
        seq![digit_char(n as int)]
    } else {
        nat_text(n / 10).push(digit_char((n % 10) as int))
    }
}

/// Decimal text of an integer, with `-` before a negative one.
pub open spec fn int_text(n: int) -> Seq<char> {
    if n < 0 {
        seq!['-'] + nat_text((-n) as nat)
    } else {
        nat_text(n as nat)
    }
}

/// Appends the decimal text of `n` to `out`.
pub fn push_nat(out: &mut String, n: u64)
    ensures
        final(out)@ == old(out)@ + nat_text(n as nat),
    decreases n,
{
    if n >= 10 {
        push_nat(out, n / 10);
    }
    let d: u8 = (48 + n % 10) as u8;
    out.push(d as char);
    assert(final(out)@ =~= old(out)@ + nat_text(n as nat));
}

/// Appends the decimal text of `n` to `out`.
pub fn push_int(out: &mut String, n: i64)
    ensures
        final(out)@ == old(out)@ + int_text(n as int),
{
    if n < 0 {
        out.push('-');
        let m: u64 = if n == i64::MIN { 9223372036854775808 } else { (0 - n) as u64 };
        push_nat(out, m);
        assert(final(out)@ =~= old(out)@ + int_text(n as int));
    } else {
        push_nat(out, n as u64);
    }
}

/// The decimal text of `n`.
pub fn int_to_text(n: i64) -> (r: String)
    ensures
        r@ == int_text(n as int),
{
    let mut out = String::new();
    push_int(&mut out, n);
    assert(out@ =~= int_text(n as int));
    out
}

/// The code of `c`, with the upper-case ASCII letters mapped to lower case.
pub open spec fn fold_char(c: char) -> u32 {
    if 65 <= c as u32 <= 90 {
        (c as u32 + 32) as u32
    } else {
        c as u32
    }
}

/// `s` with every character folded to lower case, as codes.
pub open spec fn fold_case(s: Seq<char>) -> Seq<u32> {
    Seq::new(s.len(), |i: int| fold_char(s[i]))
}

/// The codes of the characters of `s`.
pub open spec fn char_codes(s: Seq<char>) -> Seq<u32> {
    Seq::new(s.len(), |i: int| s[i] as u32)
}

pub fn fold_char_code(c: char) -> (r: u32)
    ensures
        r == fold_char(c),
{
    let v: u32 = c as u32;
    if 65 <= v && v <= 90 {
        v + 32
    } else {
        v
    }
}

/// Whether two strings are equal up to the case of their ASCII letters.
pub fn eq_ignore_case(a: &str, b: &str) -> (r: bool)
    ensures
        r == (fold_case(a@) == fold_case(b@)),
{
    let n: usize = a.unicode_len();
    if n != b.unicode_len() {
        assert(fold_case(a@).len() != fold_case(b@).len());
        return false;
    }
    let mut i: usize = 0;
    while i < n
        invariant
            0 <= i <= n,
            n == a@.len(),
            n == b@.len(),
            forall|j: int| 0 <= j < i ==> fold_char(a@[j]) == fold_char(b@[j]),
        decreases n - i,
    {
        if fold_char_code(a.get_char(i)) != fold_char_code(b.get_char(i)) {
            assert(fold_case(a@)[i as int] != fold_case(b@)[i as int]);
            return false;
        }
        i = i + 1;
    }
    assert(fold_case(a@) =~= fold_case(b@));
    true
}

/// The codes of the characters of `s`, folded to lower case if `fold` is
/// set.
pub fn codes_of(s: &str, fold: bool) -> (r: Vec<u32>)
    ensures
        fold ==> r@ == fold_case(s@),
        !fold ==> r@ == char_codes(s@),
{
    let n: usize = s.unicode_len();
    let mut out: Vec<u32> = Vec::new();
    let mut i: usize = 0;
    while i < n
        invariant
            0 <= i <= n,
            n == s@.len(),
            out@.len() == i,
            forall|j: int| 0 <= j < i ==> out@[j] == (if fold { fold_char(s@[j]) } else { s@[j] as u32 }),
        decreases n - i,
    {
        let c: char = s.get_char(i);
        let code: u32 = if fold {
            fold_char_code(c)
        } else {
            c as u32
        };
        out.push(code);
        i = i + 1;
    }
    proof {
        if fold {
            assert(out@ =~= fold_case(s@));
        } else {
            assert(out@ =~= char_codes(s@));
        }
    }
    out
}

/// Whether `needle` stands in `hay` at position `at`.
pub open spec fn occurs_at(hay: Seq<u32>, needle: Seq<u32>, at: int) -> bool {
    0 <= at && at + needle.len() <= hay.len() && hay.subrange(at, at + needle.len()) == needle
}

/// Whether `needle` stands somewhere in `hay`.
pub open spec fn occurs_in(hay: Seq<u32>, needle: Seq<u32>) -> bool {
    exists|at: int| occurs_at(hay, needle, at)
}

fn matches_at(hay: &Vec<u32>, needle: &Vec<u32>, at: usize) -> (r: bool)
    requires
        at + needle@.len() <= hay@.len(),
    ensures
        r == occurs_at(hay@, needle@, at as int),
{
    let m: usize = needle.len();
    let n: usize = hay.len();
    let mut j: usize = 0;
    while j < m
        invariant
            0 <= j <= m,
            m == needle@.len(),
            n == hay@.len(),
            at + m <= n,
            forall|k: int| 0 <= k < j ==> hay@[at + k] == needle@[k],
        decreases m - j,
    {
        if hay[at + j] != needle[j] {
            assert(hay@.subrange(at as int, at + m)[j as int] != needle@[j as int]);
            return false;
        }
        j = j + 1;
    }
    assert(hay@.subrange(at as int, at + m) =~= needle@);
    true
}

/// Searches `hay` for `needle`.
pub fn find_codes(hay: &Vec<u32>, needle: &Vec<u32>) -> (r: bool)
    ensures
        r == occurs_in(hay@, needle@),
{
    let n: usize = hay.len();
    let m: usize = needle.len();
    if m > n {
        return false;
    }
    let last: usize = n - m;
    let mut i: usize = 0;
    while i < last
        invariant
            0 <= i <= last,
            last == n - m,
            m <= n,
            n == hay@.len(),
            m == needle@.len(),
            forall|k: int| 0 <= k < i ==> !occurs_at(hay@, needle@, k),
        decreases last - i,
    {
        if matches_at(hay, needle, i) {
            return true;
        }
        i = i + 1;
    }
    matches_at(hay, needle, last)
}

/// Whether `needle` occurs in `hay`, character for character.
pub fn contains_text(hay: &str, needle: &str) -> (r: bool)
    ensures
        r == occurs_in(char_codes(hay@), char_codes(needle@)),
{
    let h = codes_of(hay, false);
    let n = codes_of(needle, false);
    find_codes(&h, &n)
}

/// Whether `needle` occurs in `hay`, letter case aside.
pub fn contains_folded(hay: &str, needle: &str) -> (r: bool)
    ensures
        r == occurs_in(fold_case(hay@), fold_case(needle@)),
{
    let h = codes_of(hay, true);
    let n = codes_of(needle, true);
    find_codes(&h, &n)
}

} // verus!
