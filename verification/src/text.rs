//! Text: comparison, prefixes, numbers and templates.

use vstd::prelude::*;

verus! {

/// Are the two texts the same?
pub fn same(a: &str, b: &str) -> (yes: bool)
    ensures
        yes == (a@ == b@),
{
    let n: usize = a.unicode_len();
    if n != b.unicode_len() {
        return false;
    }
    let mut i: usize = 0;
    while i < n
        invariant
            i <= n,
            n == a@.len(),
            n == b@.len(),
            forall|j: int| 0 <= j < i ==> a@[j] == b@[j],
        decreases n - i,
    {
        if a.get_char(i) != b.get_char(i) {
            return false;
        }
        i = i + 1;
    }
    assert(a@ =~= b@);
    true
}

/// Does `s` hold `t` at position `i`?
pub open spec fn holds_at(s: Seq<char>, t: Seq<char>, i: int) -> bool {
    0 <= i && i + t.len() <= s.len() && s.subrange(i, i + t.len()) == t
}

/// Does `s` start with `prefix`?
pub open spec fn starts_with(s: Seq<char>, prefix: Seq<char>) -> bool {
    holds_at(s, prefix, 0)
}

fn found_at(s: &str, t: &str, at: usize) -> (yes: bool)
    requires
        at <= s@.len(),
    ensures
        yes == holds_at(s@, t@, at as int),
{
    let n: usize = s.unicode_len();
    let m: usize = t.unicode_len();
    if m > n - at {
        return false;
    }
    same(s.substring_char(at, at + m), t)
}

/// What follows `prefix` in `s`.
pub fn strip_prefix<'a>(s: &'a str, prefix: &str) -> (rest: Option<&'a str>)
    ensures
        rest is Some <==> starts_with(s@, prefix@),
        rest matches Some(r) ==> r@ == s@.skip(prefix@.len() as int),
{
    if found_at(s, prefix, 0) {
        let rest = s.substring_char(prefix.unicode_len(), s.unicode_len());
        assert(rest@ =~= s@.skip(prefix@.len() as int));
        Some(rest)
    } else {
        None
    }
}

/// Does `t` occur anywhere in `s`?
pub open spec fn occurs(s: Seq<char>, t: Seq<char>) -> bool {
    exists|i: int| holds_at(s, t, i)
}

pub fn contains(s: &str, t: &str) -> (yes: bool)
    ensures
        yes == occurs(s@, t@),
{
    let n: usize = s.unicode_len();
    let mut i: usize = 0;
    while i < n
        invariant
            i <= n,
            n == s@.len(),
            forall|j: int| 0 <= j < i ==> !holds_at(s@, t@, j),
        decreases n - i,
    {
        if found_at(s, t, i) {
            return true;
        }
        i = i + 1;
    }
    let last = found_at(s, t, n);
    proof {
        if !last && occurs(s@, t@) {
            let j = choose|j: int| holds_at(s@, t@, j);
            assert(j <= n);
        }
    }
    last
}

/// The position of the first `c` in `s`.
pub open spec fn first_of(s: Seq<char>, c: char) -> Option<int>
    decreases s.len(),
{
    if s.len() == 0 {
        None
    } else if s[0] == c {
        Some(0)
    } else {
        match first_of(s.skip(1), c) {
            Some(i) => Some(i + 1),
            None => None,
        }
    }
}

pub proof fn lemma_first_of(s: Seq<char>, c: char, i: int)
    requires
        0 <= i <= s.len(),
        forall|j: int| 0 <= j < i ==> s[j] != c,
        i < s.len() ==> s[i] == c,
    ensures
        first_of(s, c) == (if i < s.len() {
            Some(i)
        } else {
            None
        }),
    decreases s.len(),
{
    if s.len() > 0 && i > 0 {
        assert(s[0] != c);
        lemma_first_of(s.skip(1), c, i - 1);
    }
}

/// Splits `s` at the first `c`.
pub fn split_once<'a>(s: &'a str, c: char) -> (parts: Option<(&'a str, &'a str)>)
    ensures
        match (first_of(s@, c), parts) {
            (Some(i), Some((a, b))) => {
                &&& 0 <= i < s@.len()
                &&& a@ == s@.take(i)
                &&& b@ == s@.skip(i + 1)
            },
            (None, None) => true,
            _ => false,
        },
{
    let n: usize = s.unicode_len();
    let mut i: usize = 0;
    while i < n
        invariant
            i <= n,
            n == s@.len(),
            forall|j: int| 0 <= j < i ==> s@[j] != c,
        decreases n - i,
    {
        if s.get_char(i) == c {
            proof {
                lemma_first_of(s@, c, i as int);
            }
            let head = s.substring_char(0, i);
            let tail = s.substring_char(i + 1, n);
            assert(head@ =~= s@.take(i as int));
            assert(tail@ =~= s@.skip(i + 1));
            return Some((head, tail));
        }
        i = i + 1;
    }
    proof {
        lemma_first_of(s@, c, n as int);
    }
    None
}

/// Joins two texts.
pub fn join(a: &str, b: &str) -> (s: String)
    ensures
        s@ == a@ + b@,
{
    let mut s = String::from_str(a);
    s.append(b);
    s
}

pub open spec fn is_digit(c: char) -> bool {
    '0' <= c <= '9'
}

pub open spec fn digit_value(c: char) -> int {
    c as int - '0' as int
}

pub open spec fn all_digits(s: Seq<char>) -> bool {
    forall|i: int| 0 <= i < s.len() ==> is_digit(#[trigger] s[i])
}

/// The number that decimal digits write.
pub open spec fn digits_value(s: Seq<char>) -> int
    decreases s.len(),
{
    if s.len() == 0 {
        0
    } else {
        10 * digits_value(s.drop_last()) + digit_value(s.last())
    }
}

/// A number's digits: a leading plus sign is allowed.
pub open spec fn unsigned(s: Seq<char>) -> Seq<char> {
    if s.len() > 0 && s[0] == '+' {
        s.skip(1)
    } else {
        s
    }
}

/// The number up to `max` that `s` writes, if it writes one.
pub open spec fn parsed(s: Seq<char>, max: int) -> Option<int> {
    let digits = unsigned(s);
    if digits.len() > 0 && all_digits(digits) && digits_value(digits) <= max {
        Some(digits_value(digits))
    } else {
        None
    }
}

proof fn lemma_value_grows(s: Seq<char>, i: int)
    requires
        0 <= i <= s.len(),
        all_digits(s),
    ensures
        0 <= digits_value(s.take(i)) <= digits_value(s),
    decreases s.len() - i,
{
    if i == s.len() {
        assert(s.take(i) =~= s);
        lemma_value_nonnegative(s);
    } else {
        lemma_value_grows(s, i + 1);
        assert(s.take(i + 1).drop_last() =~= s.take(i));
        assert(is_digit(s[i]));
        lemma_value_nonnegative(s.take(i));
    }
}

proof fn lemma_value_nonnegative(s: Seq<char>)
    requires
        all_digits(s),
    ensures
        digits_value(s) >= 0,
    decreases s.len(),
{
    if s.len() > 0 {
        assert(is_digit(s.last()));
        assert(all_digits(s.drop_last())) by {
            assert forall|i: int| 0 <= i < s.drop_last().len() implies is_digit(
                #[trigger] s.drop_last()[i],
            ) by {
                assert(is_digit(s[i]));
            }
        }
        lemma_value_nonnegative(s.drop_last());
    }
}

/// Reads an unsigned decimal number up to `max`.
pub fn parse_number(s: &str, max: u32) -> (n: Option<u32>)
    ensures
        match n {
            Some(v) => parsed(s@, max as int) == Some(v as int),
            None => parsed(s@, max as int) is None,
        },
{
    let len: usize = s.unicode_len();
    let start: usize = if len > 0 && s.get_char(0) == '+' {
        1
    } else {
        0
    };
    let ghost digits = unsigned(s@);
    assert(start == 1 ==> digits =~= s@.skip(1));
    assert(digits =~= s@.skip(start as int));
    if start == len {
        return None;
    }
    let mut value: u32 = 0;
    let mut i: usize = start;
    assert(digits.take(0) =~= Seq::<char>::empty());
    while i < len
        invariant
            start <= i <= len,
            len == s@.len(),
            digits == s@.skip(start as int),
            digits == unsigned(s@),
            digits.len() > 0,
            forall|j: int| 0 <= j < i - start ==> is_digit(#[trigger] digits[j]),
            value == digits_value(digits.take(i - start)),
            value <= max,
        decreases len - i,
    {
        let c = s.get_char(i);
        assert(digits[i - start] == c);
        assert(digits.take(i - start + 1).drop_last() =~= digits.take(i - start));
        if c < '0' || c > '9' {
            assert(!is_digit(digits[i - start]));
            return None;
        }
        let d: u32 = c as u32 - '0' as u32;
        let next: u64 = value as u64 * 10 + d as u64;
        assert(next == digits_value(digits.take(i - start + 1)));
        if next > max as u64 {
            proof {
                if all_digits(digits) {
                    lemma_value_grows(digits, i - start + 1);
                }
            }
            return None;
        }
        value = next as u32;
        i = i + 1;
    }
    assert(digits.take(i - start) =~= digits);
    Some(value)
}

pub open spec fn digit_char(d: int) -> char {
    ('0' as int + d) as char
}

/// A number in decimal.
pub open spec fn decimal_text(n: int) -> Seq<char>
    decreases n,
{
    if n < 10 {
        seq![digit_char(n)]
    } else {
        decimal_text(n / 10).push(digit_char(n % 10))
    }
}

fn digit_str(d: u32) -> (s: &'static str)
    requires
        d < 10,
    ensures
        s@ == seq![digit_char(d as int)],
{
    proof {
        reveal_strlit("0");
        reveal_strlit("1");
        reveal_strlit("2");
        reveal_strlit("3");
        reveal_strlit("4");
        reveal_strlit("5");
        reveal_strlit("6");
        reveal_strlit("7");
        reveal_strlit("8");
        reveal_strlit("9");
    }
    let s = match d {
        0 => "0",
        1 => "1",
        2 => "2",
        3 => "3",
        4 => "4",
        5 => "5",
        6 => "6",
        7 => "7",
        8 => "8",
        _ => "9",
    };
    assert(s@ =~= seq![digit_char(d as int)]);
    s
}

/// Writes a number in decimal.
pub fn decimal(n: u32) -> (s: String)
    ensures
        s@ == decimal_text(n as int),
    decreases n,
{
    if n < 10 {
        String::from_str(digit_str(n))
    } else {
        let mut s = decimal(n / 10);
        s.append(digit_str(n % 10));
        assert(s@ =~= decimal_text(n as int));
        s
    }
}

/// A number that was written in decimal reads back as itself.
pub proof fn decimal_reads_back(n: int, max: int)
    requires
        0 <= n <= max,
    ensures
        parsed(decimal_text(n), max) == Some(n),
{
    lemma_decimal(n);
    assert(unsigned(decimal_text(n)) == decimal_text(n)) by {
        assert(is_digit(decimal_text(n)[0]));
    }
}

/// A number in decimal is a run of digits.
pub proof fn lemma_decimal(n: int)
    requires
        0 <= n,
    ensures
        decimal_text(n).len() > 0,
        all_digits(decimal_text(n)),
        digits_value(decimal_text(n)) == n,
    decreases n,
{
    let s = decimal_text(n);
    if n < 10 {
        assert(s.drop_last() =~= Seq::<char>::empty());
        assert(digits_value(s.drop_last()) == 0);
    } else {
        lemma_decimal(n / 10);
        let head = decimal_text(n / 10);
        assert(s.drop_last() =~= head);
        assert forall|i: int| 0 <= i < s.len() implies is_digit(#[trigger] s[i]) by {
            if i < head.len() {
                assert(is_digit(head[i]));
            }
        }
    }
}

/// The placeholder of a template.
pub open spec fn placeholder() -> Seq<char> {
    seq!['{', '0', '}']
}

/// A template with every placeholder replaced by `arg`.
pub open spec fn filled(template: Seq<char>, arg: Seq<char>) -> Seq<char>
    decreases template.len(),
{
    if template.len() == 0 {
        Seq::empty()
    } else if starts_with(template, placeholder()) {
        arg + filled(template.skip(3), arg)
    } else {
        seq![template[0]] + filled(template.skip(1), arg)
    }
}

/// Replaces every `{0}` of a template by `arg`.
pub fn fill(template: &str, arg: &str) -> (s: String)
    ensures
        s@ == filled(template@, arg@),
{
    let n: usize = template.unicode_len();
    let mut out = String::new();
    let mut i: usize = 0;
    proof {
        reveal_strlit("{0}");
        assert("{0}"@ =~= placeholder());
        assert(template@.skip(0) =~= template@);
        assert(out@ + filled(template@, arg@) =~= filled(template@, arg@));
    }
    while i < n
        invariant
            i <= n,
            n == template@.len(),
            "{0}"@ == placeholder(),
            out@ + filled(template@.skip(i as int), arg@) == filled(template@, arg@),
        decreases n - i,
    {
        let ghost rest = template@.skip(i as int);
        let ghost before = out@;
        let marked = found_at(template, "{0}", i);
        proof {
            if holds_at(template@, placeholder(), i as int) {
                assert(rest.subrange(0, 3) =~= template@.subrange(i as int, i + 3));
            }
            if starts_with(rest, placeholder()) {
                assert(template@.subrange(i as int, i + 3) =~= rest.subrange(0, 3));
            }
            assert(marked == starts_with(rest, placeholder()));
        }
        if marked {
            out.append(arg);
            i = i + 3;
            assert(rest.skip(3) =~= template@.skip(i as int));
            assert(out@ + filled(rest.skip(3), arg@) =~= before + (arg@ + filled(
                rest.skip(3),
                arg@,
            )));
        } else {
            out.append(template.substring_char(i, i + 1));
            assert(template@.subrange(i as int, i + 1) =~= seq![rest[0]]);
            i = i + 1;
            assert(rest.skip(1) =~= template@.skip(i as int));
            assert(out@ + filled(rest.skip(1), arg@) =~= before + (seq![rest[0]] + filled(
                rest.skip(1),
                arg@,
            )));
        }
    }
    assert(template@.skip(n as int) =~= Seq::<char>::empty());
    assert(out@ + filled(template@.skip(n as int), arg@) =~= out@);
    out
}

} // verus!
