//! Character-level helpers: case folding, decimal digits, and the
//! `prefix(<digits>)` form.

use vstd::prelude::*;

verus! {

/// The lower-case form of a character, for every character whose Unicode
/// lower case is a single ASCII letter: `A` to `Z`, and the Kelvin sign
/// (U+212A), whose lower case is `k`. Any other character is kept; no other
/// character lowers to an ASCII letter, so names made of ASCII characters
/// compare the same way under this folding as under Unicode lower-casing.
pub open spec fn fold_char(c: char) -> char {
    if 'A' <= c && c <= 'Z' {
        ((c as u8) + 32u8) as char
    } else if c == '\u{212A}' {
        'k'
    } else {
        c
    }
}

/// A string with every character folded by `fold_char`.
pub open spec fn fold_case(s: Seq<char>) -> Seq<char> {
    Seq::new(s.len(), |i: int| fold_char(s[i]))
}

pub open spec fn is_digit(c: char) -> bool {
    '0' <= c && c <= '9'
}

pub open spec fn digit_value(c: char) -> nat {
    ((c as u32) - 48) as nat
}

pub open spec fn digit_char(d: nat) -> char {
    ((d + 48) as u8) as char
}

/// The decimal digits of `n`, most significant first, without leading zeros.
pub open spec fn decimal(n: nat) -> Seq<char>
    decreases n,
{
    if n < 10 {
        seq![digit_char(n)]
    } else {
        decimal(n / 10).push(digit_char(n % 10))
    }
}

/// The number that a string of decimal digits denotes.
pub open spec fn digits_value(s: Seq<char>) -> nat
    decreases s.len(),
{
    if s.len() == 0 {
        0
    } else {
        digits_value(s.drop_last()) * 10 + digit_value(s.last())
    }
}

/// `l` is `prefix`, then one or more decimal digits, then `)`.
pub open spec fn wraps_digits(l: Seq<char>, prefix: Seq<char>) -> bool {
    &&& l.len() >= prefix.len() + 2
    &&& l.subrange(0, prefix.len() as int) == prefix
    &&& l.last() == ')'
    &&& forall|i: int| prefix.len() <= i < l.len() - 1 ==> is_digit(#[trigger] l[i])
}

/// The number between `prefix` and the closing `)` of `l`.
pub open spec fn wrapped_value(l: Seq<char>, prefix: Seq<char>) -> nat {
    digits_value(l.subrange(prefix.len() as int, l.len() - 1))
}

/// Folding works character by character.
pub proof fn lemma_lower_concat(a: Seq<char>, b: Seq<char>)
    ensures
        fold_case(a + b) == fold_case(a) + fold_case(b),
{
    assert(fold_case(a + b) =~= fold_case(a) + fold_case(b));
}

/// A string without upper-case ASCII letters and Kelvin signs is its own folded form.
pub proof fn lemma_lower_unchanged(s: Seq<char>)
    requires
        forall|i: int|
            0 <= i < s.len() ==> !('A' <= #[trigger] s[i] && s[i] <= 'Z') && s[i] != '\u{212A}',
    ensures
        fold_case(s) == s,
{
    assert(fold_case(s) =~= s);
}

/// The decimal form of a number is a non-empty string of digits that denotes it.
pub proof fn lemma_decimal(n: nat)
    ensures
        decimal(n).len() > 0,
        forall|i: int| 0 <= i < decimal(n).len() ==> is_digit(#[trigger] decimal(n)[i]),
        digits_value(decimal(n)) == n,
    decreases n,
{
    assert(digit_value(digit_char(n % 10)) == n % 10);
    assert(decimal(n).last() == digit_char(n % 10));
    if n < 10 {
        assert(decimal(n).drop_last() =~= Seq::<char>::empty());
        assert(digits_value(decimal(n).drop_last()) == 0);
    } else {
        lemma_decimal(n / 10);
        assert(decimal(n).drop_last() =~= decimal(n / 10));
        assert(digits_value(decimal(n)) == digits_value(decimal(n / 10)) * 10 + n % 10);
    }
}

/// A longer run of digits never denotes a smaller number.
pub proof fn lemma_digits_value_prefix(s: Seq<char>, i: int)
    requires
        0 <= i <= s.len(),
    ensures
        digits_value(s.subrange(0, i)) <= digits_value(s),
    decreases s.len(),
{
    if i < s.len() {
        lemma_digits_value_prefix(s.drop_last(), i);
        assert(s.drop_last().subrange(0, i) =~= s.subrange(0, i));
    } else {
        assert(s.subrange(0, i) =~= s);
    }
}

pub fn to_folded_char(c: char) -> (r: char)
    ensures
        r == fold_char(c),
{
    if 'A' <= c && c <= 'Z' {
        ((c as u8) + 32u8) as char
    } else if c == '\u{212A}' {
        'k'
    } else {
        c
    }
}

/// Whether two strings are equal once both are folded by `fold_char`.
pub fn eq_ignore_case(a: &str, b: &str) -> (r: bool)
    ensures
        r == (fold_case(a@) == fold_case(b@)),
{
    let n = a.unicode_len();
    if n != b.unicode_len() {
        assert(fold_case(a@).len() != fold_case(b@).len());
        return false;
    }
    let mut i: usize = 0;
    while i < n
        invariant
            n == a@.len(),
            n == b@.len(),
            i <= n,
            forall|j: int| 0 <= j < i ==> fold_char(a@[j]) == fold_char(b@[j]),
        decreases n - i,
    {
        if to_folded_char(a.get_char(i)) != to_folded_char(b.get_char(i)) {
            assert(fold_case(a@)[i as int] != fold_case(b@)[i as int]);
            return false;
        }
        i += 1;
    }
    assert(fold_case(a@) =~= fold_case(b@));
    true
}

fn digit_str(d: u64) -> (r: &'static str)
    requires
        d < 10,
    ensures
        r@ == seq![digit_char(d as nat)],
{
    proof {
        reveal_strlit("0");
        reveal_strlit("1");
        reveal_strlit("2");
        reveal_strlit("3");
        reveal_strlit("4");
        reveal_strlit("5");
        reveal_strlit("6");
        reveal_strlit("7");
        reveal_strlit("8");
        reveal_strlit("9");
    }
    let r = match d {
        0 => "0",
        1 => "1",
        2 => "2",
        3 => "3",
        4 => "4",
        5 => "5",
        6 => "6",
        7 => "7",
        8 => "8",
        _ => "9",
    };
    assert(r@ =~= seq![digit_char(d as nat)]);
    r
}

/// The decimal digits of `n`.
pub fn decimal_string(n: u64) -> (r: String)
    ensures
        r@ == decimal(n as nat),
    decreases n,
{
    if n < 10 {
        String::from_str(digit_str(n))
    } else {
        let mut r = decimal_string(n / 10);
        r.append(digit_str(n % 10));
        r
    }
}

/// Reads the digits at positions `from..to` of `s` as a number, if it is at most `max`.
fn parse_digits(s: &str, from: usize, to: usize, max: u64) -> (r: Option<u64>)
    requires
        from <= to <= s@.len(),
        forall|i: int| from <= i < to ==> is_digit(#[trigger] s@[i]),
        9 <= max,
    ensures
        match r {
            Some(v) => v as nat == digits_value(s@.subrange(from as int, to as int)) && v <= max,
            None => digits_value(s@.subrange(from as int, to as int)) > max,
        },
{
    let mut v: u64 = 0;
    let mut i: usize = from;
    assert(s@.subrange(from as int, from as int) =~= Seq::<char>::empty());
    while i < to
        invariant
            from <= i <= to <= s@.len(),
            forall|j: int| from <= j < to ==> is_digit(#[trigger] s@[j]),
            v as nat == digits_value(s@.subrange(from as int, i as int)),
            v <= max,
            9 <= max,
        decreases to - i,
    {
        let c = s.get_char(i);
        assert(is_digit(s@[i as int]));
        let d = (c as u32 - 48) as u64;
        let ghost next = s@.subrange(from as int, i + 1);
        assert(next.drop_last() =~= s@.subrange(from as int, i as int));
        assert(digits_value(next) == v * 10 + d);
        if v > (max - d) / 10 {
            proof {
                assert(v * 10 + d > max) by (nonlinear_arith)
                    requires
                        v > (max - d) / 10,
                        d <= 9,
                        d <= max,
                ;
                let whole = s@.subrange(from as int, to as int);
                lemma_digits_value_prefix(whole, i + 1 - from);
                assert(whole.subrange(0, i + 1 - from) =~= next);
            }
            return None;
        }
        assert(v * 10 + d <= max) by (nonlinear_arith)
            requires
                v <= (max - d) / 10,
                d <= max,
        ;
        v = v * 10 + d;
        i += 1;
    }
    Some(v)
}

/// What stands between a prefix and a closing parenthesis.
pub enum Payload {
    /// The string is not the prefix, digits and `)`.
    Absent,
    /// The digits denote a number above the bound.
    TooLarge,
    /// The digits denote this number.
    Value(u64),
}

/// Reads `s` as `prefix`, decimal digits and `)`, comparing the prefix folded, and the number against `max`.
pub fn wrapped_number(s: &str, prefix: &str, max: u64) -> (r: Payload)
    requires
        9 <= max,
    ensures
        ({
            let l = fold_case(s@);
            let p = fold_case(prefix@);
            match r {
                Payload::Absent => !wraps_digits(l, p),
                Payload::TooLarge => wraps_digits(l, p) && wrapped_value(l, p) > max,
                Payload::Value(v) => wraps_digits(l, p) && wrapped_value(l, p) == v && v <= max,
            }
        }),
{
    let ghost l = fold_case(s@);
    let ghost p = fold_case(prefix@);
    let n = s.unicode_len();
    let k = prefix.unicode_len();
    if n < 2 || n - 2 < k {
        return Payload::Absent;
    }
    let mut i: usize = 0;
    while i < k
        invariant
            l == fold_case(s@),
            p == fold_case(prefix@),
            n == s@.len(),
            k == prefix@.len(),
            k == p.len(),
            k + 2 <= n == l.len(),
            i <= k,
            forall|j: int| 0 <= j < i ==> l[j] == p[j],
        decreases k - i,
    {
        if to_folded_char(s.get_char(i)) != to_folded_char(prefix.get_char(i)) {
            assert(l.subrange(0, k as int)[i as int] != p[i as int]);
            return Payload::Absent;
        }
        i += 1;
    }
    assert(l.subrange(0, k as int) =~= p);
    if s.get_char(n - 1) != ')' {
        assert(l.last() == fold_char(s@.last()));
        return Payload::Absent;
    }
    i = k;
    while i < n - 1
        invariant
            l == fold_case(s@),
            p == fold_case(prefix@),
            n == s@.len(),
            k == p.len(),
            k + 2 <= n == l.len(),
            k <= i <= n - 1,
            forall|j: int| k <= j < i ==> is_digit(#[trigger] s@[j]),
        decreases n - 1 - i,
    {
        let c = s.get_char(i);
        if !('0' <= c && c <= '9') {
            assert(l[i as int] == fold_char(c));
            if 'A' <= c && c <= 'Z' {
                assert((c as u8) + 32u8 >= 97);
            }
            assert(!is_digit(l[i as int]));
            return Payload::Absent;
        }
        i += 1;
    }
    assert forall|j: int| k <= j < n - 1 implies is_digit(#[trigger] l[j]) by {
        assert(is_digit(s@[j]));
    }
    assert(l.subrange(k as int, n - 1) =~= s@.subrange(k as int, n - 1));
    match parse_digits(s, k, n - 1, max) {
        Some(v) => Payload::Value(v),
        None => Payload::TooLarge,
    }
}

} // verus!
