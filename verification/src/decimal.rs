//! Decimal text of unsigned integers: formatting as `Display` writes it, and
//! parsing as `usize::from_str` reads it.

use vstd::prelude::*;
use crate::text::{chars_of, push_char};

verus! {

/// Why a text is not the decimal form of a `usize`; the kinds that
/// `usize::from_str` can report.
#[derive(Debug, Clone, Copy, PartialEq, Eq, Structural)]
pub enum IntErrorKind {
    /// The text is empty.
    Empty,
    /// The text holds a character that is not a decimal digit where one is needed.
    InvalidDigit,
    /// The number is larger than `usize::MAX`.
    PosOverflow,
}

pub open spec fn is_digit(c: char) -> bool {
    '0' <= c && c <= '9'
}

pub open spec fn digit_value(c: char) -> nat {
    (c as int - '0' as int) as nat
}

pub open spec fn digit_char(d: nat) -> char {
    (d + '0' as int) as char
}

pub open spec fn all_digits(s: Seq<char>) -> bool {
    forall|i: int| 0 <= i < s.len() ==> #[trigger] is_digit(s[i])
}

/// The number that a sequence of decimal digits denotes, most significant first.
pub open spec fn digits_value(s: Seq<char>) -> nat
    decreases s.len(),
{
    if s.len() == 0 {
        0
    } else {
        digits_value(s.drop_last()) * 10 + digit_value(s.last())
    }
}

/// The shortest decimal text of `n`, as `Display` writes an unsigned integer.
pub open spec fn decimal(n: nat) -> Seq<char>
    decreases n,
{
    if n < 10 {
        seq![digit_char(n)]
    } else {
        decimal(n / 10).push(digit_char(n % 10))
    }
}

/// The digits that `from_str` reads: the text without one leading `+`.
pub open spec fn unsigned_digits(s: Seq<char>) -> Seq<char> {
    if s.len() > 0 && s[0] == '+' {
        s.drop_first()
    } else {
        s
    }
}

/// The first `i` characters of `d` are digits and already denote more than `usize::MAX`.
pub open spec fn overflowing_prefix(d: Seq<char>, i: int) -> bool {
    &&& 0 < i <= d.len()
    &&& all_digits(d.take(i))
    &&& digits_value(d.take(i)) > usize::MAX
}

/// What `usize::from_str` gives for the text `s`.
pub open spec fn spec_parse_usize(s: Seq<char>) -> Result<usize, IntErrorKind> {
    let d = unsigned_digits(s);
    if s.len() == 0 {
        Err(IntErrorKind::Empty)
    } else if s.len() == 1 && (s[0] == '+' || s[0] == '-') {
        Err(IntErrorKind::InvalidDigit)
    } else if exists|i: int| overflowing_prefix(d, i) {
        Err(IntErrorKind::PosOverflow)
    } else if !all_digits(d) {
        Err(IntErrorKind::InvalidDigit)
    } else {
        Ok(digits_value(d) as usize)
    }
}

/// The text that `Display` gives for each kind of error of `usize::from_str`.
pub open spec fn spec_int_error_message(kind: IntErrorKind) -> Seq<char> {
    match kind {
        IntErrorKind::Empty => "cannot parse integer from empty string"@,
        IntErrorKind::InvalidDigit => "invalid digit found in string"@,
        IntErrorKind::PosOverflow => "number too large to fit in target type"@,
    }
}

impl IntErrorKind {
    /// The message of this error, as `ParseIntError` displays it.
    pub fn message(&self) -> (r: String)
        ensures
            r@ == spec_int_error_message(*self),
    {
        match self {
            IntErrorKind::Empty => String::from_str("cannot parse integer from empty string"),
            IntErrorKind::InvalidDigit => String::from_str("invalid digit found in string"),
            IntErrorKind::PosOverflow => String::from_str("number too large to fit in target type"),
        }
    }
}

/// A longer prefix never denotes a smaller number.
pub proof fn lemma_digits_value_prefix(s: Seq<char>, j: int, k: int)
    requires
        0 <= j <= k <= s.len(),
    ensures
        digits_value(s.take(j)) <= digits_value(s.take(k)),
    decreases k - j,
{
    if j < k {
        lemma_digits_value_prefix(s, j, k - 1);
        assert(s.take(k).drop_last() =~= s.take(k - 1));
    }
}

/// The digit character of a digit value is a digit that has this value.
pub proof fn lemma_digit_char(d: nat)
    requires
        d < 10,
    ensures
        is_digit(digit_char(d)),
        digit_value(digit_char(d)) == d,
{
}

/// The decimal text of a number is a non-empty run of digits that denotes it.
pub proof fn lemma_decimal(n: nat)
    ensures
        decimal(n).len() >= 1,
        all_digits(decimal(n)),
        digits_value(decimal(n)) == n,
    decreases n,
{
    lemma_digit_char(n % 10);
    if n < 10 {
        let s = decimal(n);
        assert(s.drop_last() =~= Seq::<char>::empty());
        assert(digits_value(s.drop_last()) == 0);
        assert(is_digit(s[0]));
    } else {
        lemma_decimal(n / 10);
        let s = decimal(n);
        assert(s.drop_last() =~= decimal(n / 10));
        assert(is_digit(s[s.len() - 1]));
        assert forall|i: int| 0 <= i < s.len() implies #[trigger] is_digit(s[i]) by {
            if i < s.len() - 1 {
                assert(s[i] == decimal(n / 10)[i]);
            }
        }
    }
}

/// Parsing the decimal text of a `usize` gives it back.
pub proof fn lemma_parse_decimal(n: usize)
    ensures
        spec_parse_usize(decimal(n as nat)) == Ok::<usize, IntErrorKind>(n),
{
    let s = decimal(n as nat);
    lemma_decimal(n as nat);
    assert(is_digit(s[0]));
    assert(unsigned_digits(s) == s);
    assert(s.take(s.len() as int) =~= s);
    assert forall|i: int| !overflowing_prefix(s, i) by {
        if 0 < i <= s.len() {
            lemma_digits_value_prefix(s, i, s.len() as int);
        }
    }
}

/// Two numbers with the same decimal text are equal.
pub proof fn lemma_decimal_injective(a: nat, b: nat)
    requires
        decimal(a) == decimal(b),
    ensures
        a == b,
{
    lemma_decimal(a);
    lemma_decimal(b);
}

/// The digit character of `d`.
fn digit_to_char(d: u64) -> (c: char)
    requires
        d < 10,
    ensures
        c == digit_char(d as nat),
{
    ((d as u8) + 48u8) as char
}

/// Appends the decimal text of `n` to `s`.
fn push_decimal(s: &mut String, n: u64)
    ensures
        final(s)@ == old(s)@ + decimal(n as nat),
    decreases n,
{
    if n >= 10 {
        push_decimal(s, n / 10);
    }
    let ghost mid = s@;
    push_char(s, digit_to_char(n % 10));
    proof {
        if n >= 10 {
            assert(decimal(n as nat) == decimal((n / 10) as nat).push(digit_char((n % 10) as nat)));
        }
        assert(s@ =~= old(s)@ + decimal(n as nat));
    }
}

/// The decimal text of `n`, as `n.to_string()` gives it.
pub fn usize_to_decimal(n: usize) -> (r: String)
    ensures
        r@ == decimal(n as nat),
{
    let mut s = String::new();
    push_decimal(&mut s, n as u64);
    assert(s@ =~= decimal(n as nat));
    s
}

/// Reads `s` as `usize::from_str` does.
pub fn parse_usize(s: &str) -> (r: Result<usize, IntErrorKind>)
    ensures
        r == spec_parse_usize(s@),
{
    let v = chars_of(s);
    let n = v.len();
    if n == 0 {
        return Err(IntErrorKind::Empty);
    }
    if n == 1 && (v[0] == '+' || v[0] == '-') {
        return Err(IntErrorKind::InvalidDigit);
    }
    let start: usize = if v[0] == '+' { 1 } else { 0 };
    let ghost d = unsigned_digits(s@);
    assert(d =~= v@.skip(start as int));
    let mut acc: usize = 0;
    let mut i: usize = start;
    assert(d.take(0) =~= Seq::<char>::empty());
    while i < n
        invariant
            v@ == s@,
            n == v@.len(),
            start <= i <= n,
            start <= 1,
            d == v@.skip(start as int),
            d == unsigned_digits(s@),
            n > 0,
            !(n == 1 && (v@[0] == '+' || v@[0] == '-')),
            all_digits(d.take(i - start)),
            acc == digits_value(d.take(i - start)),
        decreases n - i,
    {
        let c = v[i];
        let ghost k: int = i - start;
        assert(d[k] == c);
        if !(c >= '0' && c <= '9') {
            proof {
                assert forall|j: int| !overflowing_prefix(d, j) by {
                    if 0 < j <= d.len() && all_digits(d.take(j)) {
                        if j > k {
                            assert(is_digit(d.take(j)[k]));
                        }
                        lemma_digits_value_prefix(d, j, k);
                    }
                }
                assert(!is_digit(d[k]));
            }
            return Err(IntErrorKind::InvalidDigit);
        }
        let dv: usize = ((c as u32) - 48u32) as usize;
        assert(d.take(k + 1).drop_last() =~= d.take(k));
        assert(d.take(k + 1).last() == c);
        match acc.checked_mul(10) {
            None => {
                proof {
                    assert(all_digits(d.take(k + 1))) by {
                        assert forall|j: int| 0 <= j < k + 1 implies #[trigger] is_digit(d.take(k + 1)[j]) by {
                            if j < k {
                                assert(d.take(k + 1)[j] == d.take(k)[j]);
                            }
                        }
                    }
                    assert(overflowing_prefix(d, k + 1));
                }
                return Err(IntErrorKind::PosOverflow);
            },
            Some(m) => {
                match m.checked_add(dv) {
                    None => {
                        proof {
                            assert(all_digits(d.take(k + 1))) by {
                                assert forall|j: int| 0 <= j < k + 1 implies #[trigger] is_digit(d.take(k + 1)[j]) by {
                                    if j < k {
                                        assert(d.take(k + 1)[j] == d.take(k)[j]);
                                    }
                                }
                            }
                            assert(overflowing_prefix(d, k + 1));
                        }
                        return Err(IntErrorKind::PosOverflow);
                    },
                    Some(x) => {
                        proof {
                            assert forall|j: int| 0 <= j < k + 1 implies #[trigger] is_digit(d.take(k + 1)[j]) by {
                                if j < k {
                                    assert(d.take(k + 1)[j] == d.take(k)[j]);
                                }
                            }
                        }
                        acc = x;
                    },
                }
            },
        }
        i = i + 1;
    }
    proof {
        assert(d.take(d.len() as int) =~= d);
        assert forall|j: int| !overflowing_prefix(d, j) by {
            if 0 < j <= d.len() {
                lemma_digits_value_prefix(d, j, d.len() as int);
            }
        }
    }
    Ok(acc)
}

} // verus!
