//! Text building blocks: decimal and hexadecimal renderings of numbers.
use vstd::prelude::*;

verus! {

/// The character of the decimal digit `d` (`0 <= d < 10`).
pub open spec fn digit_char(d: int) -> char {
    (d + 48) as char
}

/// The decimal rendering of `n`, most significant digit first, without
/// leading zeros.
pub open spec fn decimal(n: nat) -> Seq<char>
    decreases n,
{
    if n < 10 {
        seq![digit_char(n as int)]
    } else {
        decimal(n / 10).push(digit_char((n % 10) as int))
    }
}

/// The character of the hexadecimal digit `d` (`0 <= d < 16`), in upper or
/// lower case.
pub open spec fn hex_char(d: int, upper: bool) -> char {
    if d < 10 {
        digit_char(d)
    } else if upper {
        (d - 10 + 65) as char
    } else {
        (d - 10 + 97) as char
    }
}

/// The `width` lowest hexadecimal digits of `v`, most significant first.
pub open spec fn hex(v: nat, width: nat, upper: bool) -> Seq<char>
    decreases width,
{
    if width == 0 {
        seq![]
    } else {
        hex(v / 16, (width - 1) as nat, upper).push(hex_char((v % 16) as int, upper))
    }
}

/// Appends `c` to `s` (`String::push`).
#[verifier::external_body]
pub(crate) fn push_char(s: &mut String, c: char)
    ensures
        final(s)@ == old(s)@.push(c),
{
    s.push(c);
}

/// The character of the decimal digit `d`.
pub fn digit(d: u64) -> (c: char)
    requires
        d < 10,
    ensures
        c == digit_char(d as int),
{
    let b: u8 = d as u8 + 48;
    b as char
}

/// The decimal rendering of `n`.
pub fn decimal_string(n: u64) -> (s: String)
    ensures
        s@ == decimal(n as nat),
    decreases n,
{
    let mut s = if n < 10 {
        String::new()
    } else {
        decimal_string(n / 10)
    };
    push_char(&mut s, digit(n % 10));
    s
}

/// Appends the `width` lowest hexadecimal digits of `v` to `s`.
pub fn push_hex(s: &mut String, v: u128, width: u32, upper: bool)
    requires
        width <= 32,
    ensures
        final(s)@ == old(s)@ + hex(v as nat, width as nat, upper),
    decreases width,
{
    if width > 0 {
        push_hex(s, v / 16, width - 1, upper);
        let d: u8 = (v % 16) as u8;
        let c: char = if d < 10 {
            (d + 48) as char
        } else if upper {
            (d - 10 + 65) as char
        } else {
            (d - 10 + 97) as char
        };
        push_char(s, c);
        proof {
            assert((v / 16) as nat == (v as nat) / 16);
        }
    }
}

} // verus!

verus! {

/// Whether the texts `a` and `b` are the same.
pub fn same_text(a: &str, b: &str) -> (same: bool)
    ensures
        same == (a@ == b@),
{
    let n = a.unicode_len();
    if n != b.unicode_len() {
        return false;
    }
    let mut i: usize = 0;
    while i < n
        invariant
            n == a@.len(),
            n == b@.len(),
            i <= n,
            forall|k: int| 0 <= k < i ==> a@[k] == b@[k],
        decreases n - i,
    {
        if a.get_char(i) != b.get_char(i) {
            return false;
        }
        i += 1;
    }
    assert(a@ =~= b@);
    true
}

} // verus!

verus! {

/// A hexadecimal rendering has as many digits as asked for.
pub proof fn lemma_hex_len(v: nat, width: nat, upper: bool)
    ensures
        hex(v, width, upper).len() == width,
    decreases width,
{
    if width > 0 {
        lemma_hex_len(v / 16, (width - 1) as nat, upper);
    }
}

/// A decimal rendering is not empty and is made of decimal digits only.
pub proof fn lemma_decimal_digits(n: nat)
    ensures
        decimal(n).len() > 0,
        forall|i: int| 0 <= i < decimal(n).len() ==> '0' <= #[trigger] decimal(n)[i] <= '9',
    decreases n,
{
    if n >= 10 {
        lemma_decimal_digits(n / 10);
    }
}

/// The number that the decimal digits `s` stand for, most significant digit
/// first (zero for no digits).
pub open spec fn digits_value(s: Seq<char>) -> int
    decreases s.len(),
{
    if s.len() == 0 {
        0
    } else {
        digits_value(s.drop_last()) * 10 + (s.last() as int - 48)
    }
}

/// A decimal rendering reads back as the number it renders, and starts with a
/// zero only when that number is zero.
pub proof fn lemma_decimal_value(n: nat)
    ensures
        digits_value(decimal(n)) == n,
        n > 0 ==> decimal(n)[0] != '0',
    decreases n,
{
    if n < 10 {
        assert(decimal(n).drop_last() =~= Seq::<char>::empty());
        assert(digits_value(decimal(n).drop_last()) == 0);
    } else {
        lemma_decimal_value(n / 10);
        lemma_decimal_digits(n / 10);
        assert(decimal(n).drop_last() =~= decimal(n / 10));
    }
}

} // verus!
