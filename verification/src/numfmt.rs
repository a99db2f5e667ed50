//! Decimal and hexadecimal rendering of integers into strings.

use vstd::prelude::*;

verus! {

/// `String::push` appends one character at the end of the string.
pub assume_specification[ String::push ](s: &mut String, ch: char)
    ensures
        final(s)@ == old(s)@.push(ch),
;

/// The ASCII character of a decimal digit.
pub open spec fn digit_char(d: nat) -> char {
    ((48 + d) as u8) as char
}

/// The ASCII character of an upper-case hexadecimal digit.
pub open spec fn hex_char(d: nat) -> char {
    if d < 10 {
        ((48 + d) as u8) as char
    } else {
        ((55 + d) as u8) as char
    }
}

/// The shortest decimal rendering of `n` (no sign, no leading zeros).
pub open spec fn decimal(n: nat) -> Seq<char>
    decreases n,
{
    if n < 10 {
        seq![digit_char(n)]
    } else {
        decimal(n / 10).push(digit_char(n % 10))
    }
}

/// The value of the hexadecimal digit at position `k` (0 is the most significant) of an
/// eight-digit rendering of `n`.
pub open spec fn hex_digit_at(n: u32, k: int) -> nat {
    ((n as int / pow16(7 - k)) % 16) as nat
}

/// Powers of sixteen.
pub open spec fn pow16(e: int) -> int
    decreases e,
{
    if e <= 0 {
        1
    } else {
        16 * pow16(e - 1)
    }
}

proof fn lemma_pow16_positive(e: int)
    ensures
        pow16(e) >= 1,
    decreases e,
{
    if e > 0 {
        lemma_pow16_positive(e - 1);
    }
}

/// The eight-digit, zero-padded, upper-case hexadecimal rendering of `n`.
pub open spec fn hex8(n: u32) -> Seq<char> {
    Seq::new(8, |k: int| hex_char(hex_digit_at(n, k)))
}

fn digit_of(d: u64) -> (c: char)
    requires
        d < 10,
    ensures
        c == digit_char(d as nat),
{
    let b: u8 = 48u8 + (d as u8);
    b as char
}

fn hex_digit_of(d: u32) -> (c: char)
    requires
        d < 16,
    ensures
        c == hex_char(d as nat),
{
    if d < 10 {
        let b: u8 = 48u8 + (d as u8);
        b as char
    } else {
        let b: u8 = 55u8 + (d as u8);
        b as char
    }
}

/// Appends the decimal rendering of `n` to `s`.
pub fn push_decimal(s: &mut String, n: u64)
    ensures
        final(s)@ == old(s)@ + decimal(n as nat),
    decreases n,
{
    if n >= 10 {
        push_decimal(s, n / 10);
    }
    let c = digit_of(n % 10);
    s.push(c);
    proof {
        if n < 10 {
            assert(decimal(n as nat) =~= seq![digit_char(n as nat)]);
        }
    }
}

/// Appends the eight-digit upper-case hexadecimal rendering of `n` to `s`.
pub fn push_hex8(s: &mut String, n: u32)
    ensures
        final(s)@ == old(s)@ + hex8(n),
{
    let ghost start = s@;
    proof {
        reveal_with_fuel(pow16, 8);
    }
    let mut k: u32 = 0;
    let mut divisor: u32 = 268435456;
    while k < 8
        invariant
            k <= 8,
            s@.len() == start.len() + k,
            s@.subrange(0, start.len() as int) == start,
            forall|j: int| 0 <= j < k ==> #[trigger] s@[start.len() + j] == hex8(n)[j],
            k < 8 ==> divisor as int == pow16(7 - k),
            divisor >= 1,
        decreases 8 - k,
    {
        let d = (n / divisor) % 16;
        let c = hex_digit_of(d);
        s.push(c);
        proof {
            assert(hex8(n)[k as int] == hex_char(hex_digit_at(n, k as int)));
        }
        if k < 7 {
            assert(pow16(7 - k as int) == 16 * pow16(7 - (k + 1) as int));
            proof {
                lemma_pow16_positive(7 - (k + 1) as int);
            }
            divisor = divisor / 16;
        }
        k = k + 1;
    }
    assert forall|j: int| 0 <= j < s@.len() implies s@[j] == (start + hex8(n))[j] by {
        if j < start.len() {
            assert(s@[j] == s@.subrange(0, start.len() as int)[j]);
        } else {
            assert(s@[start.len() + (j - start.len())] == hex8(n)[j - start.len()]);
        }
    }
    assert(s@ =~= start + hex8(n));
}

/// The number a string of decimal digits stands for.
pub open spec fn digits_value(s: Seq<char>) -> int
    decreases s.len(),
{
    if s.len() == 0 {
        0
    } else {
        digits_value(s.drop_last()) * 10 + (s.last() as int - 48)
    }
}

/// The decimal rendering of `n` is made of the digits '0' to '9', does not start with '0'
/// unless it is "0", and stands for `n`.
pub proof fn decimal_reads_back(n: nat)
    ensures
        forall|i: int| 0 <= i < decimal(n).len() ==> '0' <= #[trigger] decimal(n)[i] <= '9',
        decimal(n).len() >= 1,
        decimal(n)[0] == '0' ==> n == 0,
        digits_value(decimal(n)) == n,
    decreases n,
{
    assert(digit_char(n % 10) as int == 48 + n % 10);
    if n >= 10 {
        decimal_reads_back(n / 10);
        assert(decimal(n).drop_last() =~= decimal(n / 10));
        assert(decimal(n)[0] == decimal(n / 10)[0]);
        assert(decimal(n).last() == digit_char(n % 10));
        assert(digits_value(decimal(n)) == digits_value(decimal(n / 10)) * 10 + (n % 10));
        assert((n / 10) * 10 + n % 10 == n);
    } else {
        assert(decimal(n).drop_last() =~= Seq::<char>::empty());
        assert(digits_value(Seq::<char>::empty()) == 0);
        assert(decimal(n).last() == digit_char(n));
    }
}

} // verus!
