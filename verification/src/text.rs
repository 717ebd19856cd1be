//! Building text: decimal and hexadecimal renderings of integers.

use vstd::prelude::*;

verus! {

/// The decimal digits.
pub const DECIMAL_DIGITS: [char; 10] = ['0', '1', '2', '3', '4', '5', '6', '7', '8', '9'];

/// The upper-case hexadecimal digits.
pub const HEX_UPPER_DIGITS: [char; 16] = [
    '0', '1', '2', '3', '4', '5', '6', '7', '8', '9', 'A', 'B', 'C', 'D', 'E', 'F',
];

/// The decimal rendering of `n`, without leading zeros.
pub open spec fn decimal(n: nat) -> Seq<char>
    decreases n,
{
    if n < 10 {
        seq![DECIMAL_DIGITS@[n as int]]
    } else {
        decimal(n / 10).push(DECIMAL_DIGITS@[(n % 10) as int])
    }
}

/// The `width`-digit upper-case hexadecimal rendering of `n` (the `width`
/// lowest hexadecimal digits, zero-padded).
pub open spec fn hex_upper(n: nat, width: nat) -> Seq<char>
    decreases width,
{
    if width == 0 {
        Seq::empty()
    } else {
        hex_upper(n / 16, (width - 1) as nat).push(HEX_UPPER_DIGITS@[(n % 16) as int])
    }
}

/// Appends a character to a string (`String::push`).
#[verifier::external_body]
pub fn push_char(s: &mut String, c: char)
    ensures
        final(s)@ == old(s)@.push(c),
{
    s.push(c);
}

/// Appends a string slice to a string.
pub fn push_str(s: &mut String, t: &str)
    ensures
        final(s)@ == old(s)@ + t@,
{
    s.append(t);
}

/// Appends the decimal rendering of `n`.
pub fn push_decimal(s: &mut String, n: u64)
    ensures
        final(s)@ == old(s)@ + decimal(n as nat),
    decreases n,
{
    if n >= 10 {
        push_decimal(s, n / 10);
    }
    let d = (n % 10) as usize;
    push_char(s, DECIMAL_DIGITS[d]);
    proof {
        if n >= 10 {
            assert(decimal(n as nat) == decimal((n / 10) as nat).push(DECIMAL_DIGITS@[(n % 10) as int]));
        }
        assert(old(s)@ + decimal(n as nat) =~= final(s)@) by {
            if n >= 10 {
                assert(old(s)@ + decimal((n / 10) as nat).push(DECIMAL_DIGITS@[d as int])
                    =~= (old(s)@ + decimal((n / 10) as nat)).push(DECIMAL_DIGITS@[d as int]));
            }
        }
    }
}

/// Appends the `width`-digit upper-case hexadecimal rendering of `n`.
pub fn push_hex_upper(s: &mut String, n: u64, width: u32)
    ensures
        final(s)@ == old(s)@ + hex_upper(n as nat, width as nat),
    decreases width,
{
    if width == 0 {
        assert(old(s)@ + hex_upper(n as nat, 0) =~= old(s)@);
        return;
    }
    push_hex_upper(s, n / 16, width - 1);
    let d = (n % 16) as usize;
    push_char(s, HEX_UPPER_DIGITS[d]);
    assert(old(s)@ + hex_upper(n as nat, width as nat) =~= final(s)@) by {
        assert(hex_upper(n as nat, width as nat) == hex_upper((n / 16) as nat, (width - 1) as nat).push(HEX_UPPER_DIGITS@[(n % 16) as int]));
        assert(old(s)@ + hex_upper((n / 16) as nat, (width - 1) as nat).push(HEX_UPPER_DIGITS@[d as int])
            =~= (old(s)@ + hex_upper((n / 16) as nat, (width - 1) as nat)).push(HEX_UPPER_DIGITS@[d as int]));
    }
}

/// Whether `s` holds the character NUL, which a C string cannot carry.
pub open spec fn has_nul(s: Seq<char>) -> bool {
    exists|i: int| 0 <= i < s.len() && s[i] == '\0'
}

/// Whether `s` can be handed to C as a string: it holds no NUL character.
pub fn is_c_compatible(s: &str) -> (b: bool)
    ensures
        b == !has_nul(s@),
{
    let n = s.unicode_len();
    let mut i: usize = 0;
    while i < n
        invariant
            n == s@.len(),
            i <= n,
            forall|j: int| 0 <= j < i ==> s@[j] != '\0',
        decreases n - i,
    {
        if s.get_char(i) == '\0' {
            return false;
        }
        i = i + 1;
    }
    true
}

} // verus!
