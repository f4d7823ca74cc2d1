//! Rendering numbers as text, digit by digit.
use vstd::prelude::*;

verus! {

/// The decimal digit characters, in order.
pub open spec fn decimal_digits() -> Seq<char> {
    seq!['0', '1', '2', '3', '4', '5', '6', '7', '8', '9']
}

/// The lower-case hexadecimal digit characters, in order.
pub open spec fn hex_digits() -> Seq<char> {
    seq!['0', '1', '2', '3', '4', '5', '6', '7', '8', '9', 'a', 'b', 'c', 'd', 'e', 'f']
}

/// `n` written in base ten, without leading zeros (zero is `"0"`).
pub open spec fn decimal(n: nat) -> Seq<char>
    decreases n,
{
    if n < 10 {
        seq![decimal_digits()[n as int]]
    } else {
        decimal(n / 10).push(decimal_digits()[(n % 10) as int])
    }
}

/// The lowest `width` hexadecimal digits of `n`, most significant first,
/// padded with zeros.
pub open spec fn hex_padded(n: nat, width: nat) -> Seq<char>
    decreases width,
{
    if width == 0 {
        Seq::empty()
    } else {
        hex_padded(n / 16, (width - 1) as nat).push(hex_digits()[(n % 16) as int])
    }
}

/// Append the one digit `d` (below 10) to `out`.
fn push_decimal_digit(out: &mut String, d: usize)
    requires
        d < 10,
    ensures
        final(out)@ == old(out)@.push(decimal_digits()[d as int]),
{
    let digits = "0123456789";
    proof {
        reveal_strlit("0123456789");
    }
    let one = digits.substring_char(d, d + 1);
    assert(one@ =~= seq![decimal_digits()[d as int]]);
    out.append(one);
}

/// Append the one hexadecimal digit `d` (below 16) to `out`.
fn push_hex_digit(out: &mut String, d: u64)
    requires
        d < 16,
    ensures
        final(out)@ == old(out)@.push(hex_digits()[d as int]),
{
    let digits = "0123456789abcdef";
    proof {
        reveal_strlit("0123456789abcdef");
    }
    let i = d as usize;
    let one = digits.substring_char(i, i + 1);
    assert(one@ =~= seq![hex_digits()[d as int]]);
    out.append(one);
}

/// Append `n` in base ten to `out`.
pub fn push_decimal(out: &mut String, n: usize)
    ensures
        final(out)@ == old(out)@ + decimal(n as nat),
    decreases n,
{
    if n < 10 {
        push_decimal_digit(out, n);
        assert(decimal(n as nat) =~= seq![decimal_digits()[n as int]]);
    } else {
        push_decimal(out, n / 10);
        push_decimal_digit(out, n % 10);
        assert(decimal(n as nat) == decimal((n / 10) as nat).push(decimal_digits()[(n % 10) as int]));
        assert(final(out)@ =~= old(out)@ + decimal(n as nat));
    }
}

/// `n` in base ten.
pub fn decimal_string(n: usize) -> (s: String)
    ensures
        s@ == decimal(n as nat),
{
    let mut s = String::new();
    push_decimal(&mut s, n);
    assert(s@ =~= decimal(n as nat));
    s
}

/// Append the lowest `width` hexadecimal digits of `n` to `out`, zero-padded.
pub fn push_hex_padded(out: &mut String, n: u64, width: usize)
    ensures
        final(out)@ == old(out)@ + hex_padded(n as nat, width as nat),
    decreases width,
{
    if width > 0 {
        push_hex_padded(out, n / 16, width - 1);
        push_hex_digit(out, n % 16);
        assert(final(out)@ =~= old(out)@ + hex_padded(n as nat, width as nat));
    } else {
        assert(final(out)@ =~= old(out)@ + hex_padded(n as nat, width as nat));
    }
}

/// Whether two strings hold the same characters.
pub fn same_text(a: &str, b: &str) -> (same: bool)
    ensures
        same == (a@ == b@),
{
    let n = a.unicode_len();
    if n != b.unicode_len() {
        return false;
    }
    let mut i: usize = 0;
    while i < n
        invariant
            n == a@.len(),
            n == b@.len(),
            i <= n,
            forall|j: int| 0 <= j < i ==> a@[j] == b@[j],
        decreases n - i,
    {
        if a.get_char(i) != b.get_char(i) {
            return false;
        }
        i = i + 1;
    }
    assert(a@ =~= b@);
    true
}

/// The value of a lower-case hexadecimal digit character.
pub open spec fn hex_digit_value(c: char) -> nat {
    if '0' <= c && c <= '9' {
        (c as int - '0' as int) as nat
    } else if 'a' <= c && c <= 'f' {
        (c as int - 'a' as int + 10) as nat
    } else {
        0
    }
}

/// The number lower-case hexadecimal digits `s` write, most significant
/// first.
pub open spec fn hex_value(s: Seq<char>) -> nat
    decreases s.len(),
{
    if s.len() == 0 {
        0
    } else {
        hex_value(s.drop_last()) * 16 + hex_digit_value(s.last())
    }
}

/// Sixteen to the power `w`.
pub open spec fn pow16(w: nat) -> nat
    decreases w,
{
    if w == 0 {
        1
    } else {
        16 * pow16((w - 1) as nat)
    }
}

/// Each digit character reads back as the digit it writes.
proof fn lemma_hex_digit_reads_back(d: int)
    requires
        0 <= d < 16,
    ensures
        hex_digit_value(hex_digits()[d]) == d,
{
    let digits = seq!['0', '1', '2', '3', '4', '5', '6', '7', '8', '9', 'a', 'b', 'c', 'd', 'e', 'f'];
    assert(hex_digits() == digits);
    assert(forall|k: int| 0 <= k < 10 ==> #[trigger] digits[k] as int == '0' as int + k);
    assert(forall|k: int| 10 <= k < 16 ==> #[trigger] digits[k] as int == 'a' as int + k - 10);
}

/// A number written in `width` hexadecimal digits reads back as itself
/// whenever it fits in them: the rendering loses nothing.
pub proof fn hex_padded_reads_back(n: nat, width: nat)
    requires
        n < pow16(width),
    ensures
        hex_value(hex_padded(n, width)) == n,
    decreases width,
{
    if width == 0 {
    } else {
        let p = pow16((width - 1) as nat);
        assert(n / 16 < p) by (nonlinear_arith)
            requires
                n < 16 * p,
        ;
        hex_padded_reads_back(n / 16, (width - 1) as nat);
        lemma_hex_digit_reads_back((n % 16) as int);
        let s = hex_padded(n, width);
        assert(s.drop_last() =~= hex_padded(n / 16, (width - 1) as nat));
        assert(n == (n / 16) * 16 + n % 16) by (nonlinear_arith);
    }
}

} // verus!
