//! Human-readable rendering of byte counts with binary (1024-based) units.
use vstd::prelude::*;

verus! {

/// Bytes in one KB.
pub const KIB: u64 = 1024;

/// Bytes in one MB.
pub const MIB: u64 = 1048576;

/// Bytes in one GB.
pub const GIB: u64 = 1073741824;

/// Bytes in one TB, the largest unit.
pub const TIB: u64 = 1099511627776;

/// `1024^k`.
pub open spec fn unit_divisor(k: nat) -> nat
    decreases k,
{
    if k == 0 {
        1
    } else {
        1024 * unit_divisor((k - 1) as nat)
    }
}

/// The unit used for `n` bytes: the largest of B, KB, MB, GB, TB (indices 0 to 4)
/// whose size does not exceed `n`, and B for anything below 1024.
pub open spec fn unit_index(n: nat) -> nat {
    if n < KIB {
        0
    } else if n < MIB {
        1
    } else if n < GIB {
        2
    } else if n < TIB {
        3
    } else {
        4
    }
}

/// The name of the unit with index `k`.
pub open spec fn unit_name(k: nat) -> Seq<char> {
    if k == 0 {
        seq!['B']
    } else if k == 1 {
        seq!['K', 'B']
    } else if k == 2 {
        seq!['M', 'B']
    } else if k == 3 {
        seq!['G', 'B']
    } else {
        seq!['T', 'B']
    }
}

/// `x / d` rounded to the nearest integer, ties to the even neighbour.
pub open spec fn round_half_even(x: nat, d: nat) -> nat
    recommends
        d > 0,
{
    let q = x / d;
    let r = x % d;
    if 2 * r > d || (2 * r == d && q % 2 == 1) {
        q + 1
    } else {
        q
    }
}

/// `n` bytes expressed in its unit, in hundredths, rounded half to even.
pub open spec fn hundredths(n: nat) -> nat {
    round_half_even(100 * n, unit_divisor(unit_index(n)))
}

/// The decimal digit `d` (below ten) as a character.
pub open spec fn digit_char(d: nat) -> char {
    if d == 0 {
        '0'
    } else if d == 1 {
        '1'
    } else if d == 2 {
        '2'
    } else if d == 3 {
        '3'
    } else if d == 4 {
        '4'
    } else if d == 5 {
        '5'
    } else if d == 6 {
        '6'
    } else if d == 7 {
        '7'
    } else if d == 8 {
        '8'
    } else {
        '9'
    }
}

/// The decimal notation of `n`, without leading zeros.
pub open spec fn decimal(n: nat) -> Seq<char>
    decreases n,
{
    if n < 10 {
        seq![digit_char(n)]
    } else {
        decimal(n / 10) + seq![digit_char(n % 10)]
    }
}

/// The text for `n` bytes: the value in its unit with exactly two decimals,
/// a space and the unit name (`1536` gives `1.50 KB`).
pub open spec fn size_text(n: nat) -> Seq<char> {
    let h = hundredths(n);
    decimal(h / 100) + seq!['.', digit_char((h % 100) / 10), digit_char((h % 100) % 10), ' ']
        + unit_name(unit_index(n))
}

/// The unit chosen for `n` bytes is the largest of B, KB, MB, GB, TB whose size
/// does not exceed `n` (B below 1024): the value shown is at least 1 unless it
/// is zero bytes, and below 1024 unless the unit is TB, the largest, where
/// any count of 1024^4 and above stays, however large.
pub proof fn lemma_unit_choice(n: nat)
    ensures
        unit_index(n) <= 4,
        n > 0 ==> unit_divisor(unit_index(n)) <= n,
        unit_index(n) < 4 ==> n < 1024 * unit_divisor(unit_index(n)),
        n >= TIB ==> unit_index(n) == 4 && unit_name(unit_index(n)) == seq!['T', 'B'],
{
    reveal_with_fuel(unit_divisor, 5);
}

/// Appends the digit `d` to `out`.
fn push_digit(out: &mut String, d: u128)
    requires
        d < 10,
    ensures
        final(out)@ == old(out)@ + seq![digit_char(d as nat)],
{
    let s: &str = if d == 0 {
        proof { reveal_strlit("0"); }
        "0"
    } else if d == 1 {
        proof { reveal_strlit("1"); }
        "1"
    } else if d == 2 {
        proof { reveal_strlit("2"); }
        "2"
    } else if d == 3 {
        proof { reveal_strlit("3"); }
        "3"
    } else if d == 4 {
        proof { reveal_strlit("4"); }
        "4"
    } else if d == 5 {
        proof { reveal_strlit("5"); }
        "5"
    } else if d == 6 {
        proof { reveal_strlit("6"); }
        "6"
    } else if d == 7 {
        proof { reveal_strlit("7"); }
        "7"
    } else if d == 8 {
        proof { reveal_strlit("8"); }
        "8"
    } else {
        proof { reveal_strlit("9"); }
        "9"
    };
    assert(s@ =~= seq![digit_char(d as nat)]);
    out.append(s);
}

/// Appends the decimal notation of `n` to `out`.
pub(crate) fn push_decimal(out: &mut String, n: u128)
    ensures
        final(out)@ == old(out)@ + decimal(n as nat),
    decreases n,
{
    if n < 10 {
        push_digit(out, n);
    } else {
        push_decimal(out, n / 10);
        push_digit(out, n % 10);
        assert(final(out)@ =~= old(out)@ + decimal(n as nat));
    }
}

/// The name of the unit with index `k` as a string slice.
fn unit_str(k: usize) -> (r: &'static str)
    requires
        k <= 4,
    ensures
        r@ == unit_name(k as nat),
{
    if k == 0 {
        proof { reveal_strlit("B"); }
        assert("B"@ =~= unit_name(0));
        "B"
    } else if k == 1 {
        proof { reveal_strlit("KB"); }
        assert("KB"@ =~= unit_name(1));
        "KB"
    } else if k == 2 {
        proof { reveal_strlit("MB"); }
        assert("MB"@ =~= unit_name(2));
        "MB"
    } else if k == 3 {
        proof { reveal_strlit("GB"); }
        assert("GB"@ =~= unit_name(3));
        "GB"
    } else {
        proof { reveal_strlit("TB"); }
        assert("TB"@ =~= unit_name(4));
        "TB"
    }
}

/// Renders a byte count with binary units B, KB, MB, GB, TB and two decimals;
/// counts of 1024^4 and above stay in TB.
pub fn human_readable_size(size: u64) -> (r: String)
    ensures
        r@ == size_text(size as nat),
{
    let (idx, div): (usize, u64) = if size < KIB {
        (0, 1)
    } else if size < MIB {
        (1, KIB)
    } else if size < GIB {
        (2, MIB)
    } else if size < TIB {
        (3, GIB)
    } else {
        (4, TIB)
    };
    assert(div as nat == unit_divisor(idx as nat)) by {
        reveal_with_fuel(unit_divisor, 5);
    }
    let scaled: u128 = size as u128 * 100;
    let d: u128 = div as u128;
    let q: u128 = scaled / d;
    let rem: u128 = scaled % d;
    let h: u128 = if 2 * rem > d || (2 * rem == d && q % 2 == 1) {
        q + 1
    } else {
        q
    };
    assert(h as nat == hundredths(size as nat));
    let mut out = String::new();
    push_decimal(&mut out, h / 100);
    proof { reveal_strlit("."); }
    out.append(".");
    push_digit(&mut out, (h % 100) / 10);
    push_digit(&mut out, (h % 100) % 10);
    proof { reveal_strlit(" "); }
    out.append(" ");
    out.append(unit_str(idx));
    assert(out@ =~= size_text(size as nat));
    out
}

} // verus!
