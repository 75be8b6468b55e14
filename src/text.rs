//! Text building blocks: decimal and hexadecimal numerals and the textual
//! forms of IPv4 and IPv6 addresses.

use vstd::prelude::*;

verus! {

/// Relies on String::push: appends one character at the end.
#[verifier::external_body]
pub(crate) fn push_char(s: &mut String, c: char)
    ensures
        final(s)@ == old(s)@.push(c),
{
    s.push(c)
}

/// The ASCII character of the digit `d` (0-9, then `A`-`F`, or `a`-`f`).
pub open spec fn digit_char(d: nat, upper: bool) -> char {
    if d < 10 {
        ((d + 48) as u8) as char
    } else if upper {
        ((d + 55) as u8) as char
    } else {
        ((d + 87) as u8) as char
    }
}

/// Decimal numeral of `n`, without leading zeros.
pub open spec fn decimal(n: nat) -> Seq<char>
    decreases n,
{
    if n < 10 {
        seq![digit_char(n, true)]
    } else {
        decimal(n / 10).push(digit_char(n % 10, true))
    }
}

/// Lower-case hexadecimal numeral of `n`, without leading zeros.
pub open spec fn hex_lower(n: nat) -> Seq<char>
    decreases n,
{
    if n < 16 {
        seq![digit_char(n, false)]
    } else {
        hex_lower(n / 16).push(digit_char(n % 16, false))
    }
}

/// Two upper-case hexadecimal digits of a byte.
pub open spec fn hex_byte(b: u8) -> Seq<char> {
    seq![digit_char(b as nat / 16, true), digit_char(b as nat % 16, true)]
}

fn digit(d: u32, upper: bool) -> (c: char)
    requires
        d < 16,
    ensures
        c == digit_char(d as nat, upper),
{
    if d < 10 {
        ((d + 48) as u8) as char
    } else if upper {
        ((d + 55) as u8) as char
    } else {
        ((d + 87) as u8) as char
    }
}

/// Appends the decimal numeral of `n`.
pub fn push_decimal(s: &mut String, n: u32)
    ensures
        final(s)@ == old(s)@ + decimal(n as nat),
    decreases n,
{
    if n < 10 {
        push_char(s, digit(n, true));
        assert(final(s)@ =~= old(s)@ + decimal(n as nat));
    } else {
        push_decimal(s, n / 10);
        push_char(s, digit(n % 10, true));
        assert(final(s)@ =~= old(s)@ + decimal(n as nat));
    }
}

/// Appends the lower-case hexadecimal numeral of `n`.
pub fn push_hex_lower(s: &mut String, n: u32)
    ensures
        final(s)@ == old(s)@ + hex_lower(n as nat),
    decreases n,
{
    if n < 16 {
        push_char(s, digit(n, false));
        assert(final(s)@ =~= old(s)@ + hex_lower(n as nat));
    } else {
        push_hex_lower(s, n / 16);
        push_char(s, digit(n % 16, false));
        assert(final(s)@ =~= old(s)@ + hex_lower(n as nat));
    }
}

/// Appends two upper-case hexadecimal digits of `b`.
pub fn push_hex_byte(s: &mut String, b: u8)
    ensures
        final(s)@ == old(s)@ + hex_byte(b),
{
    push_char(s, digit((b / 16) as u32, true));
    push_char(s, digit((b % 16) as u32, true));
    assert(final(s)@ =~= old(s)@ + hex_byte(b));
}

/// Dotted-quad text of an IPv4 address: four decimal numbers joined by `.`.
pub open spec fn dotted_quad(a: Seq<u8>) -> Seq<char> {
    decimal(a[0] as nat) + seq!['.'] + decimal(a[1] as nat) + seq!['.'] + decimal(a[2] as nat)
        + seq!['.'] + decimal(a[3] as nat)
}

/// The 16-bit group `i` of an IPv6 address.
pub open spec fn hextet(a: Seq<u8>, i: int) -> nat {
    (a[2 * i] as nat) * 256 + a[2 * i + 1] as nat
}

/// Number of consecutive zero groups starting at group `i`.
pub open spec fn zero_run(a: Seq<u8>, i: int) -> nat
    decreases 8 - i,
{
    if i < 0 || i >= 8 || hextet(a, i) != 0 {
        0
    } else {
        1 + zero_run(a, i + 1)
    }
}

/// Start and length of the first longest run of zero groups that starts
/// before group `k`.
pub open spec fn longest_zero_run(a: Seq<u8>, k: nat) -> (int, nat)
    decreases k,
{
    if k == 0 {
        (0, 0)
    } else {
        let best = longest_zero_run(a, (k - 1) as nat);
        if zero_run(a, k - 1) > best.1 {
            (k - 1, zero_run(a, k - 1))
        } else {
            best
        }
    }
}

/// Groups `lo` to `hi - 1`, each in lower-case hex, joined by `:`.
pub open spec fn join_hextets(a: Seq<u8>, lo: int, hi: int) -> Seq<char>
    decreases hi - lo,
{
    if hi <= lo {
        Seq::empty()
    } else if hi == lo + 1 {
        hex_lower(hextet(a, lo))
    } else {
        join_hextets(a, lo, hi - 1) + seq![':'] + hex_lower(hextet(a, hi - 1))
    }
}

/// An IPv4-mapped IPv6 address: five zero groups, then `ffff`.
pub open spec fn ipv4_mapped(a: Seq<u8>) -> bool {
    &&& forall|i: int| 0 <= i < 10 ==> a[i] == 0
    &&& a[10] == 0xff
    &&& a[11] == 0xff
}

/// Text of an IPv6 address: eight hextets joined by `:`, where the first
/// longest run of two or more zero groups is written `::`; an IPv4-mapped
/// address is written `::ffff:` and the dotted quad of its last four bytes.
pub open spec fn colon_hex(a: Seq<u8>) -> Seq<char> {
    let best = longest_zero_run(a, 8);
    if ipv4_mapped(a) {
        seq![':', ':', 'f', 'f', 'f', 'f', ':'] + dotted_quad(a.subrange(12, 16))
    } else if best.1 >= 2 {
        join_hextets(a, 0, best.0) + seq![':', ':'] + join_hextets(a, best.0 + best.1, 8)
    } else {
        join_hextets(a, 0, 8)
    }
}

fn hextet_at(a: &[u8; 16], i: usize) -> (r: u32)
    requires
        i < 8,
    ensures
        r as nat == hextet(a@, i as int),
{
    (a[2 * i] as u32) * 256 + (a[2 * i + 1] as u32)
}

fn zero_run_at(a: &[u8; 16], i: usize) -> (r: usize)
    requires
        i <= 8,
    ensures
        r as nat == zero_run(a@, i as int),
        r <= 8 - i,
    decreases 8 - i,
{
    if i >= 8 || hextet_at(a, i) != 0 {
        0
    } else {
        1 + zero_run_at(a, i + 1)
    }
}

proof fn zero_run_bound(a: Seq<u8>, i: int)
    requires
        0 <= i <= 8,
    ensures
        zero_run(a, i) <= 8 - i,
    decreases 8 - i,
{
    if i < 8 && hextet(a, i) == 0 {
        zero_run_bound(a, i + 1);
    }
}

proof fn longest_zero_run_bound(a: Seq<u8>, k: nat)
    requires
        k <= 8,
    ensures
        0 <= longest_zero_run(a, k).0,
        longest_zero_run(a, k).0 + longest_zero_run(a, k).1 <= 8,
    decreases k,
{
    if k > 0 {
        longest_zero_run_bound(a, (k - 1) as nat);
        zero_run_bound(a, k - 1);
    }
}

/// Appends groups `lo` to `hi - 1`, joined by `:`.
fn push_hextets(s: &mut String, a: &[u8; 16], lo: usize, hi: usize)
    requires
        lo <= hi <= 8,
    ensures
        final(s)@ == old(s)@ + join_hextets(a@, lo as int, hi as int),
{
    let ghost start = s@;
    let mut k: usize = lo;
    while k < hi
        invariant
            lo <= k <= hi,
            hi <= 8,
            s@ == start + join_hextets(a@, lo as int, k as int),
        decreases hi - k,
    {
        if k > lo {
            push_char(s, ':');
        }
        push_hex_lower(s, hextet_at(a, k));
        k = k + 1;
        assert(s@ =~= start + join_hextets(a@, lo as int, k as int));
    }
}

/// Dotted-quad text of an IPv4 address.
pub fn ipv4_text(a: &[u8; 4]) -> (r: String)
    ensures
        r@ == dotted_quad(a@),
{
    let mut s = String::new();
    push_decimal(&mut s, a[0] as u32);
    push_char(&mut s, '.');
    push_decimal(&mut s, a[1] as u32);
    push_char(&mut s, '.');
    push_decimal(&mut s, a[2] as u32);
    push_char(&mut s, '.');
    push_decimal(&mut s, a[3] as u32);
    assert(s@ =~= dotted_quad(a@));
    s
}

/// Text of an IPv6 address, with its longest zero run compressed.
pub fn ipv6_text(a: &[u8; 16]) -> (r: String)
    ensures
        r@ == colon_hex(a@),
{
    let mut s = String::new();
    let mut mapped = a[10] == 0xff && a[11] == 0xff;
    let mut j: usize = 0;
    while j < 10
        invariant
            j <= 10,
            mapped == (a@[10] == 0xff && a@[11] == 0xff && forall|i: int| 0 <= i < j ==> a@[i] == 0),
        decreases 10 - j,
    {
        if a[j] != 0 {
            mapped = false;
        }
        j = j + 1;
    }
    if mapped {
        s.append("::ffff:");
        proof {
            reveal_strlit("::ffff:");
        }
        let v4 = [a[12], a[13], a[14], a[15]];
        assert(v4@ =~= a@.subrange(12, 16));
        let tail = ipv4_text(&v4);
        s.append(tail.as_str());
        assert(s@ =~= colon_hex(a@));
        return s;
    }
    let mut best_start: usize = 0;
    let mut best_len: usize = 0;
    let mut k: usize = 0;
    while k < 8
        invariant
            k <= 8,
            (best_start as int, best_len as nat) == longest_zero_run(a@, k as nat),
        decreases 8 - k,
    {
        let run = zero_run_at(a, k);
        if run > best_len {
            best_start = k;
            best_len = run;
        }
        k = k + 1;
    }
    proof {
        longest_zero_run_bound(a@, 8);
    }
    if best_len >= 2 {
        push_hextets(&mut s, a, 0, best_start);
        push_char(&mut s, ':');
        push_char(&mut s, ':');
        push_hextets(&mut s, a, best_start + best_len, 8);
    } else {
        push_hextets(&mut s, a, 0, 8);
    }
    assert(s@ =~= colon_hex(a@));
    s
}

} // verus!
