//! Decimal and hexadecimal rendering of machine integers, and the inverse
//! hex parse. All UI-visible numbers (addresses, register values, sizes)
//! go through these functions, so their contracts pin the exact character
//! sequences produced.

use vstd::prelude::*;

verus! {

/// The lower-case hex digit for a nibble value.
pub open spec fn hex_char_lower(d: int) -> char {
    if d == 0 { '0' } else if d == 1 { '1' } else if d == 2 { '2' }
    else if d == 3 { '3' } else if d == 4 { '4' } else if d == 5 { '5' }
    else if d == 6 { '6' } else if d == 7 { '7' } else if d == 8 { '8' }
    else if d == 9 { '9' } else if d == 10 { 'a' } else if d == 11 { 'b' }
    else if d == 12 { 'c' } else if d == 13 { 'd' } else if d == 14 { 'e' }
    else { 'f' }
}

/// The upper-case hex digit for a nibble value.
pub open spec fn hex_char_upper(d: int) -> char {
    if d == 0 { '0' } else if d == 1 { '1' } else if d == 2 { '2' }
    else if d == 3 { '3' } else if d == 4 { '4' } else if d == 5 { '5' }
    else if d == 6 { '6' } else if d == 7 { '7' } else if d == 8 { '8' }
    else if d == 9 { '9' } else if d == 10 { 'A' } else if d == 11 { 'B' }
    else if d == 12 { 'C' } else if d == 13 { 'D' } else if d == 14 { 'E' }
    else { 'F' }
}

/// The decimal digit for a value below ten.
pub open spec fn dec_char(d: int) -> char {
    if d == 0 { '0' } else if d == 1 { '1' } else if d == 2 { '2' }
    else if d == 3 { '3' } else if d == 4 { '4' } else if d == 5 { '5' }
    else if d == 6 { '6' } else if d == 7 { '7' } else if d == 8 { '8' }
    else { '9' }
}

/// The low `width` nibbles of `v`, most significant first, in lower case.
pub open spec fn hex_seq_fixed_lower(v: nat, width: nat) -> Seq<char>
    decreases width,
{
    if width == 0 {
        Seq::<char>::empty()
    } else {
        hex_seq_fixed_lower(v / 16, (width - 1) as nat) + seq![hex_char_lower((v % 16) as int)]
    }
}

/// `v` in upper-case hex without leading zeroes (a single `0` for zero).
pub open spec fn hex_seq_upper(v: nat) -> Seq<char>
    decreases v,
{
    if v < 16 {
        seq![hex_char_upper(v as int)]
    } else {
        hex_seq_upper(v / 16) + seq![hex_char_upper((v % 16) as int)]
    }
}

/// `v` in lower-case hex without leading zeroes (a single `0` for zero).
pub open spec fn hex_seq_lower(v: nat) -> Seq<char>
    decreases v,
{
    if v < 16 {
        seq![hex_char_lower(v as int)]
    } else {
        hex_seq_lower(v / 16) + seq![hex_char_lower((v % 16) as int)]
    }
}

/// `v` in decimal without leading zeroes (a single `0` for zero).
pub open spec fn dec_seq(v: nat) -> Seq<char>
    decreases v,
{
    if v < 10 {
        seq![dec_char(v as int)]
    } else {
        dec_seq(v / 10) + seq![dec_char((v % 10) as int)]
    }
}

fn hex_digit_str_lower(d: u64) -> (r: &'static str)
    requires
        d < 16,
    ensures
        r@ =~= seq![hex_char_lower(d as int)],
{
    proof {
        reveal_strlit("0"); reveal_strlit("1"); reveal_strlit("2"); reveal_strlit("3");
        reveal_strlit("4"); reveal_strlit("5"); reveal_strlit("6"); reveal_strlit("7");
        reveal_strlit("8"); reveal_strlit("9"); reveal_strlit("a"); reveal_strlit("b");
        reveal_strlit("c"); reveal_strlit("d"); reveal_strlit("e"); reveal_strlit("f");
    }
    match d {
        0 => "0", 1 => "1", 2 => "2", 3 => "3",
        4 => "4", 5 => "5", 6 => "6", 7 => "7",
        8 => "8", 9 => "9", 10 => "a", 11 => "b",
        12 => "c", 13 => "d", 14 => "e", _ => "f",
    }
}

fn hex_digit_str_upper(d: u64) -> (r: &'static str)
    requires
        d < 16,
    ensures
        r@ =~= seq![hex_char_upper(d as int)],
{
    proof {
        reveal_strlit("0"); reveal_strlit("1"); reveal_strlit("2"); reveal_strlit("3");
        reveal_strlit("4"); reveal_strlit("5"); reveal_strlit("6"); reveal_strlit("7");
        reveal_strlit("8"); reveal_strlit("9"); reveal_strlit("A"); reveal_strlit("B");
        reveal_strlit("C"); reveal_strlit("D"); reveal_strlit("E"); reveal_strlit("F");
    }
    match d {
        0 => "0", 1 => "1", 2 => "2", 3 => "3",
        4 => "4", 5 => "5", 6 => "6", 7 => "7",
        8 => "8", 9 => "9", 10 => "A", 11 => "B",
        12 => "C", 13 => "D", 14 => "E", _ => "F",
    }
}

fn dec_digit_str(d: u64) -> (r: &'static str)
    requires
        d < 10,
    ensures
        r@ =~= seq![dec_char(d as int)],
{
    proof {
        reveal_strlit("0"); reveal_strlit("1"); reveal_strlit("2"); reveal_strlit("3");
        reveal_strlit("4"); reveal_strlit("5"); reveal_strlit("6"); reveal_strlit("7");
        reveal_strlit("8"); reveal_strlit("9");
    }
    match d {
        0 => "0", 1 => "1", 2 => "2", 3 => "3",
        4 => "4", 5 => "5", 6 => "6", 7 => "7",
        8 => "8", _ => "9",
    }
}

/// The low `width` nibbles of `v` as a zero-padded lower-case hex string.
pub fn hex_fixed_lower(v: u64, width: u64) -> (r: String)
    ensures
        r@ == hex_seq_fixed_lower(v as nat, width as nat),
    decreases width,
{
    if width == 0 {
        String::new()
    } else {
        let mut r = hex_fixed_lower(v / 16, width - 1);
        r.append(hex_digit_str_lower(v % 16));
        r
    }
}

/// The low `width` nibbles of `v`, most significant first, in upper case.
pub open spec fn hex_seq_fixed_upper(v: nat, width: nat) -> Seq<char>
    decreases width,
{
    if width == 0 {
        Seq::<char>::empty()
    } else {
        hex_seq_fixed_upper(v / 16, (width - 1) as nat) + seq![hex_char_upper((v % 16) as int)]
    }
}

/// The low `width` nibbles of `v` as a zero-padded upper-case hex string.
pub fn hex_fixed_upper(v: u64, width: u64) -> (r: String)
    ensures
        r@ == hex_seq_fixed_upper(v as nat, width as nat),
    decreases width,
{
    if width == 0 {
        String::new()
    } else {
        let mut r = hex_fixed_upper(v / 16, width - 1);
        r.append(hex_digit_str_upper(v % 16));
        r
    }
}

/// `v` as an upper-case hex string without leading zeroes.
pub fn hex_upper(v: u64) -> (r: String)
    ensures
        r@ == hex_seq_upper(v as nat),
    decreases v,
{
    if v < 16 {
        let mut r = String::new();
        r.append(hex_digit_str_upper(v));
        r
    } else {
        let mut r = hex_upper(v / 16);
        r.append(hex_digit_str_upper(v % 16));
        r
    }
}

/// `v` as a lower-case hex string without leading zeroes.
pub fn hex_lower(v: u64) -> (r: String)
    ensures
        r@ == hex_seq_lower(v as nat),
    decreases v,
{
    if v < 16 {
        let mut r = String::new();
        r.append(hex_digit_str_lower(v));
        r
    } else {
        let mut r = hex_lower(v / 16);
        r.append(hex_digit_str_lower(v % 16));
        r
    }
}

/// `v` as a decimal string.
pub fn dec_u64(v: u64) -> (r: String)
    ensures
        r@ == dec_seq(v as nat),
    decreases v,
{
    if v < 10 {
        let mut r = String::new();
        r.append(dec_digit_str(v));
        r
    } else {
        let mut r = dec_u64(v / 10);
        r.append(dec_digit_str(v % 10));
        r
    }
}

/// The value of a hex digit character, either case; `-1` for any other
/// character.
pub open spec fn hex_char_val(c: char) -> int {
    if c == '0' { 0 } else if c == '1' { 1 } else if c == '2' { 2 }
    else if c == '3' { 3 } else if c == '4' { 4 } else if c == '5' { 5 }
    else if c == '6' { 6 } else if c == '7' { 7 } else if c == '8' { 8 }
    else if c == '9' { 9 }
    else if c == 'a' || c == 'A' { 10 } else if c == 'b' || c == 'B' { 11 }
    else if c == 'c' || c == 'C' { 12 } else if c == 'd' || c == 'D' { 13 }
    else if c == 'e' || c == 'E' { 14 } else if c == 'f' || c == 'F' { 15 }
    else { -1 }
}

/// Whether `c` is a hex digit of either case.
pub open spec fn is_hex_digit(c: char) -> bool {
    hex_char_val(c) >= 0
}

/// Whether every character of `s` is a hex digit.
pub open spec fn all_hex_digits(s: Seq<char>) -> bool {
    forall|i: int| 0 <= i < s.len() ==> is_hex_digit(s[i])
}

/// The value of a hex digit string, most significant digit first.
pub open spec fn hex_seq_val(s: Seq<char>) -> int
    decreases s.len(),
{
    if s.len() == 0 {
        0
    } else {
        hex_seq_val(s.drop_last()) * 16 + hex_char_val(s.last())
    }
}

/// `s` without one leading `0x`, if it has one.
pub open spec fn strip_hex_prefix(s: Seq<char>) -> Seq<char> {
    if s.len() >= 2 && s[0] == '0' && s[1] == 'x' {
        s.subrange(2, s.len() as int)
    } else {
        s
    }
}

/// What `parse_hex_u64` returns: the value of the digits after an optional
/// `0x` prefix, or nothing when no digit follows, a character is not a hex
/// digit, or the value does not fit 64 bits.
pub open spec fn spec_parse_hex(s: Seq<char>) -> Option<u64> {
    let body = strip_hex_prefix(s);
    if body.len() > 0 && all_hex_digits(body) && hex_seq_val(body) <= u64::MAX {
        Some(hex_seq_val(body) as u64)
    } else {
        None
    }
}

/// Appending hex digits never lowers the value: the value of `s` is at
/// least the value of its first `i` characters when the rest are digits.
proof fn lemma_hex_val_prefix_le(s: Seq<char>, i: int)
    requires
        0 <= i <= s.len(),
        hex_seq_val(s.subrange(0, i)) >= 0,
        forall|j: int| i <= j < s.len() ==> is_hex_digit(s[j]),
    ensures
        hex_seq_val(s) >= hex_seq_val(s.subrange(0, i)),
    decreases s.len() - i,
{
    if i == s.len() {
        assert(s.subrange(0, i) =~= s);
    } else {
        let t = s.subrange(0, i + 1);
        assert(t.drop_last() =~= s.subrange(0, i));
        assert(t.last() == s[i]);
        assert(hex_seq_val(t) == hex_seq_val(s.subrange(0, i)) * 16 + hex_char_val(s[i]));
        lemma_hex_val_prefix_le(s, i + 1);
    }
}

fn hex_digit_val(c: char) -> (r: Option<u64>)
    ensures
        match r {
            Some(d) => hex_char_val(c) == d && d < 16,
            None => hex_char_val(c) == -1,
        },
{
    match c {
        '0' => Some(0), '1' => Some(1), '2' => Some(2), '3' => Some(3),
        '4' => Some(4), '5' => Some(5), '6' => Some(6), '7' => Some(7),
        '8' => Some(8), '9' => Some(9),
        'a' | 'A' => Some(10), 'b' | 'B' => Some(11), 'c' | 'C' => Some(12),
        'd' | 'D' => Some(13), 'e' | 'E' => Some(14), 'f' | 'F' => Some(15),
        _ => None,
    }
}

/// Parse a hex string with an optional `0x` prefix into a 64-bit value.
pub fn parse_hex_u64(s: &str) -> (r: Option<u64>)
    ensures
        r == spec_parse_hex(s@),
{
    let n = s.unicode_len();
    let start: usize = if n >= 2 && s.get_char(0) == '0' && s.get_char(1) == 'x' {
        2
    } else {
        0
    };
    let ghost body = strip_hex_prefix(s@);
    proof {
        assert(body =~= s@.subrange(start as int, n as int));
    }
    if n == start {
        return None;
    }
    let mut acc: u64 = 0;
    let mut i: usize = start;
    while i < n
        invariant
            start <= i <= n,
            n == s@.len(),
            body == strip_hex_prefix(s@),
            body == s@.subrange(start as int, n as int),
            all_hex_digits(body.subrange(0, i - start)),
            acc == hex_seq_val(body.subrange(0, i - start)),
        decreases n - i,
    {
        let c = s.get_char(i);
        let ghost done = body.subrange(0, i - start);
        let ghost next = body.subrange(0, i + 1 - start);
        proof {
            assert(next.drop_last() =~= done);
            assert(next.last() == s@[i as int]);
        }
        match hex_digit_val(c) {
            None => {
                proof {
                    assert(!is_hex_digit(body[i - start]));
                    assert(!all_hex_digits(body));
                }
                return None;
            },
            Some(d) => {
                if acc >= 0x1000_0000_0000_0000u64 {
                    proof {
                        assert(hex_seq_val(next) == acc * 16 + d);
                        assert(hex_seq_val(next) > u64::MAX);
                        if all_hex_digits(body) {
                            lemma_hex_val_prefix_le(body, i + 1 - start);
                            assert(hex_seq_val(body) > u64::MAX);
                        }
                    }
                    return None;
                }
                acc = acc * 16 + d;
            },
        }
        i = i + 1;
    }
    proof {
        assert(body.subrange(0, n - start) =~= body);
    }
    Some(acc)
}

/// Sixteen raised to `w`.
pub open spec fn pow16(w: nat) -> nat
    decreases w,
{
    if w == 0 {
        1
    } else {
        16 * pow16((w - 1) as nat)
    }
}

/// A fixed-width lower-case rendering of a value that fits the width reads
/// back as the same value, and all its characters are hex digits.
pub proof fn lemma_hex_fixed_reads_back(v: nat, w: nat)
    requires
        v < pow16(w),
    ensures
        hex_seq_fixed_lower(v, w).len() == w,
        all_hex_digits(hex_seq_fixed_lower(v, w)),
        hex_seq_val(hex_seq_fixed_lower(v, w)) == v,
    decreases w,
{
    let s = hex_seq_fixed_lower(v, w);
    if w == 0 {
        assert(v == 0);
    } else {
        let prev = hex_seq_fixed_lower(v / 16, (w - 1) as nat);
        assert(v / 16 < pow16((w - 1) as nat)) by (nonlinear_arith)
            requires
                v < pow16(w),
                pow16(w) == 16 * pow16((w - 1) as nat),
        ;
        lemma_hex_fixed_reads_back(v / 16, (w - 1) as nat);
        let d = (v % 16) as int;
        assert(s.drop_last() =~= prev);
        assert(s.last() == hex_char_lower(d));
        assert(hex_char_val(hex_char_lower(d)) == d);
        assert(hex_seq_val(s) == (v / 16) * 16 + v % 16);
        assert((v / 16) * 16 + v % 16 == v) by (nonlinear_arith);
        assert(forall|i: int| 0 <= i < w - 1 ==> s[i] == prev[i]);
    }
}

/// Decoding the `0x`-prefixed fixed-width hex rendering of any 64-bit value
/// yields the value again.
pub proof fn lemma_address_round_trip(v: u64)
    ensures
        spec_parse_hex("0x"@ + hex_seq_fixed_lower(v as nat, 16)) == Some(v),
{
    reveal_strlit("0x");
    assert(pow16(16) == 0x1_0000_0000_0000_0000) by {
        reveal_with_fuel(pow16, 17);
    }
    assert((v as nat) < pow16(16));
    lemma_hex_fixed_reads_back(v as nat, 16);
    let s = "0x"@ + hex_seq_fixed_lower(v as nat, 16);
    assert(s[0] == '0' && s[1] == 'x');
    assert(strip_hex_prefix(s) =~= hex_seq_fixed_lower(v as nat, 16));
}

/// What `format_bytes` returns: the size scaled to the largest unit it
/// reaches, with one fractional digit (rounding half up) for the scaled
/// units and the plain byte count below one kilobyte.
pub open spec fn spec_format_bytes(bytes: nat) -> Seq<char> {
    let kb: nat = 1024;
    let mb: nat = 1024 * 1024;
    let gb: nat = 1024 * 1024 * 1024;
    if bytes >= gb {
        scaled_tenths_seq(bytes, gb) + " GB"@
    } else if bytes >= mb {
        scaled_tenths_seq(bytes, mb) + " MB"@
    } else if bytes >= kb {
        scaled_tenths_seq(bytes, kb) + " KB"@
    } else {
        dec_seq(bytes) + " B"@
    }
}

/// `bytes / unit` with one fractional digit, rounding half up.
pub open spec fn scaled_tenths_seq(bytes: nat, unit: nat) -> Seq<char>
    recommends unit > 0,
{
    let tenths = (bytes * 10 + unit / 2) / unit;
    dec_seq(tenths / 10) + "."@ + seq![dec_char((tenths % 10) as int)]
}

fn scaled_tenths(bytes: u64, unit: u64) -> (r: String)
    requires
        16 <= unit,
    ensures
        r@ == scaled_tenths_seq(bytes as nat, unit as nat),
{
    let wide: u128 = (bytes as u128) * 10 + (unit / 2) as u128;
    let tenths_wide: u128 = wide / (unit as u128);
    proof {
        assert(wide < 0x10u128 * 0x1_0000_0000_0000_0000u128);
        assert(tenths_wide < 0x1_0000_0000_0000_0000u128) by (nonlinear_arith)
            requires
                tenths_wide == wide / (unit as u128),
                unit >= 16,
                wide < 0x10u128 * 0x1_0000_0000_0000_0000u128,
        ;
    }
    let tenths: u64 = (tenths_wide / 10) as u64;
    let last: u64 = (tenths_wide % 10) as u64;
    let mut r = dec_u64(tenths);
    proof {
        reveal_strlit(".");
    }
    r.append(".");
    r.append(dec_digit_str(last));
    proof {
        assert(r@ =~= scaled_tenths_seq(bytes as nat, unit as nat));
    }
    r
}

/// A byte count in human-readable form: `1.5 KB`, `2.0 MB`, `512 B`.
pub fn format_bytes(bytes: u64) -> (r: String)
    ensures
        r@ == spec_format_bytes(bytes as nat),
{
    let kb: u64 = 1024;
    let mb: u64 = kb * 1024;
    let gb: u64 = mb * 1024;
    proof {
        reveal_strlit(" GB");
        reveal_strlit(" MB");
        reveal_strlit(" KB");
        reveal_strlit(" B");
    }
    if bytes >= gb {
        let mut r = scaled_tenths(bytes, gb);
        r.append(" GB");
        proof { assert(r@ =~= spec_format_bytes(bytes as nat)); }
        r
    } else if bytes >= mb {
        let mut r = scaled_tenths(bytes, mb);
        r.append(" MB");
        proof { assert(r@ =~= spec_format_bytes(bytes as nat)); }
        r
    } else if bytes >= kb {
        let mut r = scaled_tenths(bytes, kb);
        r.append(" KB");
        proof { assert(r@ =~= spec_format_bytes(bytes as nat)); }
        r
    } else {
        let mut r = dec_u64(bytes);
        r.append(" B");
        proof { assert(r@ =~= spec_format_bytes(bytes as nat)); }
        r
    }
}

} // verus!
