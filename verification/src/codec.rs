//! Character-level building blocks of the queue-file records and the
//! control-plane messages: decimal and hexadecimal digits, JSON string
//! escaping, and their parsers.
//!
//! Every encoder is specified by a spec function that gives the exact
//! character sequence produced, and every parser by a spec function that
//! gives the exact outcome on any input; round-trip lemmas tie the two
//! together.
use vstd::prelude::*;

verus! {

// ---------------------------------------------------------------------------
// Decimal digits
// ---------------------------------------------------------------------------
/// The character for one decimal or hexadecimal digit value.
pub open spec fn digit_char(d: nat) -> char
    recommends
        d < 16,
{
    if d == 0 {
        '0'
    } else if d == 1 {
        '1'
    } else if d == 2 {
        '2'
    } else if d == 3 {
        '3'
    } else if d == 4 {
        '4'
    } else if d == 5 {
        '5'
    } else if d == 6 {
        '6'
    } else if d == 7 {
        '7'
    } else if d == 8 {
        '8'
    } else if d == 9 {
        '9'
    } else if d == 10 {
        'a'
    } else if d == 11 {
        'b'
    } else if d == 12 {
        'c'
    } else if d == 13 {
        'd'
    } else if d == 14 {
        'e'
    } else {
        'f'
    }
}

/// Decimal notation of a natural number, most significant digit first.
pub open spec fn dec_nat(n: nat) -> Seq<char>
    decreases n,
{
    if n < 10 {
        seq![digit_char(n)]
    } else {
        dec_nat(n / 10).push(digit_char(n % 10))
    }
}

/// Decimal notation of an integer: a minus sign where it is negative.
pub open spec fn dec_int(v: int) -> Seq<char> {
    if v < 0 {
        seq!['-'] + dec_nat((-v) as nat)
    } else {
        dec_nat(v as nat)
    }
}

/// Hexadecimal notation of `n`, zero-padded to exactly `width` digits.
pub open spec fn hex_fixed(n: nat, width: nat) -> Seq<char>
    decreases width,
{
    if width == 0 {
        Seq::empty()
    } else {
        hex_fixed(n / 16, (width - 1) as nat).push(digit_char(n % 16))
    }
}

/// The hyphenated form of a 128-bit UUID value: five groups of 8, 4, 4, 4 and
/// 12 hexadecimal digits, most significant first.
pub open spec fn uuid_chars(u: u128) -> Seq<char> {
    hex_fixed((u as nat) / 0x1000000000000000000000000, 8) + seq!['-'] + hex_fixed(
        ((u as nat) / 0x100000000000000000000) % 0x10000,
        4,
    ) + seq!['-'] + hex_fixed(((u as nat) / 0x10000000000000000) % 0x10000, 4) + seq!['-']
        + hex_fixed(((u as nat) / 0x1000000000000) % 0x10000, 4) + seq!['-'] + hex_fixed(
        (u as nat) % 0x1000000000000,
        12,
    )
}

/// Whether `c` is a decimal digit.
pub open spec fn is_digit(c: char) -> bool {
    48 <= (c as u32) && (c as u32) <= 57
}

/// The value of a decimal digit character.
pub open spec fn digit_val(c: char) -> nat {
    ((c as u32) - 48) as nat
}

/// Whether `c` is a digit of lowercase hexadecimal notation.
pub open spec fn is_hex_digit(c: char) -> bool {
    is_digit(c) || (97 <= (c as u32) && (c as u32) <= 102)
}

/// The value of a lowercase hexadecimal digit character.
pub open spec fn hex_val(c: char) -> nat {
    if is_digit(c) {
        digit_val(c)
    } else {
        ((c as u32) - 87) as nat
    }
}

/// The digit characters cover exactly the values their spec names give.
pub proof fn lemma_digit_char_val(d: nat)
    requires
        d < 16,
    ensures
        is_hex_digit(digit_char(d)),
        hex_val(digit_char(d)) == d,
        d < 10 ==> is_digit(digit_char(d)),
        d < 10 ==> digit_val(digit_char(d)) == d,
        d >= 10 ==> !is_digit(digit_char(d)),
{
}

/// Every character of a decimal rendering is a digit.
pub proof fn lemma_dec_nat_digits(n: nat)
    ensures
        dec_nat(n).len() >= 1,
        forall|k: int| 0 <= k < dec_nat(n).len() ==> is_digit(#[trigger] dec_nat(n)[k]),
    decreases n,
{
    if n < 10 {
        lemma_digit_char_val(n);
    } else {
        lemma_dec_nat_digits(n / 10);
        lemma_digit_char_val(n % 10);
    }
}

// ---------------------------------------------------------------------------
// JSON string escaping
// ---------------------------------------------------------------------------
/// The escape of one character inside a JSON string: quote and backslash get
/// a backslash, every control character becomes a `\u00XX` sequence, and all
/// other characters stand for themselves.
pub open spec fn esc_char(c: char) -> Seq<char> {
    if c == '"' {
        seq!['\\', '"']
    } else if c == '\\' {
        seq!['\\', '\\']
    } else if (c as u32) < 32 {
        seq!['\\', 'u', '0', '0', digit_char(((c as u32) / 16) as nat), digit_char(
            ((c as u32) % 16) as nat,
        )]
    } else {
        seq![c]
    }
}

/// The escape of a whole character sequence.
pub open spec fn esc_seq(s: Seq<char>) -> Seq<char>
    decreases s.len(),
{
    if s.len() == 0 {
        Seq::empty()
    } else {
        esc_char(s[0]) + esc_seq(s.drop_first())
    }
}

/// A JSON string literal: the escaped content between double quotes.
pub open spec fn json_string(s: Seq<char>) -> Seq<char> {
    seq!['"'] + esc_seq(s) + seq!['"']
}

/// Escaping distributes over appending one character at the end.
pub proof fn lemma_esc_seq_push(s: Seq<char>, c: char)
    ensures
        esc_seq(s.push(c)) == esc_seq(s) + esc_char(c),
    decreases s.len(),
{
    if s.len() == 0 {
        assert(s.push(c).drop_first() =~= Seq::<char>::empty());
        assert(s.push(c)[0] == c);
        assert(esc_seq(s.push(c)) == esc_char(c) + esc_seq(Seq::<char>::empty()));
        assert(esc_char(c) + esc_seq(Seq::<char>::empty()) =~= esc_char(c));
        assert(esc_seq(s) + esc_char(c) =~= esc_char(c));
    } else {
        assert(s.push(c).drop_first() =~= s.drop_first().push(c));
        lemma_esc_seq_push(s.drop_first(), c);
        assert(esc_seq(s.push(c)) =~= esc_char(s[0]) + (esc_seq(s.drop_first()) + esc_char(c)));
        assert(esc_char(s[0]) + (esc_seq(s.drop_first()) + esc_char(c)) =~= (esc_char(s[0])
            + esc_seq(s.drop_first())) + esc_char(c));
    }
}

// ---------------------------------------------------------------------------
// Encoders
// ---------------------------------------------------------------------------
/// The character for a digit value below sixteen.
pub fn digit_to_char(d: u8) -> (r: char)
    requires
        d < 16,
    ensures
        r == digit_char(d as nat),
{
    if d == 0 {
        '0'
    } else if d == 1 {
        '1'
    } else if d == 2 {
        '2'
    } else if d == 3 {
        '3'
    } else if d == 4 {
        '4'
    } else if d == 5 {
        '5'
    } else if d == 6 {
        '6'
    } else if d == 7 {
        '7'
    } else if d == 8 {
        '8'
    } else if d == 9 {
        '9'
    } else if d == 10 {
        'a'
    } else if d == 11 {
        'b'
    } else if d == 12 {
        'c'
    } else if d == 13 {
        'd'
    } else if d == 14 {
        'e'
    } else {
        'f'
    }
}

/// Appends the decimal notation of `n`.
pub fn push_dec_u128(out: &mut Vec<char>, n: u128)
    ensures
        final(out)@ == old(out)@ + dec_nat(n as nat),
    decreases n,
{
    if n < 10 {
        out.push(digit_to_char(n as u8));
        assert(final(out)@ =~= old(out)@ + dec_nat(n as nat));
    } else {
        push_dec_u128(out, n / 10);
        out.push(digit_to_char((n % 10) as u8));
        assert(final(out)@ =~= old(out)@ + dec_nat(n as nat));
    }
}

/// Appends the decimal notation of `v`, sign included.
pub fn push_dec_i128(out: &mut Vec<char>, v: i128)
    ensures
        final(out)@ == old(out)@ + dec_int(v as int),
{
    if v >= 0 {
        push_dec_u128(out, v as u128);
    } else {
        out.push('-');
        let magnitude: u128 = if v == i128::MIN {
            170141183460469231731687303715884105728u128
        } else {
            (-v) as u128
        };
        assert(magnitude as nat == (-(v as int)) as nat);
        push_dec_u128(out, magnitude);
        assert(final(out)@ =~= old(out)@ + dec_int(v as int));
    }
}

/// Appends exactly `width` hexadecimal digits of `n`, zero-padded.
pub fn push_hex_fixed(out: &mut Vec<char>, n: u128, width: usize)
    ensures
        final(out)@ == old(out)@ + hex_fixed(n as nat, width as nat),
    decreases width,
{
    if width > 0 {
        push_hex_fixed(out, n / 16, width - 1);
        out.push(digit_to_char((n % 16) as u8));
        assert(final(out)@ =~= old(out)@ + hex_fixed(n as nat, width as nat));
    } else {
        assert(final(out)@ =~= old(out)@ + hex_fixed(n as nat, 0));
    }
}

/// Appends the hyphenated UUID form of `u`.
pub fn push_uuid(out: &mut Vec<char>, u: u128)
    ensures
        final(out)@ == old(out)@ + uuid_chars(u),
{
    push_hex_fixed(out, u / 0x1000000000000000000000000, 8);
    out.push('-');
    push_hex_fixed(out, (u / 0x100000000000000000000) % 0x10000, 4);
    out.push('-');
    push_hex_fixed(out, (u / 0x10000000000000000) % 0x10000, 4);
    out.push('-');
    push_hex_fixed(out, (u / 0x1000000000000) % 0x10000, 4);
    out.push('-');
    push_hex_fixed(out, u % 0x1000000000000, 12);
    assert(final(out)@ =~= old(out)@ + uuid_chars(u));
}

/// Appends the characters of `lit` unchanged.
pub fn push_lit(out: &mut Vec<char>, lit: &str)
    ensures
        final(out)@ == old(out)@ + lit@,
{
    let n = lit.unicode_len();
    let mut k: usize = 0;
    while k < n
        invariant
            n == lit@.len(),
            k <= n,
            out@ == old(out)@ + lit@.subrange(0, k as int),
        decreases n - k,
    {
        out.push(lit.get_char(k));
        assert(lit@.subrange(0, k + 1 as int) =~= lit@.subrange(0, k as int).push(lit@[k as int]));
        k = k + 1;
    }
    assert(lit@.subrange(0, n as int) =~= lit@);
}

/// Appends one character in its escaped form.
fn push_esc_char(out: &mut Vec<char>, c: char)
    ensures
        final(out)@ == old(out)@ + esc_char(c),
{
    let code = c as u32;
    if c == '"' {
        out.push('\\');
        out.push('"');
        assert(final(out)@ =~= old(out)@ + esc_char(c));
    } else if c == '\\' {
        out.push('\\');
        out.push('\\');
        assert(final(out)@ =~= old(out)@ + esc_char(c));
    } else if code < 32 {
        out.push('\\');
        out.push('u');
        out.push('0');
        out.push('0');
        out.push(digit_to_char((code / 16) as u8));
        out.push(digit_to_char((code % 16) as u8));
        assert(final(out)@ =~= old(out)@ + esc_char(c));
    } else {
        out.push(c);
        assert(final(out)@ =~= old(out)@ + esc_char(c));
    }
}

/// Appends `s` as a JSON string literal, quotes and escapes included.
pub fn push_json_string(out: &mut Vec<char>, s: &str)
    ensures
        final(out)@ == old(out)@ + json_string(s@),
{
    out.push('"');
    let n = s.unicode_len();
    let mut k: usize = 0;
    while k < n
        invariant
            n == s@.len(),
            k <= n,
            out@ == old(out)@ + seq!['"'] + esc_seq(s@.subrange(0, k as int)),
        decreases n - k,
    {
        let c = s.get_char(k);
        push_esc_char(out, c);
        proof {
            lemma_esc_seq_push(s@.subrange(0, k as int), s@[k as int]);
            assert(s@.subrange(0, k + 1 as int) =~= s@.subrange(0, k as int).push(s@[k as int]));
        }
        k = k + 1;
    }
    out.push('"');
    assert(s@.subrange(0, n as int) =~= s@);
    assert(final(out)@ =~= old(out)@ + json_string(s@));
}

} // verus!

verus! {

// ---------------------------------------------------------------------------
// Spec-level parsers
// ---------------------------------------------------------------------------
/// Expects the exact characters of `lit` at position `i`; the position after
/// them on success.
pub open spec fn sp_lit(s: Seq<char>, i: int, lit: Seq<char>) -> Option<int> {
    if 0 <= i && i + lit.len() <= s.len() && s.subrange(i, i + lit.len()) == lit {
        Some(i + lit.len())
    } else {
        None
    }
}

/// The end of the run of decimal digits that starts at `i`.
pub open spec fn digits_end(s: Seq<char>, i: int) -> int
    decreases s.len() - i,
{
    if 0 <= i && i < s.len() && is_digit(s[i]) {
        digits_end(s, i + 1)
    } else {
        i
    }
}

/// The value of the decimal digits from `i` up to `j`.
pub open spec fn digits_val(s: Seq<char>, i: int, j: int) -> nat
    decreases j - i,
{
    if i < j && j <= s.len() {
        digits_val(s, i, j - 1) * 10 + digit_val(s[j - 1])
    } else {
        0
    }
}

/// Parses a run of decimal digits as an unsigned value; fails where no digit
/// stands at `i` or the value exceeds `u128::MAX`.
pub open spec fn sp_u128(s: Seq<char>, i: int) -> Option<(nat, int)> {
    let j = digits_end(s, i);
    if j == i || digits_val(s, i, j) > u128::MAX {
        None
    } else {
        Some((digits_val(s, i, j), j))
    }
}

/// Parses an optionally negated decimal value that fits an `i128`.
pub open spec fn sp_i128(s: Seq<char>, i: int) -> Option<(int, int)> {
    if 0 <= i && i < s.len() && s[i] == '-' {
        match sp_u128(s, i + 1) {
            Some((m, j)) => if m <= 0x80000000000000000000000000000000nat {
                Some((-(m as int), j))
            } else {
                None
            },
            None => None,
        }
    } else {
        match sp_u128(s, i) {
            Some((m, j)) => if m <= i128::MAX {
                Some((m as int, j))
            } else {
                None
            },
            None => None,
        }
    }
}

/// Whether positions `i` up to `j` all hold lowercase hexadecimal digits.
pub open spec fn hex_run_ok(s: Seq<char>, i: int, j: int) -> bool {
    0 <= i && i <= j && j <= s.len() && forall|k: int| i <= k < j ==> is_hex_digit(#[trigger] s[k])
}

/// The value of the hexadecimal digits from `i` up to `j`.
pub open spec fn hex_run_val(s: Seq<char>, i: int, j: int) -> nat
    decreases j - i,
{
    if i < j && j <= s.len() {
        hex_run_val(s, i, j - 1) * 16 + hex_val(s[j - 1])
    } else {
        0
    }
}

/// Parses exactly `w` hexadecimal digits.
pub open spec fn sp_hex_fixed(s: Seq<char>, i: int, w: nat) -> Option<(nat, int)> {
    if hex_run_ok(s, i, i + w) {
        Some((hex_run_val(s, i, i + w), i + w))
    } else {
        None
    }
}

/// Parses the hyphenated UUID form: five fixed-width groups of hexadecimal
/// digits.
pub open spec fn sp_uuid(s: Seq<char>, i: int) -> Option<(u128, int)> {
    match sp_hex_fixed(s, i, 8) {
        Some((g1, i1)) => match sp_lit(s, i1, seq!['-']) {
            Some(i2) => match sp_hex_fixed(s, i2, 4) {
                Some((g2, i3)) => match sp_lit(s, i3, seq!['-']) {
                    Some(i4) => match sp_hex_fixed(s, i4, 4) {
                        Some((g3, i5)) => match sp_lit(s, i5, seq!['-']) {
                            Some(i6) => match sp_hex_fixed(s, i6, 4) {
                                Some((g4, i7)) => match sp_lit(s, i7, seq!['-']) {
                                    Some(i8) => match sp_hex_fixed(s, i8, 12) {
                                        Some((g5, i9)) => Some(
                                            (
                                                

                                                ((((g1 * 0x10000 + g2) * 0x10000 + g3) * 0x10000
                                                    + g4) * 0x1000000000000 + g5) as u128,
                                                i9,
                                            ),
                                        ),
                                        None => None,
                                    },
                                    None => None,
                                },
                                None => None,
                            },
                            None => None,
                        },
                        None => None,
                    },
                    None => None,
                },
                None => None,
            },
            None => None,
        },
        None => None,
    }
}

/// Puts one decoded character in front of a string-body parse.
pub open spec fn sp_prepend(c: char, r: Option<(Seq<char>, int)>) -> Option<(Seq<char>, int)> {
    match r {
        Some((t, j)) => Some((seq![c] + t, j)),
        None => None,
    }
}

/// Parses the body of a JSON string up to and including the closing quote,
/// decoding the escapes the encoder writes as well as the short escapes of
/// standard JSON.
pub open spec fn sp_str_body(s: Seq<char>, i: int) -> Option<(Seq<char>, int)>
    decreases s.len() - i,
{
    if !(0 <= i && i < s.len()) {
        None
    } else if s[i] == '"' {
        Some((Seq::empty(), i + 1))
    } else if s[i] == '\\' {
        if i + 1 < s.len() {
            let e = s[i + 1];
            if e == '"' || e == '\\' || e == '/' {
                sp_prepend(e, sp_str_body(s, i + 2))
            } else if e == 'n' {
                sp_prepend('\n', sp_str_body(s, i + 2))
            } else if e == 't' {
                sp_prepend('\t', sp_str_body(s, i + 2))
            } else if e == 'r' {
                sp_prepend('\r', sp_str_body(s, i + 2))
            } else if e == 'b' {
                sp_prepend('\u{0008}', sp_str_body(s, i + 2))
            } else if e == 'f' {
                sp_prepend('\u{000C}', sp_str_body(s, i + 2))
            } else if e == 'u' {
                if i + 6 <= s.len() && s[i + 2] == '0' && s[i + 3] == '0' && is_hex_digit(s[i + 4])
                    && is_hex_digit(s[i + 5]) {
                    sp_prepend(
                        (((hex_val(s[i + 4]) * 16 + hex_val(s[i + 5])) as u8) as char),
                        sp_str_body(s, i + 6),
                    )
                } else {
                    None
                }
            } else {
                None
            }
        } else {
            None
        }
    } else {
        sp_prepend(s[i], sp_str_body(s, i + 1))
    }
}

/// Parses a complete JSON string literal, opening quote included.
pub open spec fn sp_string(s: Seq<char>, i: int) -> Option<(Seq<char>, int)> {
    if 0 <= i && i < s.len() && s[i] == '"' {
        sp_str_body(s, i + 1)
    } else {
        None
    }
}

// ---------------------------------------------------------------------------
// Sequence splitting helper
// ---------------------------------------------------------------------------
/// A subrange known to equal a concatenation splits into its two halves.
pub proof fn lemma_split_subrange(s: Seq<char>, i: int, a: Seq<char>, b: Seq<char>)
    requires
        0 <= i,
        i + a.len() + b.len() <= s.len(),
        s.subrange(i, i + a.len() + b.len()) == a + b,
    ensures
        s.subrange(i, i + a.len()) == a,
        s.subrange(i + a.len(), i + a.len() + b.len()) == b,
{
    let whole = s.subrange(i, i + a.len() + b.len());
    assert forall|k: int| 0 <= k < a.len() implies s.subrange(i, i + a.len())[k] == a[k] by {
        assert(whole[k] == (a + b)[k]);
    }
    assert(s.subrange(i, i + a.len()) =~= a);
    assert forall|k: int| 0 <= k < b.len() implies s.subrange(
        i + a.len(),
        i + a.len() + b.len(),
    )[k] == b[k] by {
        assert(whole[a.len() + k] == (a + b)[a.len() + k]);
    }
    assert(s.subrange(i + a.len(), i + a.len() + b.len()) =~= b);
}

} // verus!

verus! {

// ---------------------------------------------------------------------------
// Character helpers and string conversion
// ---------------------------------------------------------------------------
/// Whether `c` is a decimal digit.
pub fn char_is_digit(c: char) -> (r: bool)
    ensures
        r == is_digit(c),
{
    let u = c as u32;
    48 <= u && u <= 57
}

/// Whether `c` is a lowercase hexadecimal digit.
pub fn char_is_hex(c: char) -> (r: bool)
    ensures
        r == is_hex_digit(c),
{
    let u = c as u32;
    (48 <= u && u <= 57) || (97 <= u && u <= 102)
}

/// The value of a lowercase hexadecimal digit.
pub fn char_hex_val(c: char) -> (r: u8)
    requires
        is_hex_digit(c),
    ensures
        r as nat == hex_val(c),
        r < 16,
{
    let u = c as u32;
    if u <= 57 {
        (u - 48) as u8
    } else {
        (u - 87) as u8
    }
}

/// Relies on `String`'s `FromIterator` over characters: collecting a vector
/// of characters yields the string of exactly those characters.
#[verifier::external_body]
pub fn chars_to_string(v: &Vec<char>) -> (r: String)
    ensures
        r@ == v@,
{
    v.iter().collect()
}

/// The characters of `s`, in order.
pub fn string_to_chars(s: &str) -> (r: Vec<char>)
    ensures
        r@ == s@,
{
    let n = s.unicode_len();
    let mut v: Vec<char> = Vec::new();
    let mut k: usize = 0;
    while k < n
        invariant
            n == s@.len(),
            k <= n,
            v@ == s@.subrange(0, k as int),
        decreases n - k,
    {
        v.push(s.get_char(k));
        assert(s@.subrange(0, k + 1 as int) =~= s@.subrange(0, k as int).push(s@[k as int]));
        k = k + 1;
    }
    assert(s@.subrange(0, n as int) =~= s@);
    v
}

// ---------------------------------------------------------------------------
// Executable parsers
// ---------------------------------------------------------------------------
/// Expects the characters of `lit` at position `i` of `s`.
pub fn expect_lit(s: &Vec<char>, i: usize, lit: &str) -> (r: Option<usize>)
    ensures
        match r {
            Some(j) => sp_lit(s@, i as int, lit@) == Some(j as int),
            None => sp_lit(s@, i as int, lit@) is None,
        },
{
    let n = lit.unicode_len();
    let slen = s.len();
    if i > slen || n > slen - i {
        return None;
    }
    let mut k: usize = 0;
    while k < n
        invariant
            n == lit@.len(),
            slen == s@.len(),
            i + n <= slen,
            k <= n,
            forall|m: int| 0 <= m < k ==> s@[i + m] == lit@[m],
        decreases n - k,
    {
        if s[i + k] != lit.get_char(k) {
            proof {
                let sub = s@.subrange(i as int, i + n as int);
                assert(sub[k as int] == s@[i + k]);
                assert(sub != lit@);
            }
            return None;
        }
        k = k + 1;
    }
    assert(s@.subrange(i as int, i + n as int) =~= lit@);
    Some(i + n)
}

/// Parses a run of decimal digits as an unsigned value.
pub fn parse_u128(s: &Vec<char>, i: usize) -> (r: Option<(u128, usize)>)
    ensures
        match r {
            Some(p) => sp_u128(s@, i as int) == Some((p.0 as nat, p.1 as int)),
            None => sp_u128(s@, i as int) is None,
        },
{
    let n = s.len();
    if i >= n {
        return None;
    }
    // find the end of the digit run
    let mut j: usize = i;
    while j < n && char_is_digit(s[j])
        invariant
            i <= j <= n,
            n == s@.len(),
            forall|m: int| i <= m < j ==> is_digit(#[trigger] s@[m]),
            digits_end(s@, i as int) == digits_end(s@, j as int),
        decreases n - j,
    {
        j = j + 1;
    }
    assert(digits_end(s@, i as int) == j);
    if j == i {
        return None;
    }
    // accumulate the value, watching for overflow
    let mut val: u128 = 0;
    let mut over: bool = false;
    let mut k: usize = i;
    while k < j
        invariant
            i <= k <= j <= n,
            n == s@.len(),
            forall|m: int| i <= m < j ==> is_digit(#[trigger] s@[m]),
            !over ==> val as nat == digits_val(s@, i as int, k as int),
            over ==> digits_val(s@, i as int, k as int) > u128::MAX,
        decreases j - k,
    {
        let c = s[k];
        let d = ((c as u32) - 48) as u128;
        if !over {
            match val.checked_mul(10) {
                Some(v10) => match v10.checked_add(d) {
                    Some(v) => {
                        val = v;
                    },
                    None => {
                        over = true;
                    },
                },
                None => {
                    over = true;
                },
            }
        }
        k = k + 1;
    }
    if over {
        None
    } else {
        Some((val, j))
    }
}

/// Parses an optionally negated decimal value that fits an `i128`.
pub fn parse_i128(s: &Vec<char>, i: usize) -> (r: Option<(i128, usize)>)
    ensures
        match r {
            Some(p) => sp_i128(s@, i as int) == Some((p.0 as int, p.1 as int)),
            None => sp_i128(s@, i as int) is None,
        },
{
    if i < s.len() && s[i] == '-' {
        match parse_u128(s, i + 1) {
            Some((m, j)) => {
                if m <= 0x80000000000000000000000000000000u128 {
                    let v: i128 = if m == 0x80000000000000000000000000000000u128 {
                        i128::MIN
                    } else {
                        -(m as i128)
                    };
                    assert(v as int == -(m as int));
                    Some((v, j))
                } else {
                    None
                }
            },
            None => None,
        }
    } else {
        match parse_u128(s, i) {
            Some((m, j)) => {
                if m <= 0x7fffffffffffffffffffffffffffffffu128 {
                    Some((m as i128, j))
                } else {
                    None
                }
            },
            None => None,
        }
    }
}

/// Sixteen raised to the power `w`.
pub open spec fn pow16(w: nat) -> nat
    decreases w,
{
    if w == 0 {
        1
    } else {
        16 * pow16((w - 1) as nat)
    }
}

/// A run of hexadecimal digits stays below sixteen to the power of its
/// length.
pub proof fn lemma_hex_run_val_bound(s: Seq<char>, i: int, j: int)
    requires
        hex_run_ok(s, i, j),
    ensures
        hex_run_val(s, i, j) < pow16((j - i) as nat),
    decreases j - i,
{
    if i < j {
        lemma_hex_run_val_bound(s, i, j - 1);
        assert(is_hex_digit(s[j - 1]));
        assert(hex_val(s[j - 1]) < 16);
    }
}

/// Sixteen to a smaller power is no larger.
pub proof fn lemma_pow16_mono(a: nat, b: nat)
    requires
        a <= b,
    ensures
        pow16(a) <= pow16(b),
    decreases b,
{
    if a < b {
        lemma_pow16_mono(a, (b - 1) as nat);
        assert(pow16(b) == 16 * pow16((b - 1) as nat));
    }
}

/// Parses exactly `w` hexadecimal digits.
pub fn parse_hex_fixed(s: &Vec<char>, i: usize, w: usize) -> (r: Option<(u128, usize)>)
    requires
        w <= 12,
    ensures
        match r {
            Some(p) => sp_hex_fixed(s@, i as int, w as nat) == Some((p.0 as nat, p.1 as int))
                && p.0 < pow16(w as nat),
            None => sp_hex_fixed(s@, i as int, w as nat) is None,
        },
{
    proof {
        reveal_with_fuel(pow16, 13);
    }
    let n = s.len();
    if i > n || w > n - i {
        return None;
    }
    let mut val: u128 = 0;
    let mut k: usize = 0;
    while k < w
        invariant
            i + w <= n,
            n == s@.len(),
            k <= w,
            w <= 12,
            hex_run_ok(s@, i as int, i + k),
            val as nat == hex_run_val(s@, i as int, i + k),
            val < pow16(k as nat),
            pow16(12) == 0x1000000000000,
        decreases w - k,
    {
        let c = s[i + k];
        if !char_is_hex(c) {
            assert(!hex_run_ok(s@, i as int, i + w as int));
            return None;
        }
        let d = char_hex_val(c);
        proof {
            lemma_pow16_mono((k + 1) as nat, 12);
            assert(pow16((k + 1) as nat) == 16 * pow16(k as nat));
            assert(val * 16 < pow16(k as nat) * 16);
        }
        val = val * 16 + (d as u128);
        assert(hex_run_ok(s@, i as int, i + k + 1));
        k = k + 1;
    }
    Some((val, i + w))
}

} // verus!

verus! {

/// Parses the hyphenated UUID form.
pub fn parse_uuid(s: &Vec<char>, i: usize) -> (r: Option<(u128, usize)>)
    ensures
        match r {
            Some(p) => sp_uuid(s@, i as int) == Some((p.0, p.1 as int)),
            None => sp_uuid(s@, i as int) is None,
        },
{
    proof {
        reveal_with_fuel(pow16, 13);
        reveal_strlit("-");
        assert("-"@ =~= seq!['-']);
    }
    let (g1, i1) = match parse_hex_fixed(s, i, 8) {
        Some(p) => p,
        None => {
            return None;
        },
    };
    let i2 = match expect_lit(s, i1, "-") {
        Some(j) => j,
        None => {
            return None;
        },
    };
    let (g2, i3) = match parse_hex_fixed(s, i2, 4) {
        Some(p) => p,
        None => {
            return None;
        },
    };
    let i4 = match expect_lit(s, i3, "-") {
        Some(j) => j,
        None => {
            return None;
        },
    };
    let (g3, i5) = match parse_hex_fixed(s, i4, 4) {
        Some(p) => p,
        None => {
            return None;
        },
    };
    let i6 = match expect_lit(s, i5, "-") {
        Some(j) => j,
        None => {
            return None;
        },
    };
    let (g4, i7) = match parse_hex_fixed(s, i6, 4) {
        Some(p) => p,
        None => {
            return None;
        },
    };
    let i8 = match expect_lit(s, i7, "-") {
        Some(j) => j,
        None => {
            return None;
        },
    };
    let (g5, i9) = match parse_hex_fixed(s, i8, 12) {
        Some(p) => p,
        None => {
            return None;
        },
    };
    let v: u128 = (((g1 * 0x10000 + g2) * 0x10000 + g3) * 0x10000 + g4) * 0x1000000000000 + g5;
    Some((v, i9))
}

/// Maps a parsed string-body tail onto an already decoded prefix.
pub open spec fn sp_prepend_seq(pre: Seq<char>, r: Option<(Seq<char>, int)>) -> Option<
    (Seq<char>, int),
> {
    match r {
        Some((t, j)) => Some((pre + t, j)),
        None => None,
    }
}

/// Prepending a decoded character one at a time agrees with prepending it to
/// the prefix.
proof fn lemma_prepend_seq_shift(pre: Seq<char>, c: char, r: Option<(Seq<char>, int)>)
    ensures
        sp_prepend_seq(pre, sp_prepend(c, r)) == sp_prepend_seq(pre.push(c), r),
{
    match r {
        Some((t, j)) => {
            assert(pre + (seq![c] + t) =~= pre.push(c) + t);
        },
        None => {},
    }
}

/// Parses a complete JSON string literal into its decoded characters.
pub fn parse_json_string(s: &Vec<char>, i: usize) -> (r: Option<(Vec<char>, usize)>)
    ensures
        match r {
            Some(p) => sp_string(s@, i as int) == Some((p.0@, p.1 as int)),
            None => sp_string(s@, i as int) is None,
        },
{
    let n = s.len();
    if i >= n || s[i] != '"' {
        return None;
    }
    let mut acc: Vec<char> = Vec::new();
    let mut k: usize = i + 1;
    proof {
        let r = sp_str_body(s@, i + 1 as int);
        match r {
            Some((t, j)) => {
                assert(Seq::<char>::empty() + t =~= t);
            },
            None => {},
        }
    }
    loop
        invariant
            i + 1 <= k <= n,
            n == s@.len(),
            s@[i as int] == '"',
            sp_str_body(s@, i + 1 as int) == sp_prepend_seq(acc@, sp_str_body(s@, k as int)),
        decreases n - k,
    {
        if k >= n {
            return None;
        }
        let c = s[k];
        if c == '"' {
            assert(sp_str_body(s@, k as int) == Some((Seq::<char>::empty(), k + 1 as int)));
            assert(acc@ + Seq::<char>::empty() =~= acc@);
            return Some((acc, k + 1));
        }
        if c != '\\' {
            proof {
                lemma_prepend_seq_shift(acc@, c, sp_str_body(s@, k + 1 as int));
            }
            acc.push(c);
            k = k + 1;
        } else {
            if k + 1 >= n {
                return None;
            }
            let e = s[k + 1];
            if e == '"' || e == '\\' || e == '/' {
                proof {
                    lemma_prepend_seq_shift(acc@, e, sp_str_body(s@, k + 2 as int));
                }
                acc.push(e);
                k = k + 2;
            } else if e == 'n' {
                proof {
                    lemma_prepend_seq_shift(acc@, '\n', sp_str_body(s@, k + 2 as int));
                }
                acc.push('\n');
                k = k + 2;
            } else if e == 't' {
                proof {
                    lemma_prepend_seq_shift(acc@, '\t', sp_str_body(s@, k + 2 as int));
                }
                acc.push('\t');
                k = k + 2;
            } else if e == 'r' {
                proof {
                    lemma_prepend_seq_shift(acc@, '\r', sp_str_body(s@, k + 2 as int));
                }
                acc.push('\r');
                k = k + 2;
            } else if e == 'b' {
                proof {
                    lemma_prepend_seq_shift(acc@, '\u{0008}', sp_str_body(s@, k + 2 as int));
                }
                acc.push('\u{0008}');
                k = k + 2;
            } else if e == 'f' {
                proof {
                    lemma_prepend_seq_shift(acc@, '\u{000C}', sp_str_body(s@, k + 2 as int));
                }
                acc.push('\u{000C}');
                k = k + 2;
            } else if e == 'u' {
                if n - k < 6 {
                    return None;
                }
                if s[k + 2] != '0' || s[k + 3] != '0' {
                    return None;
                }
                let h1 = s[k + 4];
                let h2 = s[k + 5];
                if !char_is_hex(h1) || !char_is_hex(h2) {
                    return None;
                }
                let v: u8 = char_hex_val(h1) * 16 + char_hex_val(h2);
                let d: char = v as char;
                proof {
                    lemma_prepend_seq_shift(acc@, d, sp_str_body(s@, k + 6 as int));
                }
                acc.push(d);
                k = k + 6;
            } else {
                return None;
            }
        }
    }
}

} // verus!

verus! {

// ---------------------------------------------------------------------------
// Round-trip lemmas: parsing what the encoders wrote gives the value back
// ---------------------------------------------------------------------------
/// A digit run bounded by a non-digit (or the end) is scanned exactly to its
/// end.
proof fn lemma_digits_end_of_run(s: Seq<char>, i: int, j: int)
    requires
        0 <= i <= j <= s.len(),
        forall|k: int| i <= k < j ==> is_digit(#[trigger] s[k]),
        j == s.len() || !is_digit(s[j]),
    ensures
        digits_end(s, i) == j,
    decreases j - i,
{
    if i < j {
        lemma_digits_end_of_run(s, i + 1, j);
    }
}

/// The value of a written decimal number is read back.
proof fn lemma_digits_val_of_dec(n: nat, s: Seq<char>, i: int)
    requires
        0 <= i,
        i + dec_nat(n).len() <= s.len(),
        s.subrange(i, i + dec_nat(n).len()) == dec_nat(n),
    ensures
        digits_val(s, i, i + dec_nat(n).len()) == n,
    decreases n,
{
    let d = dec_nat(n);
    if n < 10 {
        assert(s.subrange(i, i + 1)[0] == s[i]);
        assert(s[i] == d[0]);
        lemma_digit_char_val(n);
        assert(digits_val(s, i, i) == 0);
        assert(digits_val(s, i, i + 1) == digits_val(s, i, i) * 10 + digit_val(s[i]));
    } else {
        let head = dec_nat(n / 10);
        assert(d =~= head + seq![digit_char(n % 10)]);
        lemma_split_subrange(s, i, head, seq![digit_char(n % 10)]);
        lemma_digits_val_of_dec(n / 10, s, i);
        assert(s.subrange(i + head.len(), i + head.len() + 1)[0] == s[i + head.len()]);
        assert(s[i + head.len()] == digit_char(n % 10));
        lemma_digit_char_val(n % 10);
        assert(digits_val(s, i, i + d.len()) == digits_val(s, i, i + head.len()) * 10 + digit_val(
            s[i + head.len()],
        ));
    }
}

/// Parsing right after a written unsigned decimal number, where the next
/// character is no digit, yields the number.
pub proof fn lemma_rt_u128(n: nat, s: Seq<char>, i: int)
    requires
        n <= u128::MAX,
        0 <= i,
        i + dec_nat(n).len() <= s.len(),
        s.subrange(i, i + dec_nat(n).len()) == dec_nat(n),
        i + dec_nat(n).len() == s.len() || !is_digit(s[i + dec_nat(n).len()]),
    ensures
        sp_u128(s, i) == Some((n, i + dec_nat(n).len())),
{
    let d = dec_nat(n);
    lemma_dec_nat_digits(n);
    assert forall|k: int| i <= k < i + d.len() implies is_digit(#[trigger] s[k]) by {
        assert(s.subrange(i, i + d.len())[k - i] == s[k]);
        assert(is_digit(d[k - i]));
    }
    lemma_digits_end_of_run(s, i, i + d.len());
    lemma_digits_val_of_dec(n, s, i);
}

/// Parsing right after a written signed decimal number yields the number.
pub proof fn lemma_rt_i128(v: int, s: Seq<char>, i: int)
    requires
        i128::MIN <= v <= i128::MAX,
        0 <= i,
        i + dec_int(v).len() <= s.len(),
        s.subrange(i, i + dec_int(v).len()) == dec_int(v),
        i + dec_int(v).len() == s.len() || !is_digit(s[i + dec_int(v).len()]),
    ensures
        sp_i128(s, i) == Some((v, i + dec_int(v).len())),
{
    if v >= 0 {
        lemma_rt_u128(v as nat, s, i);
        lemma_dec_nat_digits(v as nat);
        assert(s[i] == dec_nat(v as nat)[0]) by {
            assert(s.subrange(i, i + dec_int(v).len())[0] == s[i]);
        }
        assert(is_digit(s[i]));
        assert(s[i] != '-') by {
            assert('-' as u32 == 45);
        }
    } else {
        let m = (-v) as nat;
        assert(dec_int(v) =~= seq!['-'] + dec_nat(m));
        lemma_split_subrange(s, i, seq!['-'], dec_nat(m));
        assert(s[i] == '-') by {
            assert(s.subrange(i, i + 1)[0] == s[i]);
        }
        lemma_rt_u128(m, s, i + 1);
        assert(m <= 0x80000000000000000000000000000000nat);
    }
}

/// A fixed-width hexadecimal rendering has that width, and all its characters
/// are hexadecimal digits.
proof fn lemma_hex_fixed_props(n: nat, w: nat)
    ensures
        hex_fixed(n, w).len() == w,
        forall|k: int| 0 <= k < w ==> is_hex_digit(#[trigger] hex_fixed(n, w)[k]),
    decreases w,
{
    if w > 0 {
        lemma_hex_fixed_props(n / 16, (w - 1) as nat);
        lemma_digit_char_val(n % 16);
    }
}

/// Parsing right after a written fixed-width hexadecimal group yields the
/// value.
pub proof fn lemma_rt_hex_fixed(n: nat, w: nat, s: Seq<char>, i: int)
    requires
        n < pow16(w),
        0 <= i,
        i + w <= s.len(),
        s.subrange(i, i + w) == hex_fixed(n, w),
    ensures
        sp_hex_fixed(s, i, w) == Some((n, i + w)),
    decreases w,
{
    lemma_hex_fixed_props(n, w);
    if w == 0 {
        assert(hex_run_ok(s, i, i));
        assert(hex_run_val(s, i, i) == 0);
    } else {
        let head = hex_fixed(n / 16, (w - 1) as nat);
        lemma_hex_fixed_props(n / 16, (w - 1) as nat);
        assert(hex_fixed(n, w) =~= head + seq![digit_char(n % 16)]);
        lemma_split_subrange(s, i, head, seq![digit_char(n % 16)]);
        assert(n / 16 < pow16((w - 1) as nat)) by {
            assert(pow16(w) == 16 * pow16((w - 1) as nat));
        }
        lemma_rt_hex_fixed(n / 16, (w - 1) as nat, s, i);
        assert(s[i + w - 1] == digit_char(n % 16)) by {
            assert(s.subrange(i + w - 1, i + w)[0] == s[i + w - 1]);
        }
        lemma_digit_char_val(n % 16);
        assert(hex_run_ok(s, i, i + w));
        assert(hex_run_val(s, i, i + w) == hex_run_val(s, i, i + w - 1) * 16 + hex_val(s[i + w
            - 1]));
    }
}

/// The hyphenated UUID rendering is 36 characters long.
pub proof fn lemma_uuid_chars_len(u: u128)
    ensures
        uuid_chars(u).len() == 36,
{
    lemma_hex_fixed_props((u as nat) / 0x1000000000000000000000000, 8);
    lemma_hex_fixed_props(((u as nat) / 0x100000000000000000000) % 0x10000, 4);
    lemma_hex_fixed_props(((u as nat) / 0x10000000000000000) % 0x10000, 4);
    lemma_hex_fixed_props(((u as nat) / 0x1000000000000) % 0x10000, 4);
    lemma_hex_fixed_props((u as nat) % 0x1000000000000, 12);
}

/// Parsing right after a written UUID yields the value.
#[verifier::rlimit(100)]
pub proof fn lemma_rt_uuid(u: u128, s: Seq<char>, i: int)
    requires
        0 <= i,
        i + 36 <= s.len(),
        s.subrange(i, i + 36) == uuid_chars(u),
    ensures
        sp_uuid(s, i) == Some((u, i + 36)),
{
    reveal_with_fuel(pow16, 13);
    let g1 = (u as nat) / 0x1000000000000000000000000;
    let g2 = ((u as nat) / 0x100000000000000000000) % 0x10000;
    let g3 = ((u as nat) / 0x10000000000000000) % 0x10000;
    let g4 = ((u as nat) / 0x1000000000000) % 0x10000;
    let g5 = (u as nat) % 0x1000000000000;
    lemma_hex_fixed_props(g1, 8);
    lemma_hex_fixed_props(g2, 4);
    lemma_hex_fixed_props(g3, 4);
    lemma_hex_fixed_props(g4, 4);
    lemma_hex_fixed_props(g5, 12);
    let h = seq!['-'];
    let w = s.subrange(i, i + 36);
    // cut the written form at the positions of the five groups
    assert(s.subrange(i, i + 8) =~= hex_fixed(g1, 8)) by {
        assert forall|k: int| 0 <= k < 8 implies s.subrange(i, i + 8)[k] == hex_fixed(g1, 8)[k] by {
            assert(s.subrange(i, i + 8)[k] == w[k]);
            assert(w[k] == hex_fixed(g1, 8)[k]);
        }
    }
    assert(s.subrange(i + 9, i + 13) =~= hex_fixed(g2, 4)) by {
        assert forall|k: int| 0 <= k < 4 implies s.subrange(i + 9, i + 13)[k] == hex_fixed(
            g2,
            4,
        )[k] by {
            assert(s.subrange(i + 9, i + 13)[k] == w[9 + k]);
            assert(w[9 + k] == hex_fixed(g2, 4)[k]);
        }
    }
    assert(s.subrange(i + 14, i + 18) =~= hex_fixed(g3, 4)) by {
        assert forall|k: int| 0 <= k < 4 implies s.subrange(i + 14, i + 18)[k] == hex_fixed(
            g3,
            4,
        )[k] by {
            assert(s.subrange(i + 14, i + 18)[k] == w[14 + k]);
            assert(w[14 + k] == hex_fixed(g3, 4)[k]);
        }
    }
    assert(s.subrange(i + 19, i + 23) =~= hex_fixed(g4, 4)) by {
        assert forall|k: int| 0 <= k < 4 implies s.subrange(i + 19, i + 23)[k] == hex_fixed(
            g4,
            4,
        )[k] by {
            assert(s.subrange(i + 19, i + 23)[k] == w[19 + k]);
            assert(w[19 + k] == hex_fixed(g4, 4)[k]);
        }
    }
    assert(s.subrange(i + 24, i + 36) =~= hex_fixed(g5, 12)) by {
        assert forall|k: int| 0 <= k < 12 implies s.subrange(i + 24, i + 36)[k] == hex_fixed(
            g5,
            12,
        )[k] by {
            assert(s.subrange(i + 24, i + 36)[k] == w[24 + k]);
            assert(w[24 + k] == hex_fixed(g5, 12)[k]);
        }
    }
    // the hyphens stand between the groups
    assert(s.subrange(i + 8, i + 9) =~= h) by {
        assert(s.subrange(i + 8, i + 9)[0] == w[8]);
    }
    assert(s.subrange(i + 13, i + 14) =~= h) by {
        assert(s.subrange(i + 13, i + 14)[0] == w[13]);
    }
    assert(s.subrange(i + 18, i + 19) =~= h) by {
        assert(s.subrange(i + 18, i + 19)[0] == w[18]);
    }
    assert(s.subrange(i + 23, i + 24) =~= h) by {
        assert(s.subrange(i + 23, i + 24)[0] == w[23]);
    }
    // each group parses back
    assert(g1 < pow16(8));
    assert(g2 < pow16(4));
    assert(g3 < pow16(4));
    assert(g4 < pow16(4));
    assert(g5 < pow16(12));
    lemma_rt_hex_fixed(g1, 8, s, i);
    lemma_rt_hex_fixed(g2, 4, s, i + 9);
    lemma_rt_hex_fixed(g3, 4, s, i + 14);
    lemma_rt_hex_fixed(g4, 4, s, i + 19);
    lemma_rt_hex_fixed(g5, 12, s, i + 24);
    // the hyphens parse back
    assert(sp_lit(s, i + 8, h) == Some(i + 9));
    assert(sp_lit(s, i + 13, h) == Some(i + 14));
    assert(sp_lit(s, i + 18, h) == Some(i + 19));
    assert(sp_lit(s, i + 23, h) == Some(i + 24));
    // recombining the groups gives the original value
    assert((((g1 * 0x10000 + g2) * 0x10000 + g3) * 0x10000 + g4) * 0x1000000000000 + g5 == u
        as nat) by {
        let un = u as int;
        let a = un / 0x1000000000000;
        let b = un / 0x10000000000000000;
        let c = un / 0x100000000000000000000;
        vstd::arithmetic::div_mod::lemma_fundamental_div_mod(un, 0x1000000000000);
        assert(un == 0x1000000000000 * a + g5);
        vstd::arithmetic::div_mod::lemma_div_denominator(un, 0x1000000000000, 0x10000);
        assert(a / 0x10000 == b);
        vstd::arithmetic::div_mod::lemma_fundamental_div_mod(a, 0x10000);
        assert(a == 0x10000 * b + g4);
        vstd::arithmetic::div_mod::lemma_div_denominator(un, 0x10000000000000000, 0x10000);
        assert(b / 0x10000 == c);
        vstd::arithmetic::div_mod::lemma_fundamental_div_mod(b, 0x10000);
        assert(b == 0x10000 * c + g3);
        vstd::arithmetic::div_mod::lemma_div_denominator(un, 0x100000000000000000000, 0x10000);
        assert(c / 0x10000 == g1);
        vstd::arithmetic::div_mod::lemma_fundamental_div_mod(c, 0x10000);
        assert(c == 0x10000 * g1 + g2);
    }
}

} // verus!

verus! {

/// Parsing a string body right after an escaped text and its closing quote
/// yields the text back.
pub proof fn lemma_rt_str_body(t: Seq<char>, s: Seq<char>, i: int)
    requires
        0 <= i,
        i + esc_seq(t).len() + 1 <= s.len(),
        s.subrange(i, i + esc_seq(t).len() + 1) == esc_seq(t) + seq!['"'],
    ensures
        sp_str_body(s, i) == Some((t, i + esc_seq(t).len() + 1)),
    decreases t.len(),
{
    let e = esc_seq(t);
    let w = s.subrange(i, i + e.len() + 1);
    if t.len() == 0 {
        assert(s[i] == '"') by {
            assert(w[0] == s[i]);
        }
        assert(sp_str_body(s, i) == Some((Seq::<char>::empty(), i + 1)));
        assert(t =~= Seq::<char>::empty());
    } else {
        let c = t[0];
        let rest = t.drop_first();
        let ec = esc_char(c);
        assert(e == ec + esc_seq(rest));
        // the remainder, after this character's escape, still ends in a quote
        assert(s.subrange(i + ec.len(), i + e.len() + 1) =~= esc_seq(rest) + seq!['"']) by {
            assert forall|k: int| 0 <= k < esc_seq(rest).len() + 1 implies s.subrange(
                i + ec.len(),
                i + e.len() + 1,
            )[k] == (esc_seq(rest) + seq!['"'])[k] by {
                assert(w[ec.len() + k] == s[i + ec.len() + k]);
                assert((e + seq!['"'])[ec.len() + k] == (esc_seq(rest) + seq!['"'])[k]);
            }
        }
        lemma_rt_str_body(rest, s, i + ec.len());
        assert(seq![c] + rest =~= t);
        if c == '"' {
            assert(s[i] == '\\' && s[i + 1] == '"') by {
                assert(w[0] == s[i] && w[1] == s[i + 1]);
            }
            assert(sp_str_body(s, i) == sp_prepend('"', sp_str_body(s, i + 2)));
        } else if c == '\\' {
            assert(s[i] == '\\' && s[i + 1] == '\\') by {
                assert(w[0] == s[i] && w[1] == s[i + 1]);
            }
            assert(sp_str_body(s, i) == sp_prepend('\\', sp_str_body(s, i + 2)));
        } else if (c as u32) < 32 {
            let hi = ((c as u32) / 16) as nat;
            let lo = ((c as u32) % 16) as nat;
            assert(s[i] == '\\' && s[i + 1] == 'u' && s[i + 2] == '0' && s[i + 3] == '0' && s[i + 4]
                == digit_char(hi) && s[i + 5] == digit_char(lo)) by {
                assert(w[0] == s[i] && w[1] == s[i + 1] && w[2] == s[i + 2] && w[3] == s[i + 3]
                    && w[4] == s[i + 4] && w[5] == s[i + 5]);
            }
            lemma_digit_char_val(hi);
            lemma_digit_char_val(lo);
            let code = c as u32;
            let v = hex_val(s[i + 4]) * 16 + hex_val(s[i + 5]);
            assert(v == code);
            let decoded = (v as u8) as char;
            assert((v as u8) as u32 == code);
            assert(decoded as u32 == code);
            vstd::utf8::char_u32_cast(decoded, code);
            vstd::utf8::char_u32_cast(c, code);
            assert(decoded == c);
            assert(sp_str_body(s, i) == sp_prepend(c, sp_str_body(s, i + 6)));
        } else {
            assert(s[i] == c) by {
                assert(w[0] == s[i]);
            }
            assert(sp_str_body(s, i) == sp_prepend(c, sp_str_body(s, i + 1)));
        }
    }
}

/// Parsing right after a written JSON string literal yields the text back.
pub proof fn lemma_rt_string(t: Seq<char>, s: Seq<char>, i: int)
    requires
        0 <= i,
        i + json_string(t).len() <= s.len(),
        s.subrange(i, i + json_string(t).len()) == json_string(t),
    ensures
        sp_string(s, i) == Some((t, i + json_string(t).len())),
{
    let w = s.subrange(i, i + json_string(t).len());
    assert(s[i] == '"') by {
        assert(w[0] == s[i]);
    }
    assert(s.subrange(i + 1, i + 1 + esc_seq(t).len() + 1) =~= esc_seq(t) + seq!['"']) by {
        assert forall|k: int| 0 <= k < esc_seq(t).len() + 1 implies s.subrange(
            i + 1,
            i + 1 + esc_seq(t).len() + 1,
        )[k] == (esc_seq(t) + seq!['"'])[k] by {
            assert(w[1 + k] == s[i + 1 + k]);
            assert(w[1 + k] == (seq!['"'] + (esc_seq(t) + seq!['"']))[1 + k]);
            assert(json_string(t) =~= seq!['"'] + (esc_seq(t) + seq!['"']));
        }
    }
    lemma_rt_str_body(t, s, i + 1);
}

} // verus!

verus! {

/// Concatenation is associative.
pub proof fn lemma_concat_shift(a: Seq<char>, b: Seq<char>, c: Seq<char>)
    ensures
        (a + b) + c == a + (b + c),
{
    assert((a + b) + c =~= a + (b + c));
}

} // verus!

verus! {

/// Whether two texts hold exactly the same characters.
pub fn str_eq(a: &str, b: &str) -> (r: bool)
    ensures
        r == (a@ == b@),
{
    let n = a.unicode_len();
    let m = b.unicode_len();
    if n != m {
        return false;
    }
    let mut k: usize = 0;
    while k < n
        invariant
            n == a@.len(),
            n == b@.len(),
            k <= n,
            forall|j: int| 0 <= j < k ==> a@[j] == b@[j],
        decreases n - k,
    {
        if a.get_char(k) != b.get_char(k) {
            return false;
        }
        k = k + 1;
    }
    assert(a@ =~= b@);
    true
}

} // verus!
