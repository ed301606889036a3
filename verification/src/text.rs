//! Verified helpers for exact string comparison and decimal parsing.
//!
//! Everything here works on the character level, so the contracts can speak
//! about `Seq<char>` views directly.

use vstd::prelude::*;
use vstd::string::StrSliceExecFns;

verus! {

/// Exact content equality of two string slices.
pub fn str_eq(a: &str, b: &str) -> (r: bool)
    ensures
        r == (a@ == b@),
{
    let alen = a.unicode_len();
    let blen = b.unicode_len();
    if alen != blen {
        return false;
    }
    let mut i: usize = 0;
    while i < alen
        invariant
            alen == a@.len(),
            blen == b@.len(),
            alen == blen,
            i <= alen,
            forall|j: int| 0 <= j < i ==> a@[j] == b@[j],
        decreases alen - i,
    {
        if a.get_char(i) != b.get_char(i) {
            return false;
        }
        i = i + 1;
    }
    proof {
        assert(a@ =~= b@);
    }
    true
}

// ---------------------------------------------------------------------
// Character classes and digit values
// ---------------------------------------------------------------------

/// ASCII whitespace.
pub open spec fn is_ws(c: char) -> bool {
    c == ' ' || c == '\t' || c == '\n' || c == '\r'
}

/// Decimal digit value, `-1` for non-digits.
pub open spec fn digit_val(c: char) -> int {
    match c {
        '0' => 0,
        '1' => 1,
        '2' => 2,
        '3' => 3,
        '4' => 4,
        '5' => 5,
        '6' => 6,
        '7' => 7,
        '8' => 8,
        '9' => 9,
        _ => -1,
    }
}

/// Every character is a decimal digit.
pub open spec fn all_digits(s: Seq<char>) -> bool {
    forall|i: int| 0 <= i < s.len() ==> digit_val(#[trigger] s[i]) >= 0
}

/// The value of a digit string read in base 10.
pub open spec fn seq_val(s: Seq<char>) -> int
    decreases s.len(),
{
    if s.len() == 0 {
        0
    } else {
        seq_val(s.drop_last()) * 10 + digit_val(s.last())
    }
}

/// Decimal digit value, executable; `-1` for non-digits.
fn digit_of(c: char) -> (r: i8)
    ensures
        r as int == digit_val(c),
{
    match c {
        '0' => 0,
        '1' => 1,
        '2' => 2,
        '3' => 3,
        '4' => 4,
        '5' => 5,
        '6' => 6,
        '7' => 7,
        '8' => 8,
        '9' => 9,
        _ => -1,
    }
}

/// A digit string's value is never negative.
proof fn lemma_seq_val_nonneg(s: Seq<char>)
    requires
        all_digits(s),
    ensures
        seq_val(s) >= 0,
    decreases s.len(),
{
    if s.len() > 0 {
        assert(all_digits(s.drop_last()));
        lemma_seq_val_nonneg(s.drop_last());
    }
}

// ---------------------------------------------------------------------
// Trimming and searching
// ---------------------------------------------------------------------

/// First index `>= i` that is not ASCII whitespace (or the length).
pub open spec fn skip_ws_from(s: Seq<char>, i: int) -> int
    decreases s.len() - i,
{
    if i < 0 || i >= s.len() {
        i
    } else if is_ws(s[i]) {
        skip_ws_from(s, i + 1)
    } else {
        i
    }
}

/// Last index `<= j` such that everything from it on is whitespace.
pub open spec fn rskip_ws_from(s: Seq<char>, j: int) -> int
    decreases j,
{
    if j <= 0 {
        0
    } else if is_ws(s[j - 1]) {
        rskip_ws_from(s, j - 1)
    } else {
        j
    }
}

/// The input with leading and trailing ASCII whitespace removed.
pub open spec fn trim_spec(s: Seq<char>) -> Seq<char> {
    let a = skip_ws_from(s, 0);
    let b = rskip_ws_from(s, s.len() as int);
    if a <= b {
        s.subrange(a, b)
    } else {
        Seq::empty()
    }
}

/// Whether the character at index `i` is ASCII whitespace.
fn at_blank(s: &str, i: usize) -> (r: bool)
    requires
        i < s@.len(),
    ensures
        r == is_ws(s@[i as int]),
{
    let c = s.get_char(i);
    c == ' ' || c == '\t' || c == '\n' || c == '\r'
}

/// Strip leading and trailing ASCII whitespace.
pub fn trim_ascii<'a>(s: &'a str) -> (r: &'a str)
    ensures
        r@ == trim_spec(s@),
{
    let n = s.unicode_len();
    let mut a: usize = 0;
    while a < n && at_blank(s, a)
        invariant
            n == s@.len(),
            0 <= a <= n,
            skip_ws_from(s@, 0) == skip_ws_from(s@, a as int),
        decreases n - a,
    {
        a = a + 1;
    }
    proof {
        assert(skip_ws_from(s@, 0) == a);
    }
    if a == n {
        let r = s.substring_char(0, 0);
        proof {
            lemma_rskip_ws_bounds(s@, s@.len() as int);
            assert(r@ =~= trim_spec(s@));
        }
        return r;
    }
    let mut b: usize = n;
    while b > a + 1 && at_blank(s, b - 1)
        invariant
            n == s@.len(),
            a < n,
            !is_ws(s@[a as int]),
            a + 1 <= b <= n,
            rskip_ws_from(s@, n as int) == rskip_ws_from(s@, b as int),
        decreases b,
    {
        b = b - 1;
    }
    proof {
        if b == a + 1 && is_ws(s@[b - 1]) {
            assert(false);
        }
        assert(rskip_ws_from(s@, b as int) == b);
    }
    let r = s.substring_char(a, b);
    proof {
        assert(r@ =~= trim_spec(s@));
    }
    r
}

/// `skip_ws_from` stays within `[i, len]` and stops only at non-blanks.
proof fn lemma_skip_ws_bounds(s: Seq<char>, i: int)
    requires
        0 <= i <= s.len(),
    ensures
        i <= skip_ws_from(s, i) <= s.len(),
        forall|j: int| i <= j < skip_ws_from(s, i) ==> is_ws(#[trigger] s[j]),
        skip_ws_from(s, i) < s.len() ==> !is_ws(s[skip_ws_from(s, i)]),
    decreases s.len() - i,
{
    if i < s.len() && is_ws(s[i]) {
        lemma_skip_ws_bounds(s, i + 1);
    }
}

/// `rskip_ws_from` stays within `[0, j]` and stops only at non-blanks.
proof fn lemma_rskip_ws_bounds(s: Seq<char>, j: int)
    requires
        0 <= j <= s.len(),
    ensures
        0 <= rskip_ws_from(s, j) <= j,
        forall|k: int| rskip_ws_from(s, j) <= k < j ==> is_ws(#[trigger] s[k]),
        rskip_ws_from(s, j) > 0 ==> !is_ws(s[rskip_ws_from(s, j) - 1]),
    decreases j,
{
    if j > 0 && is_ws(s[j - 1]) {
        lemma_rskip_ws_bounds(s, j - 1);
    }
}

/// First index `>= i` holding character `c`; `-1` when absent.
pub open spec fn char_idx_from(s: Seq<char>, c: char, i: int) -> int
    decreases s.len() - i,
{
    if i < 0 || i >= s.len() {
        -1
    } else if s[i] == c {
        i
    } else {
        char_idx_from(s, c, i + 1)
    }
}

/// Find the first occurrence of `c` in `s` at or after `from`.
pub fn find_char(s: &str, c: char, from: usize) -> (r: Option<usize>)
    ensures
        r is None <==> char_idx_from(s@, c, from as int) == -1,
        r matches Some(i) ==> from <= i < s@.len() && i == char_idx_from(s@, c, from as int),
{
    let n = s.unicode_len();
    let mut i: usize = from;
    if i > n {
        proof {
            assert(char_idx_from(s@, c, from as int) == -1);
        }
        return None;
    }
    while i < n
        invariant
            n == s@.len(),
            from <= i <= n,
            char_idx_from(s@, c, from as int) == char_idx_from(s@, c, i as int),
        decreases n - i,
    {
        if s.get_char(i) == c {
            return Some(i);
        }
        i = i + 1;
    }
    None
}

// ---------------------------------------------------------------------
// Digit scanning and number parsing
// ---------------------------------------------------------------------

/// Values above this cap are only reported as "too large".
pub open spec fn scan_cap() -> int {
    0x1_0000_0000_0000_0000
}

/// Scan `s[from..to]`: `None` if any character is not a digit; otherwise
/// the value of the digit string, exact up to `scan_cap()` and merely
/// "larger than the cap" beyond it.
fn scan_digits(s: &str, from: usize, to: usize) -> (r: Option<u128>)
    requires
        from <= to <= s@.len(),
    ensures
        r is None <==> !all_digits(s@.subrange(from as int, to as int)),
        r matches Some(v) ==> {
            let t = s@.subrange(from as int, to as int);
            &&& all_digits(t)
            &&& seq_val(t) <= scan_cap() ==> v == seq_val(t)
            &&& seq_val(t) > scan_cap() ==> v > scan_cap()
        },
{
    let ghost t = s@.subrange(from as int, to as int);
    let mut acc: u128 = 0;
    let mut i: usize = from;
    while i < to
        invariant
            from <= i <= to <= s@.len(),
            t == s@.subrange(from as int, to as int),
            all_digits(t.take(i - from)),
            seq_val(t.take(i - from)) <= scan_cap() ==> acc == seq_val(t.take(i - from)),
            seq_val(t.take(i - from)) > scan_cap() ==> acc > scan_cap(),
            acc <= 10 * scan_cap() + 19,
        decreases to - i,
    {
        let c = s.get_char(i);
        let d = digit_of(c);
        if d < 0 {
            proof {
                assert(t[i - from] == c);
            }
            return None;
        }
        proof {
            assert(all_digits(t.take(i - from)));
            lemma_seq_val_nonneg(t.take(i - from));
            assert(t.take(i + 1 - from).drop_last() =~= t.take(i - from));
            assert(t.take(i + 1 - from).last() == t[i - from]);
            assert(t[i - from] == c);
        }
        let capped: u128 = if acc > 0x1_0000_0000_0000_0000u128 {
            0x1_0000_0000_0000_0001u128
        } else {
            acc
        };
        acc = capped * 10 + (d as u128);
        i = i + 1;
    }
    proof {
        assert(t.take(to - from) =~= t);
    }
    Some(acc)
}

/// What a non-negative integer parse accepts: an optional `+` sign, then
/// one or more digits, with a value that fits `u32`.
pub open spec fn parse_u32_spec(s: Seq<char>) -> Option<u32> {
    let t = if s.len() > 0 && s[0] == '+' {
        s.drop_first()
    } else {
        s
    };
    if t.len() > 0 && all_digits(t) && seq_val(t) <= u32::MAX {
        Some(seq_val(t) as u32)
    } else {
        None
    }
}

/// Parse a non-negative decimal integer (optional leading `+`).
pub fn parse_u32(s: &str) -> (r: Option<u32>)
    ensures
        r == parse_u32_spec(s@),
{
    let n = s.unicode_len();
    let start: usize = if n > 0 && s.get_char(0) == '+' {
        1
    } else {
        0
    };
    let ghost t = if s@.len() > 0 && s@[0] == '+' {
        s@.drop_first()
    } else {
        s@
    };
    proof {
        assert(t =~= s@.subrange(start as int, n as int));
    }
    if start == n {
        return None;
    }
    match scan_digits(s, start, n) {
        None => None,
        Some(v) => {
            proof {
                lemma_seq_val_nonneg(t);
            }
            if v <= 0xFFFF_FFFFu128 {
                Some(v as u32)
            } else {
                None
            }
        }
    }
}

/// What a non-negative machine-word parse accepts: an optional `+` sign,
/// then one or more digits, with a value that fits `usize`.
pub open spec fn parse_usize_spec(s: Seq<char>) -> Option<usize> {
    let t = if s.len() > 0 && s[0] == '+' {
        s.drop_first()
    } else {
        s
    };
    if t.len() > 0 && all_digits(t) && seq_val(t) <= usize::MAX {
        Some(seq_val(t) as usize)
    } else {
        None
    }
}

/// Parse a non-negative decimal `usize` (optional leading `+`).
pub fn parse_usize(s: &str) -> (r: Option<usize>)
    ensures
        r == parse_usize_spec(s@),
{
    let n = s.unicode_len();
    let start: usize = if n > 0 && s.get_char(0) == '+' {
        1
    } else {
        0
    };
    let ghost t = if s@.len() > 0 && s@[0] == '+' {
        s@.drop_first()
    } else {
        s@
    };
    proof {
        assert(t =~= s@.subrange(start as int, n as int));
    }
    if start == n {
        return None;
    }
    match scan_digits(s, start, n) {
        None => None,
        Some(v) => {
            proof {
                lemma_seq_val_nonneg(t);
            }
            if v <= usize::MAX as u128 {
                Some(v as usize)
            } else {
                None
            }
        }
    }
}

/// First index `>= i` that is ASCII whitespace (or the length).
pub open spec fn skip_nonws_from(s: Seq<char>, i: int) -> int
    decreases s.len() - i,
{
    if i < 0 || i >= s.len() {
        i
    } else if !is_ws(s[i]) {
        skip_nonws_from(s, i + 1)
    } else {
        i
    }
}

/// First non-blank index at or after `from`.
pub fn skip_ws(s: &str, from: usize) -> (r: usize)
    requires
        from <= s@.len(),
    ensures
        r == skip_ws_from(s@, from as int),
        from <= r <= s@.len(),
{
    let n = s.unicode_len();
    let mut i: usize = from;
    while i < n && at_blank(s, i)
        invariant
            n == s@.len(),
            from <= i <= n,
            skip_ws_from(s@, from as int) == skip_ws_from(s@, i as int),
        decreases n - i,
    {
        i = i + 1;
    }
    i
}

/// First blank index at or after `from`.
pub fn skip_nonws(s: &str, from: usize) -> (r: usize)
    requires
        from <= s@.len(),
    ensures
        r == skip_nonws_from(s@, from as int),
        from <= r <= s@.len(),
{
    let n = s.unicode_len();
    let mut i: usize = from;
    while i < n && !at_blank(s, i)
        invariant
            n == s@.len(),
            from <= i <= n,
            skip_nonws_from(s@, from as int) == skip_nonws_from(s@, i as int),
        decreases n - i,
    {
        i = i + 1;
    }
    i
}

/// The value, in thousandths, of the first three fractional digits.
pub open spec fn frac_val3(f: Seq<char>) -> int {
    (if f.len() > 0 {
        digit_val(f[0])
    } else {
        0
    }) * 100 + (if f.len() > 1 {
        digit_val(f[1])
    } else {
        0
    }) * 10 + (if f.len() > 2 {
        digit_val(f[2])
    } else {
        0
    })
}

/// What a signed decimal parse accepts: an optional sign, digits with an
/// optional fractional part (at least one digit overall), read into
/// thousandths with the fraction truncated toward zero after three
/// digits.  Values whose magnitude exceeds `i64` are rejected.
pub open spec fn parse_milli_spec(s: Seq<char>) -> Option<i64> {
    let neg = s.len() > 0 && s[0] == '-';
    let body = if s.len() > 0 && (s[0] == '-' || s[0] == '+') {
        s.drop_first()
    } else {
        s
    };
    let di = char_idx_from(body, '.', 0);
    let ip = if di == -1 {
        body
    } else {
        body.take(di)
    };
    let fp = if di == -1 {
        Seq::<char>::empty()
    } else {
        body.skip(di + 1)
    };
    if ip.len() + fp.len() > 0 && all_digits(ip) && all_digits(fp) && seq_val(ip) * 1000
        + frac_val3(fp) <= i64::MAX {
        let m = seq_val(ip) * 1000 + frac_val3(fp);
        Some(
            (if neg {
                -m
            } else {
                m
            }) as i64,
        )
    } else {
        None
    }
}

/// Parse a plain signed decimal number (`-12`, `10.5`, `.25`, `+3.`) into
/// thousandths, truncating the fraction toward zero after three digits.
#[verifier::rlimit(100)]
pub fn parse_milli(s: &str) -> (r: Option<i64>)
    ensures
        r == parse_milli_spec(s@),
{
    let n = s.unicode_len();
    let neg = n > 0 && s.get_char(0) == '-';
    let start: usize = if n > 0 && (s.get_char(0) == '-' || s.get_char(0) == '+') {
        1
    } else {
        0
    };
    let ghost body = if s@.len() > 0 && (s@[0] == '-' || s@[0] == '+') {
        s@.drop_first()
    } else {
        s@
    };
    proof {
        assert(body =~= s@.subrange(start as int, n as int));
    }

    // Locate the decimal point inside the body.
    let dot = find_char(s, '.', start);
    let (ip_to, fp_from): (usize, usize) = match dot {
        Some(d) => (d, d + 1),
        None => (n, n),
    };
    proof {
        lemma_char_idx_shift_one(s@, '.', start as int, start as int);
        let di = char_idx_from(body, '.', 0);
        if dot is Some {
            assert(di == dot->0 - start);
            assert(body.take(di) =~= s@.subrange(start as int, ip_to as int));
            assert(body.skip(di + 1) =~= s@.subrange(fp_from as int, n as int));
        } else {
            assert(di == -1);
            assert(body =~= s@.subrange(start as int, ip_to as int));
        }
    }

    if ip_to == start && fp_from == n {
        // No digits at all ("", "+", "-", ".", "+.")
        return None;
    }
    let iv = match scan_digits(s, start, ip_to) {
        None => {
            return None;
        }
        Some(v) => v,
    };
    if scan_digits(s, fp_from, n).is_none() {
        return None;
    }

    let ghost ip = s@.subrange(start as int, ip_to as int);
    let ghost fp = s@.subrange(fp_from as int, n as int);

    // First three fractional digits, padded with zeros.
    let flen = n - fp_from;
    let d0: i8 = if flen >= 1 {
        digit_of(s.get_char(fp_from))
    } else {
        0
    };
    let d1: i8 = if flen >= 2 {
        digit_of(s.get_char(fp_from + 1))
    } else {
        0
    };
    let d2: i8 = if flen >= 3 {
        digit_of(s.get_char(fp_from + 2))
    } else {
        0
    };
    proof {
        if flen >= 1 {
            assert(s@[fp_from as int] == fp[0]);
        }
        if flen >= 2 {
            assert(s@[fp_from + 1] == fp[1]);
        }
        if flen >= 3 {
            assert(s@[fp_from + 2] == fp[2]);
        }
    }
    let frac: u32 = (d0 as u32) * 100 + (d1 as u32) * 10 + (d2 as u32);

    proof {
        lemma_seq_val_nonneg(ip);
        lemma_seq_val_nonneg(fp);
        assert(frac as int == frac_val3(fp));
    }

    if iv > 0x7FFF_FFFF_FFFF_FFFFu128 {
        proof {
            assert(seq_val(ip) > i64::MAX);
            assert(seq_val(ip) * 1000 + frac_val3(fp) > i64::MAX);
        }
        return None;
    }
    let m: u128 = iv * 1000 + (frac as u128);
    if m > 0x7FFF_FFFF_FFFF_FFFFu128 {
        return None;
    }
    if neg {
        Some(-(m as i64))
    } else {
        Some(m as i64)
    }
}

// ---------------------------------------------------------------------
// Rendering numbers
// ---------------------------------------------------------------------

/// The character of a single decimal digit.
pub open spec fn digit_char(d: int) -> char {
    if d == 1 {
        '1'
    } else if d == 2 {
        '2'
    } else if d == 3 {
        '3'
    } else if d == 4 {
        '4'
    } else if d == 5 {
        '5'
    } else if d == 6 {
        '6'
    } else if d == 7 {
        '7'
    } else if d == 8 {
        '8'
    } else if d == 9 {
        '9'
    } else {
        '0'
    }
}

/// The decimal rendering of a non-negative number.
pub open spec fn dec_str(n: int) -> Seq<char>
    decreases n,
{
    if n < 10 {
        seq![digit_char(n)]
    } else {
        dec_str(n / 10).push(digit_char(n % 10))
    }
}

/// Append one decimal digit to a string.
fn append_digit(s: &mut String, d: u8)
    requires
        d < 10,
    ensures
        final(s)@ == old(s)@ + seq![digit_char(d as int)],
{
    match d {
        0 => {
            proof {
                reveal_strlit("0");
            }
            s.append("0");
            proof {
                assert(final(s)@ =~= old(s)@ + seq![digit_char(d as int)]);
            }
        }
        1 => {
            proof {
                reveal_strlit("1");
            }
            s.append("1");
            proof {
                assert(final(s)@ =~= old(s)@ + seq![digit_char(d as int)]);
            }
        }
        2 => {
            proof {
                reveal_strlit("2");
            }
            s.append("2");
            proof {
                assert(final(s)@ =~= old(s)@ + seq![digit_char(d as int)]);
            }
        }
        3 => {
            proof {
                reveal_strlit("3");
            }
            s.append("3");
            proof {
                assert(final(s)@ =~= old(s)@ + seq![digit_char(d as int)]);
            }
        }
        4 => {
            proof {
                reveal_strlit("4");
            }
            s.append("4");
            proof {
                assert(final(s)@ =~= old(s)@ + seq![digit_char(d as int)]);
            }
        }
        5 => {
            proof {
                reveal_strlit("5");
            }
            s.append("5");
            proof {
                assert(final(s)@ =~= old(s)@ + seq![digit_char(d as int)]);
            }
        }
        6 => {
            proof {
                reveal_strlit("6");
            }
            s.append("6");
            proof {
                assert(final(s)@ =~= old(s)@ + seq![digit_char(d as int)]);
            }
        }
        7 => {
            proof {
                reveal_strlit("7");
            }
            s.append("7");
            proof {
                assert(final(s)@ =~= old(s)@ + seq![digit_char(d as int)]);
            }
        }
        8 => {
            proof {
                reveal_strlit("8");
            }
            s.append("8");
            proof {
                assert(final(s)@ =~= old(s)@ + seq![digit_char(d as int)]);
            }
        }
        _ => {
            proof {
                reveal_strlit("9");
            }
            s.append("9");
            proof {
                assert(final(s)@ =~= old(s)@ + seq![digit_char(d as int)]);
            }
        }
    }
}

/// Append the decimal rendering of `n` to a string.
pub fn append_usize(s: &mut String, n: usize)
    ensures
        final(s)@ == old(s)@ + dec_str(n as int),
{
    // Collect the digits, least significant first.
    let mut digits: Vec<u8> = Vec::new();
    let mut m: usize = n;
    let d0 = (m % 10) as u8;
    digits.push(d0);
    m = m / 10;
    proof {
        assert(digits@ =~= seq![d0]);
        assert(digits@.drop_last() =~= Seq::<u8>::empty());
        assert(digits_rev(Seq::<u8>::empty()) == Seq::<char>::empty());
        assert(digits_rev(digits@) =~= seq![digit_char(d0 as int)]);
        if m > 0 {
            assert(dec_str(n as int) == dec_str(m as int).push(digit_char(d0 as int)));
            assert(dec_str(m as int).push(digit_char(d0 as int)) =~= dec_str(m as int)
                + digits_rev(digits@));
        } else {
            assert(dec_str(n as int) =~= digits_rev(digits@));
        }
    }
    while m > 0
        invariant
            forall|j: int| 0 <= j < digits@.len() ==> digit_ok(#[trigger] digits@[j]),
            digits@.len() >= 1,
            dec_str(n as int) == (if m > 0 {
                dec_str(m as int) + digits_rev(digits@)
            } else {
                digits_rev(digits@)
            }),
        decreases m,
    {
        let ghost m0 = m as int;
        let d = (m % 10) as u8;
        let ghost pre = digits@;
        digits.push(d);
        m = m / 10;
        proof {
            assert(pre.push(d).drop_last() =~= pre);
            assert(digits_rev(pre.push(d)) == seq![digit_char(d as int)] + digits_rev(pre));
            if m0 < 10 {
                assert(dec_str(m0) =~= seq![digit_char(d as int)]);
                assert(dec_str(m0) + digits_rev(pre) =~= digits_rev(digits@));
            } else {
                assert(dec_str(m0) == dec_str(m0 / 10).push(digit_char(m0 % 10)));
                assert(dec_str(m0) =~= dec_str(m as int) + seq![digit_char(d as int)]);
                assert((dec_str(m as int) + seq![digit_char(d as int)]) + digits_rev(pre)
                    =~= dec_str(m as int) + digits_rev(digits@));
            }
        }
    }
    // Append them, most significant first.
    proof {
        lemma_digits_rev_len(digits@);
    }
    let mut i: usize = digits.len();
    while i > 0
        invariant
            forall|j: int| 0 <= j < digits@.len() ==> digit_ok(#[trigger] digits@[j]),
            i <= digits@.len(),
            digits_rev(digits@).len() == digits@.len(),
            s@ == old(s)@ + digits_rev(digits@).take(digits@.len() - i),
        decreases i,
    {
        i = i - 1;
        let d = digits[i];
        append_digit(s, d);
        proof {
            let rev = digits_rev(digits@);
            let k = digits@.len() - (i + 1) as int;
            assert(rev[k] == digit_char(digits@[i as int] as int)) by {
                lemma_digits_rev_index(digits@, i as int);
            }
            assert(rev.take(k + 1) =~= rev.take(k).push(rev[k]));
            assert(s@ =~= old(s)@ + rev.take(k + 1));
        }
    }
    proof {
        assert(digits_rev(digits@).take(digits@.len() as int) =~= digits_rev(digits@));
        assert(digits_rev(digits@) == dec_str(n as int));
    }
}

/// A stored digit value.
pub open spec fn digit_ok(d: u8) -> bool {
    d < 10
}

/// The characters of a digit list, read most significant first (the list
/// stores the least significant digit first).
pub open spec fn digits_rev(ds: Seq<u8>) -> Seq<char>
    decreases ds.len(),
{
    if ds.len() == 0 {
        Seq::empty()
    } else {
        seq![digit_char(ds.last() as int)] + digits_rev(ds.drop_last())
    }
}

/// Indexing into the reversed digit characters.
proof fn lemma_digits_rev_index(ds: Seq<u8>, i: int)
    requires
        0 <= i < ds.len(),
    ensures
        digits_rev(ds).len() == ds.len(),
        digits_rev(ds)[ds.len() - 1 - i] == digit_char(ds[i] as int),
    decreases ds.len(),
{
    lemma_digits_rev_len(ds);
    if i < ds.len() - 1 {
        lemma_digits_rev_index(ds.drop_last(), i);
    }
}

/// The reversed digit characters have one character per digit.
proof fn lemma_digits_rev_len(ds: Seq<u8>)
    ensures
        digits_rev(ds).len() == ds.len(),
    decreases ds.len(),
{
    if ds.len() > 0 {
        lemma_digits_rev_len(ds.drop_last());
    }
}

/// The decimal rendering of `n`, e.g. `"42"`.
pub fn usize_to_string(n: usize) -> (r: String)
    ensures
        r@ == dec_str(n as int),
{
    let mut s = String::new();
    append_usize(&mut s, n);
    proof {
        assert(s@ =~= dec_str(n as int));
    }
    s
}

/// The decimal rendering of a signed number: a minus sign for negative
/// values, then the digits of the magnitude.
pub open spec fn int_str(n: int) -> Seq<char> {
    if n < 0 {
        seq!['-'] + dec_str(-n)
    } else {
        dec_str(n)
    }
}

/// Append the decimal rendering of `n`, sign included, to a string.
pub fn append_i64(s: &mut String, n: i64)
    ensures
        final(s)@ == old(s)@ + int_str(n as int),
{
    if n < 0 {
        proof {
            reveal_strlit("-");
        }
        s.append("-");
        let ghost mid = s@;
        // The magnitude of the most negative value still fits unsigned.
        let mag: u64 = if n == i64::MIN {
            0x8000_0000_0000_0000u64
        } else {
            (-n) as u64
        };
        append_u64_digits(s, mag);
        proof {
            assert(mid =~= old(s)@ + seq!['-']);
            assert(s@ =~= old(s)@ + int_str(n as int));
        }
    } else {
        append_u64_digits(s, n as u64);
    }
}

/// Append the decimal digits of an unsigned 64-bit value.
fn append_u64_digits(s: &mut String, n: u64)
    ensures
        final(s)@ == old(s)@ + dec_str(n as int),
    decreases n,
{
    // On 64-bit targets this takes the word-sized path at once; the
    // recursive split keeps the value exact on narrower targets too.
    if n <= usize::MAX as u64 {
        append_usize(s, n as usize);
    } else {
        let lo = (n % 10) as u8;
        append_u64_digits(s, n / 10);
        let ghost mid = s@;
        append_digit(s, lo);
        proof {
            assert(dec_str(n as int) == dec_str(n as int / 10).push(digit_char(n as int % 10)));
            assert(s@ =~= old(s)@ + dec_str(n as int));
        }
    }
}

/// Searching in a suffix is searching in the whole, shifted (one index).
proof fn lemma_char_idx_shift_one(s: Seq<char>, c: char, start: int, k: int)
    requires
        0 <= start <= s.len(),
        start <= k,
    ensures
        char_idx_from(s.subrange(start, s.len() as int), c, k - start) == (if char_idx_from(
            s,
            c,
            k,
        ) == -1 {
            -1
        } else {
            char_idx_from(s, c, k) - start
        }),
    decreases s.len() - k,
{
    if k < s.len() {
        lemma_char_idx_shift_one(s, c, start, k + 1);
    }
}

} // verus!
