//! Human-readable formatting and parsing of sizes and durations.

use vstd::prelude::*;
use vstd::string::*;

verus! {

/// The decimal digit character for `d < 10`.
pub open spec fn digit_char(d: nat) -> char {
    if d == 0 { '0' }
    else if d == 1 { '1' }
    else if d == 2 { '2' }
    else if d == 3 { '3' }
    else if d == 4 { '4' }
    else if d == 5 { '5' }
    else if d == 6 { '6' }
    else if d == 7 { '7' }
    else if d == 8 { '8' }
    else { '9' }
}

/// The decimal digits of `n`, without leading zeros.
pub open spec fn digits_of(n: nat) -> Seq<char>
    decreases n,
{
    if n < 10 {
        seq![digit_char(n)]
    } else {
        digits_of(n / 10) + seq![digit_char(n % 10)]
    }
}

/// The one-character text of a digit.
fn digit_text(d: u64) -> (r: &'static str)
    requires
        d < 10,
    ensures
        r@ == seq![digit_char(d as nat)],
{
    proof {
        reveal_strlit("0");
        reveal_strlit("1");
        reveal_strlit("2");
        reveal_strlit("3");
        reveal_strlit("4");
        reveal_strlit("5");
        reveal_strlit("6");
        reveal_strlit("7");
        reveal_strlit("8");
        reveal_strlit("9");
    }
    if d == 0 { "0" }
    else if d == 1 { "1" }
    else if d == 2 { "2" }
    else if d == 3 { "3" }
    else if d == 4 { "4" }
    else if d == 5 { "5" }
    else if d == 6 { "6" }
    else if d == 7 { "7" }
    else if d == 8 { "8" }
    else { "9" }
}

/// `n` in decimal.
pub fn decimal(n: u64) -> (r: String)
    ensures
        r@ == digits_of(n as nat),
    decreases n,
{
    if n < 10 {
        String::from_str(digit_text(n))
    } else {
        let mut s = decimal(n / 10);
        s.append(digit_text(n % 10));
        s
    }
}

/// Two digits, with a leading zero below ten.
pub open spec fn two_digits(n: nat) -> Seq<char> {
    if n < 10 { seq!['0'] + digits_of(n) } else { digits_of(n) }
}

/// `n` in decimal, at least two digits wide.
pub fn decimal_2(n: u64) -> (r: String)
    ensures
        r@ == two_digits(n as nat),
{
    if n < 10 {
        proof {
            reveal_strlit("0");
        }
        let s = String::from_str("0");
        let d = decimal(n);
        s.concat(d.as_str())
    } else {
        decimal(n)
    }
}

/// `q / d` rounded to the nearest integer, ties to even.
pub open spec fn round_half_even(q: nat, d: nat) -> nat {
    let w = q / d;
    let r = q % d;
    if 2 * r > d || (2 * r == d && w % 2 == 1) { w + 1 } else { w }
}

fn round_half_even_exec(q: u128, d: u128) -> (r: u128)
    requires
        d > 0,
        q / d < u128::MAX,
    ensures
        r == round_half_even(q as nat, d as nat),
{
    let w = q / d;
    let rem = q % d;
    proof {
        assert(rem < d) by (nonlinear_arith)
            requires
                rem == q % d,
                d > 0,
        ;
    }
    if rem > d - rem || (rem == d - rem && w % 2 == 1) {
        w + 1
    } else {
        w
    }
}

/// Text of a duration: hours, minutes and seconds from an hour on; minutes
/// and seconds from a minute on; seconds with hundredths (truncated) from a
/// second on; whole milliseconds below that.
pub open spec fn duration_text(nanos: nat) -> Seq<char> {
    let secs = nanos / 1000000000;
    let millis = (nanos % 1000000000) / 1000000;
    if secs >= 3600 {
        digits_of(secs / 3600) + "h "@ + digits_of((secs % 3600) / 60) + "m "@ + digits_of(secs % 60) + "s"@
    } else if secs >= 60 {
        digits_of(secs / 60) + "m "@ + digits_of(secs % 60) + "s"@
    } else if secs > 0 {
        if millis > 0 {
            digits_of(secs) + "."@ + two_digits(millis / 10) + "s"@
        } else {
            digits_of(secs) + "s"@
        }
    } else {
        digits_of(millis) + "ms"@
    }
}

/// Format a duration given in nanoseconds into human-readable text
pub fn format_duration(nanos: u64) -> (r: String)
    ensures
        r@ == duration_text(nanos as nat),
{
    let total_secs = nanos / 1000000000;
    let millis = (nanos % 1000000000) / 1000000;
    if total_secs >= 3600 {
        let s = decimal(total_secs / 3600).concat("h ");
        let s = s.concat(decimal((total_secs % 3600) / 60).as_str()).concat("m ");
        s.concat(decimal(total_secs % 60).as_str()).concat("s")
    } else if total_secs >= 60 {
        let s = decimal(total_secs / 60).concat("m ");
        s.concat(decimal(total_secs % 60).as_str()).concat("s")
    } else if total_secs > 0 {
        if millis > 0 {
            let s = decimal(total_secs).concat(".");
            s.concat(decimal_2(millis / 10).as_str()).concat("s")
        } else {
            decimal(total_secs).concat("s")
        }
    } else {
        decimal(millis).concat("ms")
    }
}

/// Text of a latency: milliseconds with two decimals (rounded to nearest,
/// ties to even) from a millisecond on, whole microseconds below.
pub open spec fn latency_text(nanos: nat) -> Seq<char> {
    let micros = nanos / 1000;
    if micros >= 1000 {
        let h = round_half_even(micros, 10);
        digits_of(h / 100) + "."@ + two_digits(h % 100) + "ms"@
    } else {
        digits_of(micros) + "\u{3bc}s"@
    }
}

/// Format latency duration with appropriate precision
pub fn format_latency(nanos: u64) -> (r: String)
    ensures
        r@ == latency_text(nanos as nat),
{
    let micros = nanos / 1000;
    if micros >= 1000 {
        let h = round_half_even_exec(micros as u128, 10) as u64;
        let s = decimal(h / 100).concat(".");
        s.concat(decimal_2(h % 100).as_str()).concat("ms")
    } else {
        decimal(micros).concat("\u{3bc}s")
    }
}

/// The binary unit names, from bytes up.
pub open spec fn unit_name(k: nat) -> Seq<char> {
    if k == 0 { "B"@ }
    else if k == 1 { "KiB"@ }
    else if k == 2 { "MiB"@ }
    else if k == 3 { "GiB"@ }
    else if k == 4 { "TiB"@ }
    else { "PiB"@ }
}

fn unit_text(k: u64) -> (r: &'static str)
    ensures
        r@ == unit_name(k as nat),
{
    if k == 0 { "B" }
    else if k == 1 { "KiB" }
    else if k == 2 { "MiB" }
    else if k == 3 { "GiB" }
    else if k == 4 { "TiB" }
    else { "PiB" }
}

/// The unit a byte count is shown in: the largest power of 1024 (up to
/// PiB) that does not exceed it.
pub open spec fn unit_index(bytes: nat, k: nat) -> nat
    decreases 5 - k,
{
    if k >= 5 || bytes < pow1024(k + 1) { k } else { unit_index(bytes, k + 1) }
}

/// 1024 to the power `k`.
pub open spec fn pow1024(k: nat) -> nat
    decreases k,
{
    if k == 0 { 1 } else { 1024 * pow1024((k - 1) as nat) }
}

proof fn lemma_pow1024_values()
    ensures
        pow1024(0) == 1,
        pow1024(1) == 1024,
        pow1024(2) == 1048576,
        pow1024(3) == 1073741824,
        pow1024(4) == 1099511627776,
        pow1024(5) == 1125899906842624,
        pow1024(6) == 1152921504606846976,
{
    assert(pow1024(1) == 1024 * pow1024(0));
    assert(pow1024(2) == 1024 * pow1024(1));
    assert(pow1024(3) == 1024 * pow1024(2));
    assert(pow1024(4) == 1024 * pow1024(3));
    assert(pow1024(5) == 1024 * pow1024(4));
    assert(pow1024(6) == 1024 * pow1024(5));
}

/// Text of a byte count: exact bytes below 1 KiB, otherwise the value in
/// its unit with one decimal (rounded to nearest, ties to even).
pub open spec fn bytes_text(bytes: nat) -> Seq<char> {
    if bytes == 0 {
        "0 B"@
    } else {
        let k = unit_index(bytes, 0);
        if k == 0 {
            digits_of(bytes) + " B"@
        } else {
            let t = round_half_even(bytes * 10, pow1024(k));
            digits_of(t / 10) + "."@ + digits_of(t % 10) + " "@ + unit_name(k)
        }
    }
}

/// Format bytes into human-readable size with appropriate units
pub fn format_bytes(bytes: u64) -> (r: String)
    ensures
        r@ == bytes_text(bytes as nat),
{
    if bytes == 0 {
        return String::from_str("0 B");
    }
    let mut k: u64 = 0;
    let mut p: u128 = 1;
    proof {
        lemma_pow1024_values();
    }
    while k < 5 && (bytes as u128) >= p * 1024
        invariant
            k <= 5,
            p == pow1024(k as nat),
            pow1024(0) == 1,
            pow1024(1) == 1024,
            pow1024(2) == 1048576,
            pow1024(3) == 1073741824,
            pow1024(4) == 1099511627776,
            pow1024(5) == 1125899906842624,
            pow1024(6) == 1152921504606846976,
            unit_index(bytes as nat, k as nat) == unit_index(bytes as nat, 0),
        decreases 5 - k,
    {
        assert(pow1024((k + 1) as nat) == 1024 * pow1024(k as nat));
        p = p * 1024;
        k = k + 1;
    }
    assert(pow1024((k + 1) as nat) == 1024 * pow1024(k as nat));
    assert(unit_index(bytes as nat, k as nat) == k as nat);
    if k == 0 {
        return decimal(bytes).concat(" B");
    }
    assert(p >= 1024);
    let q = (bytes as u128) * 10;
    proof {
        assert(q / p <= q / 1024) by (nonlinear_arith)
            requires
                p >= 1024,
                q >= 0,
        ;
    }
    let t = round_half_even_exec(q, p) as u64;
    let s = decimal(t / 10).concat(".");
    let s = s.concat(decimal(t % 10).as_str()).concat(" ");
    s.concat(unit_text(k))
}

/// Whitespace, as far as parsing is concerned.
pub open spec fn is_ws(c: char) -> bool {
    c == ' ' || c == '\t' || c == '\n' || c == '\r'
}

/// An ASCII decimal digit.
pub open spec fn is_digit(c: char) -> bool {
    '0' <= c && c <= '9'
}

/// An ASCII letter.
pub open spec fn is_letter(c: char) -> bool {
    ('a' <= c && c <= 'z') || ('A' <= c && c <= 'Z')
}

/// The value of a digit character.
pub open spec fn digit_value(c: char) -> nat {
    ((c as u32) - ('0' as u32)) as nat
}

/// A letter in upper case; other characters unchanged.
pub open spec fn upper(c: char) -> char {
    if 'a' <= c && c <= 'z' { ((c as u8) - 32) as char } else { c }
}

/// A letter in lower case; other characters unchanged.
pub open spec fn lower(c: char) -> char {
    if 'A' <= c && c <= 'Z' { ((c as u8) + 32) as char } else { c }
}

/// The text without leading whitespace.
pub open spec fn trim_front(s: Seq<char>) -> Seq<char>
    decreases s.len(),
{
    if s.len() > 0 && is_ws(s[0]) { trim_front(s.drop_first()) } else { s }
}

/// The text without trailing whitespace.
pub open spec fn trim_back(s: Seq<char>) -> Seq<char>
    decreases s.len(),
{
    if s.len() > 0 && is_ws(s.last()) { trim_back(s.drop_last()) } else { s }
}

/// Numbers at or above 2^64 are held at this cap.
pub const NUMBER_CAP: u128 = 18446744073709551616;

/// The value of a run of digits, held at 2^64 once it reaches it.
pub open spec fn capped_value(ds: Seq<char>) -> nat
    decreases ds.len(),
{
    if ds.len() == 0 {
        0
    } else {
        let v = capped_value(ds.drop_last()) * 10 + digit_value(ds.last());
        if v >= NUMBER_CAP { NUMBER_CAP as nat } else { v }
    }
}

/// The fraction `0.ds` times `mult`, truncated, computed digit by digit
/// from the right: `(d₀·mult + (d₁·mult + …)/10)/10`.
pub open spec fn frac_value(ds: Seq<char>, mult: nat) -> nat
    decreases ds.len(),
{
    if ds.len() == 0 {
        0
    } else {
        (digit_value(ds[0]) * mult + frac_value(ds.drop_first(), mult)) / 10
    }
}

/// The first index at or after `i` holding `c`, or the length.
pub open spec fn find_from(s: Seq<char>, c: char, i: int) -> int
    decreases s.len() - i,
{
    if i >= s.len() { s.len() as int } else if s[i] == c { i } else { find_from(s, c, i + 1) }
}

/// Every character is a digit.
pub open spec fn all_digits(s: Seq<char>) -> bool {
    forall|i: int| 0 <= i < s.len() ==> is_digit(#[trigger] s[i])
}

/// A plain decimal number: digits, optionally a point and more digits,
/// with at least one digit in all.
pub open spec fn valid_decimal(s: Seq<char>) -> bool {
    let dot = find_from(s, '.', 0);
    &&& all_digits(s.subrange(0, dot))
    &&& (dot < s.len() ==> all_digits(s.subrange(dot + 1, s.len() as int)))
    &&& s.len() > (if dot < s.len() { 1int } else { 0int })
}

/// The whole part of a decimal number.
pub open spec fn whole_part(s: Seq<char>) -> Seq<char> {
    s.subrange(0, find_from(s, '.', 0))
}

/// The fractional digits of a decimal number.
pub open spec fn fraction_part(s: Seq<char>) -> Seq<char> {
    let dot = find_from(s, '.', 0);
    if dot < s.len() { s.subrange(dot + 1, s.len() as int) } else { Seq::empty() }
}

/// The characters of a text.
fn chars_of(s: &str) -> (r: Vec<char>)
    ensures
        r@ == s@,
{
    let n = s.unicode_len();
    let mut v: Vec<char> = Vec::new();
    let mut i: usize = 0;
    while i < n
        invariant
            n == s@.len(),
            i <= n,
            v@ == s@.subrange(0, i as int),
        decreases n - i,
    {
        v.push(s.get_char(i));
        i = i + 1;
        assert(v@ =~= s@.subrange(0, i as int));
    }
    v
}

fn char_is_digit(c: char) -> (r: bool)
    ensures
        r == is_digit(c),
{
    '0' <= c && c <= '9'
}

fn char_is_ws(c: char) -> (r: bool)
    ensures
        r == is_ws(c),
{
    c == ' ' || c == '\t' || c == '\n' || c == '\r'
}

/// Whether every character of `v[a..b]` is a digit.
fn range_all_digits(v: &Vec<char>, a: usize, b: usize) -> (r: bool)
    requires
        a <= b <= v@.len(),
    ensures
        r == all_digits(v@.subrange(a as int, b as int)),
{
    let mut i = a;
    while i < b
        invariant
            a <= i <= b,
            b <= v@.len(),
            forall|j: int| a <= j < i ==> is_digit(#[trigger] v@[j]),
        decreases b - i,
    {
        if !char_is_digit(v[i]) {
            assert(!is_digit(v@.subrange(a as int, b as int)[i - a]));
            return false;
        }
        i = i + 1;
    }
    assert forall|j: int| 0 <= j < b - a implies is_digit(#[trigger] v@.subrange(a as int, b as int)[j]) by {
        assert(v@.subrange(a as int, b as int)[j] == v@[a + j]);
    }
    true
}

/// The capped value of the digits `v[a..b]`.
fn range_value(v: &Vec<char>, a: usize, b: usize) -> (r: u128)
    requires
        a <= b <= v@.len(),
        all_digits(v@.subrange(a as int, b as int)),
    ensures
        r == capped_value(v@.subrange(a as int, b as int)),
        r <= NUMBER_CAP,
{
    let mut x: u128 = 0;
    let mut i = a;
    while i < b
        invariant
            a <= i <= b,
            b <= v@.len(),
            all_digits(v@.subrange(a as int, b as int)),
            x == capped_value(v@.subrange(a as int, i as int)),
            x <= NUMBER_CAP,
        decreases b - i,
    {
        assert(v@.subrange(a as int, i + 1).drop_last() =~= v@.subrange(a as int, i as int));
        assert(is_digit(v@.subrange(a as int, b as int)[i - a]));
        let d = (v[i] as u32 - '0' as u32) as u128;
        let y = x * 10 + d;
        x = if y >= NUMBER_CAP { NUMBER_CAP } else { y };
        i = i + 1;
    }
    x
}

/// The truncated product of the fraction `0.v[a..b]` and `mult`.
fn range_fraction(v: &Vec<char>, a: usize, b: usize, mult: u64) -> (r: u128)
    requires
        a <= b <= v@.len(),
        all_digits(v@.subrange(a as int, b as int)),
    ensures
        r == frac_value(v@.subrange(a as int, b as int), mult as nat),
        r <= mult,
{
    let mut x: u128 = 0;
    let mut i = b;
    while i > a
        invariant
            a <= i <= b,
            b <= v@.len(),
            all_digits(v@.subrange(a as int, b as int)),
            x == frac_value(v@.subrange(i as int, b as int), mult as nat),
            x <= mult,
        decreases i - a,
    {
        i = i - 1;
        assert(v@.subrange(i as int, b as int).drop_first() =~= v@.subrange(i + 1, b as int));
        assert(is_digit(v@.subrange(a as int, b as int)[i - a]));
        let d = (v[i] as u32 - '0' as u32) as u128;
        proof {
            assert(d * mult + x <= 10 * mult) by (nonlinear_arith)
                requires
                    d <= 9,
                    x <= mult,
            ;
        }
        x = (d * (mult as u128) + x) / 10;
    }
    x
}

/// The first index in `v[a..b]` holding `c`, or `b`.
fn range_find(v: &Vec<char>, c: char, a: usize, b: usize) -> (r: usize)
    requires
        a <= b <= v@.len(),
    ensures
        r == find_from(v@.subrange(a as int, b as int), c, 0) + a,
        a <= r <= b,
{
    let ghost t = v@.subrange(a as int, b as int);
    let mut i = a;
    while i < b
        invariant
            a <= i <= b,
            b <= v@.len(),
            t == v@.subrange(a as int, b as int),
            find_from(t, c, 0) == find_from(t, c, i - a),
        decreases b - i,
    {
        if v[i] == c {
            return i;
        }
        i = i + 1;
    }
    i
}

/// The index of the last space, or -1 where there is none.
pub open spec fn last_space(s: Seq<char>) -> int
    decreases s.len(),
{
    if s.len() == 0 {
        -1
    } else if s.last() == ' ' {
        s.len() - 1
    } else {
        last_space(s.drop_last())
    }
}

/// The first index at or after `i` holding a letter, or the length.
pub open spec fn letter_from(s: Seq<char>, i: int) -> int
    decreases s.len() - i,
{
    if i >= s.len() { s.len() as int } else if is_letter(s[i]) { i } else { letter_from(s, i + 1) }
}

/// Where a size text splits into number and unit: at its last space
/// (which belongs to neither), or else where the first letter starts.
pub open spec fn size_split(t: Seq<char>) -> (int, int) {
    let sp = last_space(t);
    if sp >= 0 { (sp, sp + 1) } else { let q = letter_from(t, 0); (q, q) }
}

/// The multiplier of a unit, in any letter case: none or `B` is one byte;
/// `KB` to `TB` are powers of 1000; `KiB` to `TiB` powers of 1024.
pub open spec fn unit_multiplier(u: Seq<char>) -> Option<nat> {
    if u.len() == 0 {
        Some(1)
    } else if u.len() == 1 && upper(u[0]) == 'B' {
        Some(1)
    } else if u.len() == 2 && upper(u[1]) == 'B' {
        let c = upper(u[0]);
        if c == 'K' { Some(1000) }
        else if c == 'M' { Some(1000000) }
        else if c == 'G' { Some(1000000000) }
        else if c == 'T' { Some(1000000000000) }
        else { None }
    } else if u.len() == 3 && upper(u[1]) == 'I' && upper(u[2]) == 'B' {
        let c = upper(u[0]);
        if c == 'K' { Some(1024) }
        else if c == 'M' { Some(1048576) }
        else if c == 'G' { Some(1073741824) }
        else if c == 'T' { Some(1099511627776) }
        else { None }
    } else {
        None
    }
}

/// The byte count a size text stands for, where it is one: surrounding
/// whitespace is ignored, the number is a plain decimal and the unit is
/// known; the count is the number times the unit, truncated, at most the
/// largest 64-bit value.
pub open spec fn parse_bytes_spec(s: Seq<char>) -> Option<u64> {
    let t = trim_back(trim_front(s));
    let (e, u) = size_split(t);
    let num = t.subrange(0, e);
    let unit = t.subrange(u, t.len() as int);
    if !valid_decimal(num) {
        None
    } else {
        match unit_multiplier(unit) {
            None => None,
            Some(m) => Some(
                saturate_nat(capped_value(whole_part(num)) * m + frac_value(fraction_part(num), m)),
            ),
        }
    }
}

/// `x`, or the largest 64-bit value where `x` is larger.
pub open spec fn saturate_nat(x: nat) -> u64 {
    if x > u64::MAX { u64::MAX } else { x as u64 }
}

fn upper_char(c: char) -> (r: char)
    ensures
        r == upper(c),
{
    if 'a' <= c && c <= 'z' {
        ((c as u8) - 32) as char
    } else {
        c
    }
}

/// The multiplier of the unit `v[a..b]`.
fn range_unit(v: &Vec<char>, a: usize, b: usize) -> (r: Option<u64>)
    requires
        a <= b <= v@.len(),
    ensures
        match unit_multiplier(v@.subrange(a as int, b as int)) {
            Some(m) => r == Some(m as u64),
            None => r is None,
        },
{
    let ghost u = v@.subrange(a as int, b as int);
    let n = b - a;
    if n == 0 {
        return Some(1);
    }
    assert(u[0] == v@[a as int]);
    let c0 = upper_char(v[a]);
    if n == 1 {
        return if c0 == 'B' { Some(1) } else { None };
    }
    assert(u[1] == v@[a + 1]);
    let c1 = upper_char(v[a + 1]);
    if n == 2 {
        if c1 != 'B' {
            return None;
        }
        return if c0 == 'K' {
            Some(1000)
        } else if c0 == 'M' {
            Some(1000000)
        } else if c0 == 'G' {
            Some(1000000000)
        } else if c0 == 'T' {
            Some(1000000000000)
        } else {
            None
        };
    }
    if n > 3 {
        return None;
    }
    assert(u[2] == v@[a + 2]);
    let c2 = upper_char(v[a + 2]);
    if c1 != 'I' || c2 != 'B' {
        return None;
    }
    if c0 == 'K' {
        Some(1024)
    } else if c0 == 'M' {
        Some(1048576)
    } else if c0 == 'G' {
        Some(1073741824)
    } else if c0 == 'T' {
        Some(1099511627776)
    } else {
        None
    }
}

/// The range `[a, b)` of `v` without surrounding whitespace.
fn trim_range(v: &Vec<char>) -> (r: (usize, usize))
    ensures
        r.0 <= r.1 <= v@.len(),
        v@.subrange(r.0 as int, r.1 as int) == trim_back(trim_front(v@)),
{
    let n = v.len();
    let mut a: usize = 0;
    assert(v@.subrange(0, n as int) =~= v@);
    while a < n && char_is_ws(v[a])
        invariant
            a <= n,
            n == v@.len(),
            trim_front(v@) == trim_front(v@.subrange(a as int, n as int)),
        decreases n - a,
    {
        assert(v@.subrange(a as int, n as int).drop_first() =~= v@.subrange(a + 1, n as int));
        a = a + 1;
    }
    let ghost t = v@.subrange(a as int, n as int);
    assert(trim_front(v@) == t);
    let mut b: usize = n;
    assert(t.subrange(0, (n - a) as int) =~= t);
    while b > a && char_is_ws(v[b - 1])
        invariant
            a <= b <= n,
            n == v@.len(),
            t == v@.subrange(a as int, n as int),
            trim_back(t) == trim_back(v@.subrange(a as int, b as int)),
        decreases b - a,
    {
        assert(v@.subrange(a as int, b as int).drop_last() =~= v@.subrange(a as int, b - 1));
        b = b - 1;
    }
    (a, b)
}

/// Parse human-readable size string into bytes. The number is a plain
/// decimal (`1`, `1.5`), the unit one of B, KB, MB, GB, TB, KiB, MiB, GiB,
/// TiB in any letter case, after a space or right after the number.
pub fn parse_bytes(input: &str) -> (r: Result<u64, String>)
    ensures
        match parse_bytes_spec(input@) {
            Some(v) => r == Ok::<u64, String>(v),
            None => r is Err,
        },
{
    let v = chars_of(input);
    let (a, b) = trim_range(&v);
    let ghost t = v@.subrange(a as int, b as int);
    // Split at the last space, or where the first letter starts.
    let mut j = b;
    assert(t.subrange(0, (b - a) as int) =~= t);
    while j > a && v[j - 1] != ' '
        invariant
            a <= j <= b,
            b <= v@.len(),
            t == v@.subrange(a as int, b as int),
            last_space(t) == last_space(t.subrange(0, j - a)),
        decreases j - a,
    {
        assert(t.subrange(0, j - a).drop_last() =~= t.subrange(0, j - a - 1));
        j = j - 1;
    }
    let (e, u) = if j > a {
        (j - 1, j)
    } else {
        let mut q = a;
        while q < b && !(('a' <= v[q] && v[q] <= 'z') || ('A' <= v[q] && v[q] <= 'Z'))
            invariant
                a <= q <= b,
                b <= v@.len(),
                t == v@.subrange(a as int, b as int),
                letter_from(t, 0) == letter_from(t, q - a),
            decreases b - q,
        {
            q = q + 1;
        }
        (q, q)
    };
    assert(size_split(t) == ((e - a) as int, (u - a) as int));
    let ghost num = t.subrange(0, e - a);
    assert(num =~= v@.subrange(a as int, e as int));
    assert(t.subrange(u - a, t.len() as int) =~= v@.subrange(u as int, b as int));
    let dot = range_find(&v, '.', a, e);
    assert(whole_part(num) =~= v@.subrange(a as int, dot as int));
    let whole_ok = range_all_digits(&v, a, dot);
    let frac_ok = if dot < e {
        assert(num.subrange(dot - a + 1, num.len() as int) =~= v@.subrange(dot + 1, e as int));
        range_all_digits(&v, dot + 1, e)
    } else {
        true
    };
    let enough = if dot < e { e - a > 1 } else { e - a > 0 };
    if !(whole_ok && frac_ok && enough) {
        let part = String::from_str(input.substring_char(a, e));
        return Err(crate::error::join_text("Invalid number: ", part.as_str()));
    }
    let mult = match range_unit(&v, u, b) {
        Some(m) => m,
        None => {
            let part = String::from_str(input.substring_char(u, b));
            return Err(crate::error::join_text("Unknown unit: ", part.as_str()));
        },
    };
    let whole = range_value(&v, a, dot);
    let frac = if dot < e {
        assert(fraction_part(num) =~= v@.subrange(dot + 1, e as int));
        range_fraction(&v, dot + 1, e, mult)
    } else {
        assert(fraction_part(num) =~= v@.subrange(e as int, e as int));
        0
    };
    proof {
        assert(whole * mult <= NUMBER_CAP * 1099511627776) by (nonlinear_arith)
            requires
                whole <= NUMBER_CAP,
                mult <= 1099511627776,
        ;
    }
    let total = whole * (mult as u128) + frac;
    if total > u64::MAX as u128 {
        Ok(u64::MAX)
    } else {
        Ok(total as u64)
    }
}

/// The text with every letter in lower case.
pub open spec fn lowered(s: Seq<char>) -> Seq<char> {
    s.map_values(|c: char| lower(c))
}

/// Whitespace-separated tokens of a text, read left to right: the tokens
/// finished so far and the one being read.
pub open spec fn scan_tokens(s: Seq<char>) -> (Seq<Seq<char>>, Seq<char>)
    decreases s.len(),
{
    if s.len() == 0 {
        (Seq::empty(), Seq::empty())
    } else {
        let (ts, cur) = scan_tokens(s.drop_last());
        if is_ws(s.last()) {
            if cur.len() > 0 { (ts.push(cur), Seq::empty()) } else { (ts, Seq::empty()) }
        } else {
            (ts, cur.push(s.last()))
        }
    }
}

/// The whitespace-separated tokens of a text.
pub open spec fn tokens(s: Seq<char>) -> Seq<Seq<char>> {
    let (ts, cur) = scan_tokens(s);
    if cur.len() > 0 { ts.push(cur) } else { ts }
}

/// A whole number of at most 64 bits, in digits.
pub open spec fn small_number(p: Seq<char>) -> bool {
    p.len() > 0 && all_digits(p) && capped_value(p) <= u64::MAX
}

/// The milliseconds a duration token stands for: `<n>ms`, `<x>s` (a
/// decimal number of seconds, the fraction truncated to milliseconds),
/// `<n>m` or `<n>h`.
pub open spec fn token_millis(t: Seq<char>) -> Option<nat> {
    let n = t.len();
    if n >= 2 && t[n - 2] == 'm' && t[n - 1] == 's' {
        let p = t.subrange(0, n - 2);
        if small_number(p) { Some(capped_value(p)) } else { None }
    } else if n >= 1 && t[n - 1] == 's' {
        let p = t.subrange(0, n - 1);
        if valid_decimal(p) && capped_value(whole_part(p)) <= u64::MAX {
            Some(capped_value(whole_part(p)) * 1000 + frac_value(fraction_part(p), 1000))
        } else {
            None
        }
    } else if n >= 1 && t[n - 1] == 'm' {
        let p = t.subrange(0, n - 1);
        if small_number(p) { Some(capped_value(p) * 60000) } else { None }
    } else if n >= 1 && t[n - 1] == 'h' {
        let p = t.subrange(0, n - 1);
        if small_number(p) { Some(capped_value(p) * 3600000) } else { None }
    } else {
        None
    }
}

/// The milliseconds of all tokens, where every token is valid.
pub open spec fn total_millis(ts: Seq<Seq<char>>) -> Option<nat>
    decreases ts.len(),
{
    if ts.len() == 0 {
        Some(0)
    } else {
        match total_millis(ts.drop_last()) {
            None => None,
            Some(a) => match token_millis(ts.last()) {
                None => None,
                Some(b) => Some(a + b),
            },
        }
    }
}

/// The duration a text stands for, in nanoseconds, where every token is
/// valid (letters in any case) and the total fits in 64 bits.
pub open spec fn parse_duration_spec(s: Seq<char>) -> Option<u64> {
    match total_millis(tokens(lowered(s))) {
        None => None,
        Some(m) => if m * 1000000 <= u64::MAX { Some((m * 1000000) as u64) } else { None },
    }
}

/// Running totals are held at this cap; any total reaching it is out of range.
pub const TOTAL_CAP: u128 = 1267650600228229401496703205376;

fn lower_char(c: char) -> (r: char)
    ensures
        r == lower(c),
{
    if 'A' <= c && c <= 'Z' {
        ((c as u8) + 32) as char
    } else {
        c
    }
}

/// A whole number of at most 64 bits in `v[a..b]`.
fn range_small_number(v: &Vec<char>, a: usize, b: usize) -> (r: Option<u128>)
    requires
        a <= b <= v@.len(),
    ensures
        small_number(v@.subrange(a as int, b as int)) ==> r == Some(
            capped_value(v@.subrange(a as int, b as int)) as u128,
        ),
        !small_number(v@.subrange(a as int, b as int)) ==> r is None,
{
    if a == b || !range_all_digits(v, a, b) {
        return None;
    }
    let x = range_value(v, a, b);
    if x > u64::MAX as u128 {
        None
    } else {
        Some(x)
    }
}

/// The milliseconds of the token `v[a..b]`.
fn token_value(v: &Vec<char>, a: usize, b: usize) -> (r: Option<u128>)
    requires
        a <= b <= v@.len(),
    ensures
        match token_millis(v@.subrange(a as int, b as int)) {
            Some(x) => r == Some(x as u128) && x < 18446744073709551616 * 3600000,
            None => r is None,
        },
{
    let ghost t = v@.subrange(a as int, b as int);
    let n = b - a;
    if n >= 2 && v[b - 2] == 'm' && v[b - 1] == 's' {
        assert(t[n - 2] == v@[b - 2] && t[n - 1] == v@[b - 1]);
        assert(t.subrange(0, n - 2) =~= v@.subrange(a as int, b - 2));
        return range_small_number(v, a, b - 2);
    }
    if n >= 1 {
        assert(t[n - 1] == v@[b - 1]);
        assert(n >= 2 ==> t[n - 2] == v@[b - 2]);
        assert(t.subrange(0, n - 1) =~= v@.subrange(a as int, b - 1));
    }
    if n >= 1 && v[b - 1] == 's' {
        let e = b - 1;
        let ghost p = v@.subrange(a as int, e as int);
        let dot = range_find(v, '.', a, e);
        assert(whole_part(p) =~= v@.subrange(a as int, dot as int));
        let whole_ok = range_all_digits(v, a, dot);
        let frac_ok = if dot < e {
            assert(p.subrange(dot - a + 1, p.len() as int) =~= v@.subrange(dot + 1, e as int));
            range_all_digits(v, dot + 1, e)
        } else {
            true
        };
        let enough = if dot < e { e - a > 1 } else { e - a > 0 };
        if !(whole_ok && frac_ok && enough) {
            return None;
        }
        let whole = range_value(v, a, dot);
        if whole > u64::MAX as u128 {
            return None;
        }
        let frac = if dot < e {
            assert(fraction_part(p) =~= v@.subrange(dot + 1, e as int));
            range_fraction(v, dot + 1, e, 1000)
        } else {
            assert(fraction_part(p) =~= v@.subrange(e as int, e as int));
            0
        };
        return Some(whole * 1000 + frac);
    }
    if n >= 1 && v[b - 1] == 'm' {
        return match range_small_number(v, a, b - 1) {
            Some(x) => Some(x * 60000),
            None => None,
        };
    }
    if n >= 1 && v[b - 1] == 'h' {
        return match range_small_number(v, a, b - 1) {
            Some(x) => Some(x * 3600000),
            None => None,
        };
    }
    None
}

/// The running total after one more token: none once any token is invalid,
/// held at the cap once it reaches it.
pub open spec fn capped_total(t: Option<nat>) -> Option<nat> {
    match t {
        None => None,
        Some(x) => Some(if x >= TOTAL_CAP { TOTAL_CAP as nat } else { x }),
    }
}

fn add_token(total: Option<u128>, tok: Option<u128>) -> (r: Option<u128>)
    requires
        total is Some ==> total->Some_0 <= TOTAL_CAP,
        tok is Some ==> tok->Some_0 < 18446744073709551616 * 3600000,
    ensures
        r is Some ==> r->Some_0 <= TOTAL_CAP,
        (total is None || tok is None) ==> r is None,
        total is Some && tok is Some ==> r == Some(
            (if total->Some_0 + tok->Some_0 >= TOTAL_CAP {
                TOTAL_CAP
            } else {
                (total->Some_0 + tok->Some_0) as u128
            }),
        ),
{
    match (total, tok) {
        (Some(a), Some(b)) => {
            let s = a + b;
            Some(if s >= TOTAL_CAP { TOTAL_CAP } else { s })
        },
        _ => None,
    }
}

/// The exact running total, or its capped counterpart.
pub open spec fn tracks(exec: Option<u128>, spec: Option<nat>) -> bool {
    match spec {
        None => exec is None,
        Some(x) => exec == Some((if x >= TOTAL_CAP { TOTAL_CAP as nat } else { x }) as u128),
    }
}

proof fn lemma_tracks_step(exec: Option<u128>, spec: Option<nat>, tok: Option<nat>, r: Option<u128>)
    requires
        tracks(exec, spec),
        tok is Some ==> tok->Some_0 < 18446744073709551616 * 3600000,
        (exec is None || tok is None) ==> r is None,
        exec is Some && tok is Some ==> r == Some(
            (if exec->Some_0 + tok->Some_0 >= TOTAL_CAP {
                TOTAL_CAP
            } else {
                (exec->Some_0 + tok->Some_0) as u128
            }),
        ),
    ensures
        tracks(
            r,
            match spec {
                None => None,
                Some(a) => match tok {
                    None => None,
                    Some(b) => Some(a + b),
                },
            },
        ),
{
}

/// Parse a duration text into nanoseconds. Tokens are separated by
/// whitespace: `500ms`, `30s`, `1.5s`, `2m`, `1h`, in any letter case; an
/// empty text is zero.
pub fn parse_duration(input: &str) -> (r: Result<u64, String>)
    ensures
        match parse_duration_spec(input@) {
            Some(v) => r == Ok::<u64, String>(v),
            None => r is Err,
        },
{
    let v = chars_of(input);
    let n = v.len();
    let mut low: Vec<char> = Vec::new();
    let mut k: usize = 0;
    while k < n
        invariant
            n == v@.len(),
            k <= n,
            low@ == lowered(v@.subrange(0, k as int)),
        decreases n - k,
    {
        low.push(lower_char(v[k]));
        k = k + 1;
        assert(low@ =~= lowered(v@.subrange(0, k as int)));
    }
    assert(v@.subrange(0, n as int) =~= v@);
    let ghost mut ts: Seq<Seq<char>> = Seq::empty();
    let mut total: Option<u128> = Some(0);
    let mut start: usize = 0;
    let mut in_token = false;
    let mut i: usize = 0;
    assert(low@.subrange(0, 0) =~= Seq::<char>::empty());
    while i < n
        invariant
            n == low@.len(),
            i <= n,
            start <= i,
            scan_tokens(low@.subrange(0, i as int)) == (ts, if in_token {
                low@.subrange(start as int, i as int)
            } else {
                Seq::<char>::empty()
            }),
            in_token ==> start < i,
            tracks(total, total_millis(ts)),
            total is Some ==> total->Some_0 <= TOTAL_CAP,
        decreases n - i,
    {
        let c = low[i];
        assert(low@.subrange(0, i + 1).drop_last() =~= low@.subrange(0, i as int));
        if char_is_ws(c) {
            if in_token {
                let tok = token_value(&low, start, i);
                let next = add_token(total, tok);
                proof {
                    let cur = low@.subrange(start as int, i as int);
                    lemma_tracks_step(total, total_millis(ts), token_millis(cur), next);
                    let ts2 = ts.push(cur);
                    assert(ts2.drop_last() =~= ts);
                    ts = ts2;
                }
                total = next;
                in_token = false;
            }
        } else {
            if !in_token {
                start = i;
                in_token = true;
                assert(Seq::<char>::empty().push(c) =~= low@.subrange(start as int, i + 1));
            } else {
                assert(low@.subrange(start as int, i as int).push(c) =~= low@.subrange(
                    start as int,
                    i + 1,
                ));
            }
        }
        i = i + 1;
    }
    assert(low@.subrange(0, n as int) =~= low@);
    if in_token {
        let tok = token_value(&low, start, n);
        let next = add_token(total, tok);
        proof {
            let cur = low@.subrange(start as int, n as int);
            lemma_tracks_step(total, total_millis(ts), token_millis(cur), next);
            let ts2 = ts.push(cur);
            assert(ts2.drop_last() =~= ts);
            ts = ts2;
        }
        total = next;
    }
    assert(tokens(lowered(input@)) == ts);
    match total {
        Some(m) => {
            if m <= (u64::MAX as u128) / 1000000 {
                Ok((m * 1000000) as u64)
            } else {
                let text = String::from_str(input);
                Err(crate::error::join_text("Duration out of range: ", text.as_str()))
            }
        },
        None => {
            let text = String::from_str(input);
            Err(crate::error::join_text("Invalid duration: ", text.as_str()))
        },
    }
}

/// A value in tenths as text with one decimal.
pub open spec fn tenths_text(t: nat) -> Seq<char> {
    digits_of(t / 10) + "."@ + digits_of(t % 10)
}

fn tenths_string(t: u64) -> (r: String)
    ensures
        r@ == tenths_text(t as nat),
{
    let s = decimal(t / 10).concat(".");
    s.concat(decimal(t % 10).as_str())
}

/// Text of a throughput given in thousandths of MiB/s: GiB/s from 1024
/// MiB/s, MiB/s from 1, KiB/s below that, each with one decimal rounded to
/// nearest (ties to even); zero is `0.000 MiB/s`.
pub open spec fn throughput_text(m: nat) -> Seq<char> {
    if m >= 1024000 {
        tenths_text(round_half_even(m * 10, 1024000)) + " GiB/s"@
    } else if m >= 1000 {
        tenths_text(round_half_even(m * 10, 1000)) + " MiB/s"@
    } else if m >= 1 {
        tenths_text(round_half_even(m * 10240, 1000)) + " KiB/s"@
    } else {
        "0.000 MiB/s"@
    }
}

/// Format a throughput given in thousandths of MiB/s
pub fn format_throughput(mbps_milli: u64) -> (r: String)
    ensures
        r@ == throughput_text(mbps_milli as nat),
{
    let m = mbps_milli as u128;
    if m >= 1024000 {
        let t = round_half_even_exec(m * 10, 1024000) as u64;
        tenths_string(t).concat(" GiB/s")
    } else if m >= 1000 {
        let t = round_half_even_exec(m * 10, 1000) as u64;
        tenths_string(t).concat(" MiB/s")
    } else if m >= 1 {
        let t = round_half_even_exec(m * 10240, 1000) as u64;
        tenths_string(t).concat(" KiB/s")
    } else {
        String::from_str("0.000 MiB/s")
    }
}

/// Text of an operation rate given in thousandths per second: millions
/// and thousands with one decimal, whole operations below, rounded to
/// nearest (ties to even).
pub open spec fn iops_text(i: nat) -> Seq<char> {
    if i >= 1000000000 {
        tenths_text(round_half_even(i * 10, 1000000000)) + "M IOPS"@
    } else if i >= 1000000 {
        tenths_text(round_half_even(i * 10, 1000000)) + "K IOPS"@
    } else {
        digits_of(round_half_even(i, 1000)) + " IOPS"@
    }
}

/// Format an operation rate given in thousandths per second
pub fn format_iops(iops_milli: u64) -> (r: String)
    ensures
        r@ == iops_text(iops_milli as nat),
{
    let i = iops_milli as u128;
    if i >= 1000000000 {
        let t = round_half_even_exec(i * 10, 1000000000) as u64;
        tenths_string(t).concat("M IOPS")
    } else if i >= 1000000 {
        let t = round_half_even_exec(i * 10, 1000000) as u64;
        tenths_string(t).concat("K IOPS")
    } else {
        let n = round_half_even_exec(i, 1000) as u64;
        decimal(n).concat(" IOPS")
    }
}

} // verus!
