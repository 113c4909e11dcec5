//! Sensor values turned into the strings the display shows.
//!
//! The raw readings come from outside collaborators as plain values: the
//! bytes a hostname query printed, the bytes of the kernel's thermal file
//! (integer millidegrees Celsius), and the memory and disk counters. This
//! module extracts the IP address token, parses the temperature, computes
//! percentages in tenths of a percent, and renders every value with one
//! decimal digit.

use vstd::prelude::*;

use vstd::arithmetic::div_mod::{lemma_multiply_divide_le, lemma_multiply_divide_lt};
use vstd::utf8::is_ascii_chars;

verus! {

/// The statistics rendered on one frame. Only the raw temperature is kept
/// as a number (millidegrees Celsius); everything else is already the text
/// to draw.
#[derive(Debug)]
pub struct SystemStats {
    pub ip_address: String,
    pub cpu_usage: String,
    /// Raw CPU temperature, millidegrees Celsius.
    pub cpu_temp: i32,
    pub cpu_temp_str: String,
    pub ram_usage: String,
    pub disk_usage: String,
}

// ---------------------------------------------------------------------
// Whitespace and token extraction
// ---------------------------------------------------------------------

/// An ASCII whitespace byte, as the standard library's trimming and
/// splitting treat ASCII text.
pub open spec fn spec_is_space(b: u8) -> bool {
    b == 32 || 9 <= b <= 13
}

/// `s` without its leading whitespace.
pub open spec fn spec_skip_spaces(s: Seq<u8>) -> Seq<u8>
    decreases s.len(),
{
    if s.len() > 0 && spec_is_space(s[0]) {
        spec_skip_spaces(s.drop_first())
    } else {
        s
    }
}

/// The longest whitespace-free prefix of `s`.
pub open spec fn spec_take_token(s: Seq<u8>) -> Seq<u8>
    decreases s.len(),
{
    if s.len() > 0 && !spec_is_space(s[0]) {
        seq![s[0]] + spec_take_token(s.drop_first())
    } else {
        Seq::empty()
    }
}

/// The first whitespace-separated token of `s`; empty when `s` holds none.
pub open spec fn spec_first_token(s: Seq<u8>) -> Seq<u8> {
    spec_take_token(spec_skip_spaces(s))
}

/// `s` without its trailing whitespace.
pub open spec fn spec_trim_trailing(s: Seq<u8>) -> Seq<u8>
    decreases s.len(),
{
    if s.len() > 0 && spec_is_space(s.last()) {
        spec_trim_trailing(s.drop_last())
    } else {
        s
    }
}

/// `s` without leading and trailing whitespace.
pub open spec fn spec_trim(s: Seq<u8>) -> Seq<u8> {
    spec_trim_trailing(spec_skip_spaces(s))
}

/// Every byte of `s` is ASCII.
pub open spec fn ascii_bytes(s: Seq<u8>) -> bool {
    forall|k: int| 0 <= k < s.len() ==> s[k] < 128
}

fn is_space_byte(b: u8) -> (r: bool)
    ensures
        r == spec_is_space(b),
{
    b == 32 || (b >= 9 && b <= 13)
}

/// The index of the first non-whitespace byte (the length when there is
/// none); everything before it is what `spec_skip_spaces` removes.
fn skip_spaces_index(bytes: &Vec<u8>) -> (i: usize)
    ensures
        i <= bytes@.len(),
        spec_skip_spaces(bytes@) == bytes@.skip(i as int),
{
    let ghost s = bytes@;
    let n: usize = bytes.len();
    let mut i: usize = 0;
    proof {
        assert(s.skip(0) =~= s);
    }
    loop
        invariant
            i <= n,
            n == s.len(),
            s == bytes@,
            spec_skip_spaces(s) == spec_skip_spaces(s.skip(i as int)),
        ensures
            i <= n,
            spec_skip_spaces(s) == s.skip(i as int),
        decreases n - i,
    {
        if i == n {
            proof {
                assert(s.skip(i as int).len() == 0);
            }
            break ;
        }
        if !is_space_byte(bytes[i]) {
            proof {
                assert(s.skip(i as int)[0] == s[i as int]);
            }
            break ;
        }
        proof {
            assert(s.skip(i as int).drop_first() =~= s.skip(i as int + 1));
        }
        i = i + 1;
    }
    i
}

/// The first whitespace-separated token of `bytes`; empty when the input
/// holds only whitespace.
pub fn first_whitespace_token(bytes: &Vec<u8>) -> (token: Vec<u8>)
    ensures
        token@ == spec_first_token(bytes@),
{
    let ghost s = bytes@;
    let n: usize = bytes.len();
    let i: usize = skip_spaces_index(bytes);
    let mut j: usize = i;
    let mut token: Vec<u8> = Vec::new();
    loop
        invariant
            i <= j <= n,
            n == s.len(),
            s == bytes@,
            spec_skip_spaces(s) == s.skip(i as int),
            spec_take_token(s.skip(i as int)) == token@ + spec_take_token(s.skip(j as int)),
        ensures
            spec_take_token(s.skip(i as int)) == token@,
        decreases n - j,
    {
        if j == n {
            proof {
                assert(s.skip(j as int).len() == 0);
                assert(token@ + spec_take_token(s.skip(j as int)) =~= token@);
            }
            break ;
        }
        let b = bytes[j];
        if is_space_byte(b) {
            proof {
                assert(s.skip(j as int)[0] == s[j as int]);
                assert(token@ + spec_take_token(s.skip(j as int)) =~= token@);
            }
            break ;
        }
        proof {
            assert(s.skip(j as int)[0] == s[j as int]);
            assert(s.skip(j as int).drop_first() =~= s.skip(j as int + 1));
            assert(token@ + (seq![s[j as int]] + spec_take_token(s.skip(j as int + 1))) =~= (
            token@ + seq![s[j as int]]) + spec_take_token(s.skip(j as int + 1)));
        }
        token.push(b);
        j = j + 1;
    }
    token
}

fn all_ascii(v: &Vec<u8>) -> (r: bool)
    ensures
        r == ascii_bytes(v@),
{
    let n: usize = v.len();
    let mut i: usize = 0;
    loop
        invariant
            i <= n,
            n == v@.len(),
            forall|k: int| 0 <= k < i ==> v@[k] < 128,
        ensures
            (i == n && ascii_bytes(v@)) || (i < n && v@[i as int] >= 128),
        decreases n - i,
    {
        if i == n {
            break ;
        }
        if v[i] >= 128 {
            break ;
        }
        i = i + 1;
    }
    i == n
}

/// Relies on String::from_utf8: a vector of ASCII bytes decodes to exactly
/// those bytes as characters.
#[verifier::external_body]
fn ascii_bytes_to_string(bytes: Vec<u8>) -> (r: String)
    requires
        ascii_bytes(bytes@),
    ensures
        r@ == bytes@.map_values(|b: u8| b as char),
{
    match String::from_utf8(bytes) {
        Ok(s) => s,
        Err(_) => String::new(),
    }
}

/// The view of optional raw bytes handed in from outside.
pub open spec fn opt_bytes(contents: Option<Vec<u8>>) -> Option<Seq<u8>> {
    match contents {
        Some(v) => Some(v@),
        None => None,
    }
}

/// The address string shown for a hostname query that printed `output`
/// (`None`: the query failed): the first whitespace-separated token when
/// there is one and it is ASCII, otherwise the sentinel `0.0.0.0`.
pub open spec fn spec_ip_address(output: Option<Seq<u8>>) -> Seq<char> {
    match output {
        Some(bytes) => {
            let token = spec_first_token(bytes);
            if token.len() > 0 && ascii_bytes(token) {
                token.map_values(|b: u8| b as char)
            } else {
                "0.0.0.0"@
            }
        },
        None => "0.0.0.0"@,
    }
}

/// Extracts the address to display from the bytes a hostname query printed,
/// falling back to the sentinel `0.0.0.0` when the query failed or printed
/// nothing usable.
pub fn get_ip_address(output: &Option<Vec<u8>>) -> (r: String)
    ensures
        r@ == spec_ip_address(opt_bytes(*output)),
{
    match output {
        Some(bytes) => {
            let token = first_whitespace_token(bytes);
            if token.len() > 0 && all_ascii(&token) {
                ascii_bytes_to_string(token)
            } else {
                String::from_str("0.0.0.0")
            }
        },
        None => String::from_str("0.0.0.0"),
    }
}

// ---------------------------------------------------------------------
// Decimal rendering
// ---------------------------------------------------------------------

/// The character for one decimal digit.
pub open spec fn spec_digit_char(d: int) -> char {
    if d == 0 {
        '0'
    } else if d == 1 {
        '1'
    } else if d == 2 {
        '2'
    } else if d == 3 {
        '3'
    } else if d == 4 {
        '4'
    } else if d == 5 {
        '5'
    } else if d == 6 {
        '6'
    } else if d == 7 {
        '7'
    } else if d == 8 {
        '8'
    } else {
        '9'
    }
}

/// The decimal digits of `n`, most significant first, without leading
/// zeros (a single zero for `n == 0`).
pub open spec fn spec_decimal(n: nat) -> Seq<char>
    decreases n,
{
    if n < 10 {
        seq![spec_digit_char(n as int)]
    } else {
        spec_decimal(n / 10) + seq![spec_digit_char((n % 10) as int)]
    }
}

/// A value of tenths rendered with one decimal digit: the digits of
/// `v / 10`, a point, and the digit `v % 10`.
pub open spec fn spec_tenths_string(v: nat) -> Seq<char> {
    spec_decimal(v / 10) + seq!['.'] + seq![spec_digit_char((v % 10) as int)]
}

/// A temperature in millidegrees rendered in degrees with one decimal
/// digit, truncated towards zero, with a leading minus sign when negative.
pub open spec fn spec_temp_string(millidegrees: int) -> Seq<char> {
    if millidegrees < 0 {
        seq!['-'] + spec_tenths_string(((-millidegrees) / 100) as nat)
    } else {
        spec_tenths_string((millidegrees / 100) as nat)
    }
}

fn digit_str(d: u64) -> (r: &'static str)
    requires
        d < 10,
    ensures
        r@ == seq![spec_digit_char(d as int)],
{
    proof {
        reveal_strlit("0");
        reveal_strlit("1");
        reveal_strlit("2");
        reveal_strlit("3");
        reveal_strlit("4");
        reveal_strlit("5");
        reveal_strlit("6");
        reveal_strlit("7");
        reveal_strlit("8");
        reveal_strlit("9");
        assert("0"@ =~= seq!['0']);
        assert("1"@ =~= seq!['1']);
        assert("2"@ =~= seq!['2']);
        assert("3"@ =~= seq!['3']);
        assert("4"@ =~= seq!['4']);
        assert("5"@ =~= seq!['5']);
        assert("6"@ =~= seq!['6']);
        assert("7"@ =~= seq!['7']);
        assert("8"@ =~= seq!['8']);
        assert("9"@ =~= seq!['9']);
    }
    match d {
        0 => "0",
        1 => "1",
        2 => "2",
        3 => "3",
        4 => "4",
        5 => "5",
        6 => "6",
        7 => "7",
        8 => "8",
        _ => "9",
    }
}

/// Appends the decimal digits of `n` to `s`.
fn append_decimal(s: &mut String, n: u64)
    ensures
        final(s)@ == old(s)@ + spec_decimal(n as nat),
    decreases n,
{
    if n < 10 {
        s.append(digit_str(n));
    } else {
        append_decimal(s, n / 10);
        s.append(digit_str(n % 10));
        proof {
            assert((old(s)@ + spec_decimal((n / 10) as nat)) + seq![
                spec_digit_char((n % 10) as int),
            ] =~= old(s)@ + (spec_decimal((n / 10) as nat) + seq![
                spec_digit_char((n % 10) as int),
            ]));
        }
    }
}

/// Renders a value of tenths with one decimal digit, `55.4` style.
pub fn format_tenths(v: u64) -> (r: String)
    ensures
        r@ == spec_tenths_string(v as nat),
{
    let mut s = String::new();
    append_decimal(&mut s, v / 10);
    proof {
        reveal_strlit(".");
        assert("."@ =~= seq!['.']);
    }
    s.append(".");
    s.append(digit_str(v % 10));
    proof {
        assert((Seq::<char>::empty() + spec_decimal((v / 10) as nat) + seq!['.']) + seq![
            spec_digit_char((v % 10) as int),
        ] =~= spec_tenths_string(v as nat));
    }
    s
}

/// Renders a temperature in millidegrees as degrees with one decimal
/// digit, truncated towards zero, `55.4` or `-3.2` style.
pub fn format_temp(millidegrees: i32) -> (r: String)
    ensures
        r@ == spec_temp_string(millidegrees as int),
{
    if millidegrees < 0 {
        let magnitude: i64 = -(millidegrees as i64);
        let tenths: u64 = (magnitude / 100) as u64;
        let mut s = String::from_str("-");
        proof {
            reveal_strlit("-");
            assert("-"@ =~= seq!['-']);
        }
        let t = format_tenths(tenths);
        s.append(t.as_str());
        proof {
            assert(seq!['-'] + spec_tenths_string(tenths as nat) =~= spec_temp_string(
                millidegrees as int,
            ));
        }
        s
    } else {
        format_tenths((millidegrees / 100) as u64)
    }
}

// ---------------------------------------------------------------------
// Temperature parsing
// ---------------------------------------------------------------------

/// Every byte of `s` is a decimal digit.
pub open spec fn all_digits(s: Seq<u8>) -> bool {
    forall|k: int| 0 <= k < s.len() ==> 48 <= #[trigger] s[k] <= 57
}

/// The value of `s` read as decimal digits, most significant first.
pub open spec fn dec_val(s: Seq<u8>) -> int
    decreases s.len(),
{
    if s.len() == 0 {
        0
    } else {
        dec_val(s.drop_last()) * 10 + (s.last() - 48)
    }
}

proof fn lemma_dec_val_nonneg(s: Seq<u8>)
    requires
        all_digits(s),
    ensures
        dec_val(s) >= 0,
    decreases s.len(),
{
    if s.len() > 0 {
        assert(all_digits(s.drop_last()));
        lemma_dec_val_nonneg(s.drop_last());
    }
}

/// Reading more digits never makes the value smaller.
proof fn lemma_dec_val_prefix_le(s: Seq<u8>, k: int)
    requires
        all_digits(s),
        0 <= k <= s.len(),
    ensures
        dec_val(s.take(k)) <= dec_val(s),
    decreases s.len() - k,
{
    if k == s.len() {
        assert(s.take(k) =~= s);
    } else {
        assert(s.take(k + 1).drop_last() =~= s.take(k));
        assert(s.take(k + 1).last() == s[k]);
        assert(all_digits(s.take(k)));
        lemma_dec_val_nonneg(s.take(k));
        lemma_dec_val_prefix_le(s, k + 1);
    }
}

/// The temperature read from the kernel's thermal file, millidegrees
/// Celsius. After trimming whitespace, an optional minus sign followed by
/// decimal digits is the value (when it fits a 32-bit integer); a missing
/// file or anything else reads as zero, a safe value below both fan
/// thresholds.
pub open spec fn spec_parse_temp(contents: Option<Seq<u8>>) -> int {
    match contents {
        Some(s) => {
            let t = spec_trim(s);
            if t.len() > 0 && t[0] == 45 {
                let d = t.drop_first();
                if d.len() > 0 && all_digits(d) && dec_val(d) <= i32::MAX {
                    -dec_val(d)
                } else {
                    0
                }
            } else {
                if t.len() > 0 && all_digits(t) && dec_val(t) <= i32::MAX {
                    dec_val(t)
                } else {
                    0
                }
            }
        },
        None => 0,
    }
}

/// Parses the contents of the kernel's thermal file (`None`: it could not
/// be read) into millidegrees Celsius, reading anything unusable as zero.
/// Only an optional leading minus sign and ASCII decimal digits are
/// recognised, the form the kernel writes.
#[verifier::loop_isolation(false)]
pub fn get_cpu_temperature(contents: &Option<Vec<u8>>) -> (t: i32)
    ensures
        t as int == spec_parse_temp(opt_bytes(*contents)),
{
    let bytes = match contents {
        Some(v) => v,
        None => {
            return 0;
        },
    };
    let ghost s = bytes@;
    let n: usize = bytes.len();
    let i: usize = skip_spaces_index(bytes);
    let mut j: usize = n;
    proof {
        assert(s.skip(i as int) =~= s.subrange(i as int, n as int));
    }
    while j > i && is_space_byte(bytes[j - 1])
        invariant
            i <= j <= n,
            spec_trim(s) == spec_trim_trailing(s.subrange(i as int, j as int)),
        decreases j,
    {
        proof {
            assert(s.subrange(i as int, j as int).last() == s[j as int - 1]);
            assert(s.subrange(i as int, j as int).drop_last() =~= s.subrange(
                i as int,
                j as int - 1,
            ));
        }
        j = j - 1;
    }
    proof {
        if j > i {
            assert(s.subrange(i as int, j as int).last() == s[j as int - 1]);
        }
        assert(spec_trim(s) == s.subrange(i as int, j as int));
    }
    let ghost t_seq = s.subrange(i as int, j as int);
    let mut start: usize = i;
    let mut negative: bool = false;
    if i < j && bytes[i] == 45 {
        negative = true;
        start = i + 1;
        proof {
            assert(t_seq[0] == s[i as int]);
            assert(t_seq.drop_first() =~= s.subrange(i as int + 1, j as int));
        }
    } else {
        proof {
            if i < j {
                assert(t_seq[0] == s[i as int]);
            }
        }
    }
    if start == j {
        return 0;
    }
    let ghost d_seq = s.subrange(start as int, j as int);
    let mut acc: u64 = 0;
    let mut k: usize = start;
    proof {
        assert(s.subrange(start as int, start as int) =~= Seq::<u8>::empty());
    }
    while k < j
        invariant
            start <= k <= j,
            all_digits(s.subrange(start as int, k as int)),
            acc as int == dec_val(s.subrange(start as int, k as int)),
            acc <= i32::MAX as u64,
        decreases j - k,
    {
        let b = bytes[k];
        if b < 48 || b > 57 {
            proof {
                assert(d_seq[k - start] == s[k as int]);
                assert(!all_digits(d_seq));
            }
            return 0;
        }
        let digit: u64 = (b - 48) as u64;
        let next: u64 = acc * 10 + digit;
        proof {
            assert(s.subrange(start as int, k as int + 1).drop_last() =~= s.subrange(
                start as int,
                k as int,
            ));
            assert(s.subrange(start as int, k as int + 1).last() == s[k as int]);
        }
        if next > i32::MAX as u64 {
            proof {
                if all_digits(d_seq) {
                    assert(d_seq.take(k as int + 1 - start) =~= s.subrange(
                        start as int,
                        k as int + 1,
                    ));
                    lemma_dec_val_prefix_le(d_seq, k as int + 1 - start);
                }
            }
            return 0;
        }
        acc = next;
        k = k + 1;
    }
    let magnitude: i32 = acc as i32;
    if negative {
        -magnitude
    } else {
        magnitude
    }
}

// ---------------------------------------------------------------------
// Percentages
// ---------------------------------------------------------------------

/// A share of a whole in tenths of a percent, truncated, clamped to
/// 0..=1000 (an absent or overfull whole reads as zero or full).
pub open spec fn spec_percent_tenths(part: u64, whole: u64) -> int {
    if whole == 0 {
        0
    } else if part >= whole {
        1000
    } else {
        part * 1000 / (whole as int)
    }
}

/// Memory usage in tenths of a percent, truncated: `used / total`, zero
/// when the total is reported as zero.
pub fn get_ram_usage(total_memory: u64, used_memory: u64) -> (r: u64)
    ensures
        r as int == spec_percent_tenths(used_memory, total_memory),
        r <= 1000,
{
    if total_memory == 0 {
        0
    } else if used_memory >= total_memory {
        1000
    } else {
        let tenths: u128 = (used_memory as u128) * 1000 / (total_memory as u128);
        proof {
            lemma_multiply_divide_lt(
                used_memory as int * 1000,
                total_memory as int,
                1000,
            );
            assert(used_memory as int * 1000 < total_memory as int * 1000) by (nonlinear_arith)
                requires
                    used_memory < total_memory,
            ;
        }
        tenths as u64
    }
}

/// Disk usage in tenths of a percent, truncated: the used share
/// `(total - available) / total`, zero when the total is reported as zero
/// or the counters are inconsistent.
pub open spec fn spec_disk_tenths(total_space: u64, available_space: u64) -> int {
    if total_space == 0 || available_space > total_space {
        0
    } else {
        (total_space - available_space) * 1000 / (total_space as int)
    }
}

/// Disk usage in tenths of a percent from the space counters of the first
/// disk, truncated; zero when no disk reports a positive total.
pub fn get_disk_usage(total_space: u64, available_space: u64) -> (r: u64)
    ensures
        r as int == spec_disk_tenths(total_space, available_space),
        r <= 1000,
{
    if total_space == 0 || available_space > total_space {
        0
    } else {
        let used: u64 = total_space - available_space;
        let tenths: u128 = (used as u128) * 1000 / (total_space as u128);
        proof {
            lemma_multiply_divide_le(used as int * 1000, total_space as int, 1000);
            assert(used as int * 1000 <= total_space as int * 1000) by (nonlinear_arith)
                requires
                    used <= total_space,
            ;
        }
        tenths as u64
    }
}

// ---------------------------------------------------------------------
// Character-set and length facts about the rendered strings
// ---------------------------------------------------------------------

/// Powers of ten.
pub open spec fn pow10(k: nat) -> nat
    decreases k,
{
    if k == 0 {
        1
    } else {
        10 * pow10((k - 1) as nat)
    }
}

proof fn lemma_decimal_ascii(n: nat)
    ensures
        is_ascii_chars(spec_decimal(n)),
    decreases n,
{
    if n < 10 {
    } else {
        lemma_decimal_ascii(n / 10);
        assert forall|i: int| 0 <= i < spec_decimal(n).len() implies '\0' <= #[trigger] spec_decimal(
            n,
        )[i] <= '\u{7f}' by {
            if i < spec_decimal(n / 10).len() {
                assert(spec_decimal(n)[i] == spec_decimal(n / 10)[i]);
            } else {
                assert(spec_decimal(n)[i] == spec_digit_char((n % 10) as int));
            }
        }
    }
}

/// A number below the `k`-th power of ten has at most `k` digits.
proof fn lemma_decimal_len(n: nat, k: nat)
    requires
        k >= 1,
        n < pow10(k),
    ensures
        spec_decimal(n).len() <= k,
    decreases k,
{
    if n < 10 {
    } else {
        assert(pow10(1) == 10) by {
            reveal_with_fuel(pow10, 2);
        }
        assert(k >= 2);
        lemma_multiply_divide_lt(n as int, 10, pow10((k - 1) as nat) as int);
        lemma_decimal_len(n / 10, (k - 1) as nat);
    }
}

/// The tenths rendering of a value up to 1000 takes at most 5 characters,
/// all of them ASCII.
pub proof fn lemma_tenths_string_props(v: nat)
    ensures
        is_ascii_chars(spec_tenths_string(v)),
        v <= 1000 ==> spec_tenths_string(v).len() <= 5,
{
    lemma_decimal_ascii(v / 10);
    assert forall|i: int| 0 <= i < spec_tenths_string(v).len() implies '\0'
        <= #[trigger] spec_tenths_string(v)[i] <= '\u{7f}' by {
        if i < spec_decimal(v / 10).len() {
            assert(spec_tenths_string(v)[i] == spec_decimal(v / 10)[i]);
        } else if i == spec_decimal(v / 10).len() {
            assert(spec_tenths_string(v)[i] == '.');
        } else {
            assert(spec_tenths_string(v)[i] == spec_digit_char((v % 10) as int));
        }
    }
    if v <= 1000 {
        assert(pow10(3) == 1000) by {
            reveal_with_fuel(pow10, 4);
        }
        lemma_decimal_len(v / 10, 3);
    }
}

/// The temperature rendering of any 32-bit millidegree value takes at most
/// 11 characters, all of them ASCII.
pub proof fn lemma_temp_string_props(millidegrees: int)
    requires
        i32::MIN <= millidegrees <= i32::MAX,
    ensures
        is_ascii_chars(spec_temp_string(millidegrees)),
        spec_temp_string(millidegrees).len() <= 11,
{
    assert(pow10(8) == 100000000) by {
        reveal_with_fuel(pow10, 9);
    }
    if millidegrees < 0 {
        let v = ((-millidegrees) / 100) as nat;
        assert(v < 100000000);
        lemma_tenths_string_props(v);
        lemma_decimal_len(v / 10, 8);
        assert forall|i: int| 0 <= i < spec_temp_string(millidegrees).len() implies '\0'
            <= #[trigger] spec_temp_string(millidegrees)[i] <= '\u{7f}' by {
            if i == 0 {
                assert(spec_temp_string(millidegrees)[i] == '-');
            } else {
                assert(spec_temp_string(millidegrees)[i] == spec_tenths_string(v)[i - 1]);
            }
        }
    } else {
        let v = (millidegrees / 100) as nat;
        assert(v < 100000000);
        lemma_tenths_string_props(v);
        lemma_decimal_len(v / 10, 8);
    }
}

proof fn lemma_skip_spaces_len(s: Seq<u8>)
    ensures
        spec_skip_spaces(s).len() <= s.len(),
    decreases s.len(),
{
    if s.len() > 0 && spec_is_space(s[0]) {
        lemma_skip_spaces_len(s.drop_first());
    }
}

proof fn lemma_take_token_len(s: Seq<u8>)
    ensures
        spec_take_token(s).len() <= s.len(),
    decreases s.len(),
{
    if s.len() > 0 && !spec_is_space(s[0]) {
        lemma_take_token_len(s.drop_first());
    }
}

/// The displayed address is ASCII and no longer than the query output it
/// was cut from (or the 7-character sentinel).
pub proof fn lemma_ip_address_props(output: Option<Seq<u8>>)
    ensures
        is_ascii_chars(spec_ip_address(output)),
        spec_ip_address(output).len() <= (match output {
            Some(b) => if b.len() > 7 {
                b.len() as int
            } else {
                7
            },
            None => 7,
        }),
{
    reveal_strlit("0.0.0.0");
    assert(is_ascii_chars("0.0.0.0"@)) by {
        assert forall|i: int| 0 <= i < "0.0.0.0"@.len() implies '\0' <= #[trigger] "0.0.0.0"@[i]
            <= '\u{7f}' by {
            assert("0.0.0.0"@[i] == '0' || "0.0.0.0"@[i] == '.');
        }
    }
    match output {
        Some(b) => {
            let token = spec_first_token(b);
            lemma_skip_spaces_len(b);
            lemma_take_token_len(spec_skip_spaces(b));
            if token.len() > 0 && ascii_bytes(token) {
                let mapped = token.map_values(|x: u8| x as char);
                assert forall|i: int| 0 <= i < mapped.len() implies '\0' <= #[trigger] mapped[i]
                    <= '\u{7f}' by {
                    assert(mapped[i] == token[i] as char);
                    assert(token[i] < 128);
                }
            }
        },
        None => {},
    }
}

/// The character count of an ASCII string.
pub(crate) fn ascii_len(s: &String) -> (r: usize)
    requires
        is_ascii_chars(s@),
    ensures
        r == s@.len(),
{
    let st: &str = s.as_str();
    let b: &[u8] = st.as_bytes();
    proof {
        vstd::string::is_ascii_spec_bytes(st);
    }
    b.len()
}

// ---------------------------------------------------------------------
// One tick's statistics
// ---------------------------------------------------------------------

/// Builds the statistics of one tick from the raw readings: the address
/// token from the hostname query output, the parsed temperature, and the
/// percentages rendered with one decimal digit. The disk share arrives
/// already computed because it is cached across ticks.
pub fn gather_stats(
    ip_output: &Option<Vec<u8>>,
    temp_contents: &Option<Vec<u8>>,
    cpu_usage_tenths: u64,
    total_memory: u64,
    used_memory: u64,
    disk_usage_tenths: u64,
) -> (stats: SystemStats)
    requires
        cpu_usage_tenths <= 1000,
        disk_usage_tenths <= 1000,
    ensures
        stats.ip_address@ == spec_ip_address(opt_bytes(*ip_output)),
        stats.cpu_usage@ == spec_tenths_string(cpu_usage_tenths as nat),
        stats.cpu_temp as int == spec_parse_temp(opt_bytes(*temp_contents)),
        stats.cpu_temp_str@ == spec_temp_string(stats.cpu_temp as int),
        stats.ram_usage@ == spec_tenths_string(
            spec_percent_tenths(used_memory, total_memory) as nat,
        ),
        stats.disk_usage@ == spec_tenths_string(disk_usage_tenths as nat),
        is_ascii_chars(stats.ip_address@),
        is_ascii_chars(stats.cpu_usage@),
        is_ascii_chars(stats.cpu_temp_str@),
        is_ascii_chars(stats.ram_usage@),
        is_ascii_chars(stats.disk_usage@),
        stats.ip_address@.len() <= (match opt_bytes(*ip_output) {
            Some(b) => if b.len() > 7 {
                b.len() as int
            } else {
                7
            },
            None => 7,
        }),
        stats.cpu_usage@.len() <= 5,
        stats.cpu_temp_str@.len() <= 11,
        stats.ram_usage@.len() <= 5,
        stats.disk_usage@.len() <= 5,
{
    let ip_address = get_ip_address(ip_output);
    let cpu_temp = get_cpu_temperature(temp_contents);
    let ram_tenths = get_ram_usage(total_memory, used_memory);
    proof {
        lemma_ip_address_props(opt_bytes(*ip_output));
        lemma_tenths_string_props(cpu_usage_tenths as nat);
        lemma_temp_string_props(cpu_temp as int);
        lemma_tenths_string_props(ram_tenths as nat);
        lemma_tenths_string_props(disk_usage_tenths as nat);
    }
    SystemStats {
        ip_address,
        cpu_usage: format_tenths(cpu_usage_tenths),
        cpu_temp,
        cpu_temp_str: format_temp(cpu_temp),
        ram_usage: format_tenths(ram_tenths),
        disk_usage: format_tenths(disk_usage_tenths),
    }
}

} // verus!
