//! Formatting and validation helpers: durations, byte counts, ports, URLs
//! and file names.

use vstd::prelude::*;
use vstd::string::StringExecFns;
use crate::decimal::{decimal_digits, push_char, push_decimal};
use crate::text::{starts_with, trim_bounds, trimmed, CharClass};

verus! {

/// A port number is valid when it is not zero.
pub fn is_valid_port(port: u16) -> (valid: bool)
    ensures
        valid == (port > 0),
{
    port > 0
}

/// A URL is accepted when it names the `http` or the `https` scheme.
pub open spec fn url_is_valid(url: Seq<char>) -> bool {
    "http://"@.is_prefix_of(url) || "https://"@.is_prefix_of(url)
}

/// Tests whether `url` names the `http` or the `https` scheme.
pub fn is_valid_url(url: &str) -> (valid: bool)
    ensures
        valid == url_is_valid(url@),
{
    starts_with(url, "http://") || starts_with(url, "https://")
}

/// A duration in seconds, shown in its two largest units: seconds alone
/// under a minute, then minutes and seconds, hours and minutes, days and
/// hours. A second unit that would be zero is left out.
pub open spec fn duration_text(seconds: nat) -> Seq<char> {
    if seconds < 60 {
        decimal_digits(seconds) + "s"@
    } else if seconds < 3600 {
        if seconds % 60 == 0 {
            decimal_digits(seconds / 60) + "m"@
        } else {
            decimal_digits(seconds / 60) + "m "@ + decimal_digits(seconds % 60) + "s"@
        }
    } else if seconds < 86400 {
        if (seconds % 3600) / 60 == 0 {
            decimal_digits(seconds / 3600) + "h"@
        } else {
            decimal_digits(seconds / 3600) + "h "@ + decimal_digits((seconds % 3600) / 60) + "m"@
        }
    } else {
        if (seconds % 86400) / 3600 == 0 {
            decimal_digits(seconds / 86400) + "d"@
        } else {
            decimal_digits(seconds / 86400) + "d "@ + decimal_digits((seconds % 86400) / 3600)
                + "h"@
        }
    }
}

fn two_units(
    first: u64,
    first_unit: &str,
    first_unit_spaced: &str,
    second: u64,
    second_unit: &str,
) -> (s: String)
    ensures
        s@ == if second == 0 {
            decimal_digits(first as nat) + first_unit@
        } else {
            decimal_digits(first as nat) + first_unit_spaced@ + decimal_digits(second as nat)
                + second_unit@
        },
{
    let mut s = String::new();
    push_decimal(&mut s, first);
    if second == 0 {
        s.append(first_unit);
        assert(s@ =~= decimal_digits(first as nat) + first_unit@);
    } else {
        s.append(first_unit_spaced);
        push_decimal(&mut s, second);
        s.append(second_unit);
        assert(s@ =~= decimal_digits(first as nat) + first_unit_spaced@ + decimal_digits(
            second as nat,
        ) + second_unit@);
    }
    s
}

/// Writes a duration in seconds in its two largest units.
pub fn format_duration(seconds: u64) -> (text: String)
    ensures
        text@ == duration_text(seconds as nat),
{
    if seconds < 60 {
        two_units(seconds, "s", "s", 0, "")
    } else if seconds < 3600 {
        two_units(seconds / 60, "m", "m ", seconds % 60, "s")
    } else if seconds < 86400 {
        two_units(seconds / 3600, "h", "h ", (seconds % 3600) / 60, "m")
    } else {
        two_units(seconds / 86400, "d", "d ", (seconds % 86400) / 3600, "h")
    }
}


/// The gap between neighbouring binary64 numbers at the size of `n`: one
/// up to fifty-three bits, and twice as much with every bit beyond.
pub open spec fn double_spacing(n: nat) -> nat
    decreases n,
{
    if n < 0x20_0000_0000_0000 {
        1
    } else {
        2 * double_spacing(n / 2)
    }
}

/// `n` rounded to the nearest multiple of `step`; halfway between two
/// multiples, the even one is taken.
pub open spec fn round_to_multiple(n: nat, step: nat) -> nat
    recommends
        step > 0,
{
    let rem = n % step;
    if 2 * rem > step || (2 * rem == step && (n / step) % 2 == 1) {
        (n - rem + step) as nat
    } else {
        (n - rem) as nat
    }
}

/// The size in bytes of the unit in which a count of at least 1024 bytes
/// is shown: the largest of KB, MB, GB and TB that the count reaches.
pub open spec fn unit_size(bytes: nat) -> nat {
    if bytes < 0x10_0000 {
        0x400
    } else if bytes < 0x4000_0000 {
        0x10_0000
    } else if bytes < 0x100_0000_0000 {
        0x4000_0000
    } else {
        0x100_0000_0000
    }
}

/// The name of that unit.
pub open spec fn unit_name(bytes: nat) -> Seq<char> {
    if bytes < 0x10_0000 {
        "KB"@
    } else if bytes < 0x4000_0000 {
        "MB"@
    } else if bytes < 0x100_0000_0000 {
        "GB"@
    } else {
        "TB"@
    }
}

/// How many tenths of its unit a count of at least 1024 bytes is shown as:
/// the count is first taken to the nearest binary64 number, then divided by
/// the unit and rounded to one decimal place, ties going to the even digit.
pub open spec fn unit_tenths(bytes: nat) -> nat {
    let nearest = round_to_multiple(bytes, double_spacing(bytes));
    round_to_multiple(10 * nearest, unit_size(bytes)) / unit_size(bytes)
}

/// A byte count as text: the plain number below 1024, and otherwise the
/// number of units with one decimal place.
pub open spec fn bytes_text(bytes: nat) -> Seq<char> {
    if bytes < 1024 {
        decimal_digits(bytes) + " B"@
    } else {
        decimal_digits(unit_tenths(bytes) / 10) + "."@ + decimal_digits(unit_tenths(bytes) % 10)
            + " "@ + unit_name(bytes)
    }
}

fn spacing_of(n: u64) -> (gap: u64)
    ensures
        gap == double_spacing(n as nat),
        1 <= gap < 4096,
        gap == 1 || gap * 0x10_0000_0000_0000 <= n,
    decreases n,
{
    if n < 0x20_0000_0000_0000 {
        1
    } else {
        2 * spacing_of(n / 2)
    }
}

fn round_to(n: u128, step: u128) -> (r: u128)
    requires
        step > 0,
        n + step <= u128::MAX,
    ensures
        r == round_to_multiple(n as nat, step as nat),
        r <= n + step,
{
    let rem = n % step;
    let odd = (n / step) % 2 == 1;
    proof {
        vstd::arithmetic::div_mod::lemma_fundamental_div_mod(n as int, step as int);
        vstd::arithmetic::div_mod::lemma_div_pos_is_pos(n as int, step as int);
        assert(step * (n / step) >= 0) by (nonlinear_arith)
            requires
                step > 0,
                n / step >= 0,
        ;
    }
    if rem > step - rem || (rem == step - rem && odd) {
        n - rem + step
    } else {
        n - rem
    }
}

fn push_tenths(text: &mut String, tenths: u128, unit: &str)
    requires
        tenths <= 0xffff_ffff_ffff_ffff,
    ensures
        final(text)@ == old(text)@ + decimal_digits(tenths as nat / 10) + "."@ + decimal_digits(
            tenths as nat % 10,
        ) + " "@ + unit@,
{
    push_decimal(text, (tenths / 10) as u64);
    text.append(".");
    push_decimal(text, (tenths % 10) as u64);
    text.append(" ");
    text.append(unit);
}

/// Writes a byte count in the largest unit it reaches, with one decimal
/// place. The arithmetic is done on integers throughout.
pub fn format_bytes(bytes: u64) -> (text: String)
    ensures
        text@ == bytes_text(bytes as nat),
{
    let mut text = String::new();
    if bytes < 1024 {
        push_decimal(&mut text, bytes);
        text.append(" B");
        assert(text@ =~= decimal_digits(bytes as nat) + " B"@);
        return text;
    }
    let gap = spacing_of(bytes);
    let nearest = round_to(bytes as u128, gap as u128);
    let scaled: u128 = 10 * nearest;
    if bytes < 0x10_0000 {
        push_tenths(&mut text, round_to(scaled, 0x400) / 0x400, "KB");
    } else if bytes < 0x4000_0000 {
        push_tenths(&mut text, round_to(scaled, 0x10_0000) / 0x10_0000, "MB");
    } else if bytes < 0x100_0000_0000 {
        push_tenths(&mut text, round_to(scaled, 0x4000_0000) / 0x4000_0000, "GB");
    } else {
        push_tenths(&mut text, round_to(scaled, 0x100_0000_0000) / 0x100_0000_0000, "TB");
    }
    assert(text@ =~= bytes_text(bytes as nat));
    text
}

/// The characters that a file name may not hold on some platform.
pub open spec fn is_reserved_char(c: char) -> bool {
    c == '<' || c == '>' || c == ':' || c == '"' || c == '/' || c == '\\' || c == '|' || c == '?'
        || c == '*'
}

/// The control codes: the code points below the space, and from the
/// delete character through the end of the second control block.
pub open spec fn is_control_char(c: char) -> bool {
    (c as u32) < 0x20 || (0x7f <= (c as u32) && (c as u32) <= 0x9f)
}

/// What a character of a file name becomes: an underscore for a reserved
/// character or a control code, itself otherwise.
pub open spec fn sanitized_char(c: char) -> char {
    if is_reserved_char(c) || is_control_char(c) {
        '_'
    } else {
        c
    }
}

/// A file name made safe: every character replaced by its sanitized form,
/// then the dots at both ends removed.
pub open spec fn sanitized_name(name: Seq<char>) -> Seq<char> {
    trimmed(name.map_values(|c: char| sanitized_char(c)), CharClass::Dot)
}

fn sanitize_char(c: char) -> (r: char)
    ensures
        r == sanitized_char(c),
{
    let code: u32 = c as u32;
    if c == '<' || c == '>' || c == ':' || c == '"' || c == '/' || c == '\\' || c == '|' || c
        == '?' || c == '*' {
        '_'
    } else if code < 0x20 || (0x7f <= code && code <= 0x9f) {
        '_'
    } else {
        c
    }
}

/// Makes a file name safe on every platform.
pub fn sanitize_filename(filename: &str) -> (text: String)
    ensures
        text@ == sanitized_name(filename@),
{
    let mut mapped: Vec<char> = Vec::new();
    for c in it: filename.chars()
        invariant
            it.seq() == filename@,
            mapped@ == filename@.take(it.index()).map_values(|c: char| sanitized_char(c)),
    {
        let r = sanitize_char(c);
        mapped.push(r);
        assert(mapped@ =~= filename@.take(it.index() + 1).map_values(
            |c: char| sanitized_char(c),
        ));
    }
    assert(filename@.take(filename@.len() as int) =~= filename@);
    let (start, end) = trim_bounds(&mapped, 0, mapped.len(), CharClass::Dot);
    assert(mapped@.subrange(0, mapped@.len() as int) =~= mapped@);
    let mut text = String::new();
    let mut i: usize = start;
    while i < end
        invariant
            start <= i <= end <= mapped.len(),
            text@ == mapped@.subrange(start as int, i as int),
        decreases end - i,
    {
        push_char(&mut text, mapped[i]);
        assert(text@ =~= mapped@.subrange(start as int, i + 1));
        i = i + 1;
    }
    text
}

} // verus!
