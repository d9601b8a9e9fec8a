//! Reading the process listings of the operating system's tools: one
//! process id per line, or a table of comma-separated values.

use vstd::prelude::*;
use vstd::string::StringExecFns;
use crate::decimal::{decimal_digits, decimal_string};
use crate::text::{
    chars_of, find_char, first_index, texts, trim_bounds, trimmed, CharClass,
};

verus! {

/// Whether `c` is a decimal digit.
pub open spec fn is_digit(c: char) -> bool {
    '0' as u32 <= c as u32 && c as u32 <= '9' as u32
}

/// The value of a text of decimal digits.
pub open spec fn digits_value(s: Seq<char>) -> nat
    decreases s.len(),
{
    if s.len() == 0 {
        0
    } else {
        digits_value(s.drop_last()) * 10 + (s.last() as u32 - '0' as u32) as nat
    }
}

/// Whether `s` holds digits only.
pub open spec fn all_digits(s: Seq<char>) -> bool {
    forall|i: int| 0 <= i < s.len() ==> is_digit(#[trigger] s[i])
}

/// The number that a text stands for: one or more decimal digits, after an
/// optional plus sign, whose value fits 32 bits. Any other text stands for
/// none.
pub open spec fn parsed_u32(s: Seq<char>) -> Option<u32> {
    if s.len() > 0 && s[0] == '+' {
        parsed_digits(s.drop_first())
    } else {
        parsed_digits(s)
    }
}

/// The number that a text without a sign stands for.
pub open spec fn parsed_digits(digits: Seq<char>) -> Option<u32> {
    if digits.len() > 0 && all_digits(digits) && digits_value(digits) <= u32::MAX {
        Some(digits_value(digits) as u32)
    } else {
        None
    }
}

/// The layout of a process listing.
#[derive(Debug, Clone, Copy, PartialEq, Eq, Structural)]
pub enum ListFormat {
    /// One process id on each line.
    PidPerLine,
    /// Comma-separated values under a header line, the process id in the
    /// second column, in quotation marks.
    Csv,
}

/// The second of the comma-separated fields of a line, if it has two.
pub open spec fn second_field(line: Seq<char>) -> Option<Seq<char>> {
    let comma = first_index(line, ',');
    if comma == line.len() {
        None
    } else {
        let rest = line.skip(comma + 1);
        Some(rest.take(first_index(rest, ',')))
    }
}

/// The process id that a line holds: none or one.
pub open spec fn line_pid(line: Seq<char>, format: ListFormat) -> Seq<u32> {
    let number = match format {
        ListFormat::PidPerLine => parsed_u32(trimmed(line, CharClass::Whitespace)),
        ListFormat::Csv => match second_field(line) {
            Some(field) => parsed_u32(trimmed(field, CharClass::Quote)),
            None => None,
        },
    };
    match number {
        Some(pid) => seq![pid],
        None => Seq::empty(),
    }
}

/// The first line of a text whose first newline stands at `newline`: what
/// precedes the newline, without a carriage return right before it.
pub open spec fn first_line(text: Seq<char>, newline: int) -> Seq<char> {
    if 0 < newline < text.len() && text[newline - 1] == '\r' {
        text.take(newline - 1)
    } else {
        text.take(newline)
    }
}

/// The process ids on the lines of a text, in order. A newline ends a line;
/// after the last newline no further line begins unless text follows.
pub open spec fn line_pids(text: Seq<char>, format: ListFormat) -> Seq<u32>
    decreases text.len(),
{
    if text.len() == 0 {
        Seq::empty()
    } else {
        let newline = first_index(text, '\n');
        let head = line_pid(first_line(text, newline), format);
        if 0 <= newline < text.len() {
            head + line_pids(text.skip(newline + 1), format)
        } else {
            head
        }
    }
}

/// The process ids of a listing: those on all of its lines, or, under a
/// header line, on all the lines after it.
pub open spec fn listed_pids(text: Seq<char>, format: ListFormat) -> Seq<u32> {
    match format {
        ListFormat::PidPerLine => line_pids(text, format),
        ListFormat::Csv => {
            let newline = first_index(text, '\n');
            if 0 <= newline < text.len() {
                line_pids(text.skip(newline + 1), format)
            } else {
                Seq::empty()
            }
        },
    }
}

proof fn lemma_digits_value_grows(s: Seq<char>, k: int)
    requires
        0 <= k <= s.len(),
    ensures
        digits_value(s.take(k)) <= digits_value(s),
    decreases s.len(),
{
    if k == s.len() {
        assert(s.take(k) =~= s);
    } else {
        lemma_digits_value_grows(s.drop_last(), k);
        assert(s.drop_last().take(k) =~= s.take(k));
    }
}

/// Reads the number in the part of `chars` from `from` up to `to`.
pub fn parse_u32(chars: &Vec<char>, from: usize, to: usize) -> (number: Option<u32>)
    requires
        from <= to <= chars.len(),
    ensures
        number == parsed_u32(chars@.subrange(from as int, to as int)),
{
    let ghost part = chars@.subrange(from as int, to as int);
    let mut first: usize = from;
    if from < to && chars[from] == '+' {
        first = from + 1;
    }
    let ghost digits = chars@.subrange(first as int, to as int);
    proof {
        if first == from + 1 {
            assert(part[0] == '+');
            assert(part.drop_first() =~= digits);
        } else if from < to {
            assert(part[0] != '+');
        }
    }
    assert(parsed_u32(part) == parsed_digits(digits));
    if first == to {
        return None;
    }
    let mut value: u32 = 0;
    let mut i: usize = first;
    while i < to
        invariant
            first <= i <= to <= chars.len(),
            digits == chars@.subrange(first as int, to as int),
            parsed_u32(chars@.subrange(from as int, to as int)) == parsed_digits(digits),
            all_digits(digits.take(i - first)),
            value == digits_value(digits.take(i - first)),
        decreases to - i,
    {
        let code: u32 = chars[i] as u32;
        proof {
            assert(digits.take(i - first + 1).drop_last() =~= digits.take(i - first));
            assert(digits.take(i - first + 1).last() == chars@[i as int]);
            assert(digits[i - first] == chars@[i as int]);
        }
        if code < 48 || code > 57 {
            assert(!is_digit(digits[i - first]));
            return None;
        }
        assert(is_digit(chars@[i as int]));
        let digit: u32 = code - 48;
        if value > (u32::MAX - digit) / 10 {
            proof {
                lemma_digits_value_grows(digits, i - first + 1);
            }
            return None;
        }
        value = value * 10 + digit;
        proof {
            let longer = digits.take(i - first + 1);
            assert forall|j: int| 0 <= j < longer.len() implies is_digit(#[trigger] longer[j]) by {
                if j < i - first {
                    assert(longer[j] == digits.take(i - first)[j]);
                }
            }
        }
        i = i + 1;
    }
    assert(digits.take(digits.len() as int) =~= digits);
    Some(value)
}

fn push_line_pid(pids: &mut Vec<u32>, chars: &Vec<char>, from: usize, to: usize, format: ListFormat)
    requires
        from <= to <= chars.len(),
    ensures
        final(pids)@ == old(pids)@ + line_pid(chars@.subrange(from as int, to as int), format),
{
    let ghost line = chars@.subrange(from as int, to as int);
    let number = match format {
        ListFormat::PidPerLine => {
            let (start, end) = trim_bounds(chars, from, to, CharClass::Whitespace);
            parse_u32(chars, start, end)
        },
        ListFormat::Csv => {
            let comma = find_char(chars, from, to, ',');
            if comma == to {
                None
            } else {
                let next = find_char(chars, comma + 1, to, ',');
                proof {
                    let rest = line.skip(comma - from + 1);
                    assert(rest =~= chars@.subrange(comma + 1, to as int));
                    assert(rest.take(next - comma - 1) =~= chars@.subrange(
                        comma + 1,
                        next as int,
                    ));
                }
                let (start, end) = trim_bounds(chars, comma + 1, next, CharClass::Quote);
                parse_u32(chars, start, end)
            }
        },
    };
    match number {
        Some(pid) => {
            pids.push(pid);
            assert(final(pids)@ =~= old(pids)@ + seq![pid]);
        },
        None => {
            assert(final(pids)@ =~= old(pids)@ + Seq::<u32>::empty());
        },
    }
}

fn push_line_pids(pids: &mut Vec<u32>, chars: &Vec<char>, from: usize, format: ListFormat)
    requires
        from <= chars.len(),
    ensures
        final(pids)@ == old(pids)@ + line_pids(chars@.skip(from as int), format),
{
    let len = chars.len();
    let mut at: usize = from;
    while at < len
        invariant
            from <= at <= len,
            len == chars.len(),
            pids@ + line_pids(chars@.skip(at as int), format) == old(pids)@ + line_pids(
                chars@.skip(from as int),
                format,
            ),
        decreases len - at,
    {
        let ghost text = chars@.skip(at as int);
        let ghost before = pids@;
        let newline = find_char(chars, at, len, '\n');
        assert(chars@.subrange(at as int, len as int) =~= text);
        let end = if newline < len && newline > at && chars[newline - 1] == '\r' {
            newline - 1
        } else {
            newline
        };
        proof {
            if 0 < newline - at < text.len() {
                assert(text[newline - at - 1] == chars@[newline - 1]);
            }
            assert(chars@.subrange(at as int, end as int) =~= first_line(text, newline - at));
        }
        push_line_pid(pids, chars, at, end, format);
        if newline < len {
            proof {
                assert(text.skip(newline - at + 1) =~= chars@.skip(newline + 1));
                assert(pids@ + line_pids(chars@.skip(newline + 1), format) =~= before + line_pids(
                    text,
                    format,
                ));
            }
            at = newline + 1;
        } else {
            proof {
                assert(chars@.skip(len as int) =~= Seq::<char>::empty());
                assert(pids@ + line_pids(chars@.skip(len as int), format) =~= before + line_pids(
                    text,
                    format,
                ));
            }
            at = len;
        }
    }
    assert(chars@.skip(len as int) =~= Seq::<char>::empty());
    assert(pids@ =~= old(pids)@ + line_pids(chars@.skip(from as int), format));
}

/// Reads the process ids out of a process listing. A line that holds no
/// number where the format has the process id is passed over.
pub fn parse_process_list(output: &str, format: ListFormat) -> (pids: Vec<u32>)
    ensures
        pids@ == listed_pids(output@, format),
{
    let chars = chars_of(output);
    let mut pids: Vec<u32> = Vec::new();
    assert(chars@.skip(0) =~= chars@);
    match format {
        ListFormat::PidPerLine => {
            push_line_pids(&mut pids, &chars, 0, format);
        },
        ListFormat::Csv => {
            let newline = find_char(&chars, 0, chars.len(), '\n');
            assert(chars@.subrange(0, chars@.len() as int) =~= chars@);
            if newline < chars.len() {
                push_line_pids(&mut pids, &chars, newline + 1, format);
            }
        },
    }
    assert(pids@ =~= listed_pids(output@, format));
    pids
}

/// A call of one of the operating system's tools.
#[derive(Debug)]
pub struct ToolCommand {
    pub program: String,
    pub args: Vec<String>,
}

/// The program that ends a process by force.
pub open spec fn kill_program(windows: bool) -> Seq<char> {
    if windows {
        "taskkill"@
    } else {
        "kill"@
    }
}

/// The arguments with which that program ends the process `pid`.
pub open spec fn kill_args(pid: u32, windows: bool) -> Seq<Seq<char>> {
    if windows {
        seq!["/F"@, "/PID"@, decimal_digits(pid as nat)]
    } else {
        seq!["-9"@, decimal_digits(pid as nat)]
    }
}

/// The call that ends the process `pid` by force.
pub fn kill_command(pid: u32, windows: bool) -> (command: ToolCommand)
    ensures
        command.program@ == kill_program(windows),
        texts(command.args@) == kill_args(pid, windows),
{
    let mut args: Vec<String> = Vec::new();
    let program = if windows {
        args.push(String::from_str("/F"));
        args.push(String::from_str("/PID"));
        String::from_str("taskkill")
    } else {
        args.push(String::from_str("-9"));
        String::from_str("kill")
    };
    args.push(decimal_string(pid as u64));
    assert(texts(args@) =~= kill_args(pid, windows));
    ToolCommand { program, args }
}

/// The program that lists processes.
pub open spec fn list_program(windows: bool) -> Seq<char> {
    if windows {
        "tasklist"@
    } else {
        "pgrep"@
    }
}

/// The arguments with which that program lists the processes called
/// `name`.
pub open spec fn list_args(name: Seq<char>, windows: bool) -> Seq<Seq<char>> {
    if windows {
        seq!["/FI"@, "IMAGENAME eq "@ + name, "/FO"@, "CSV"@]
    } else {
        seq![name]
    }
}

/// The layout in which that program lists them.
pub open spec fn list_format(windows: bool) -> ListFormat {
    if windows {
        ListFormat::Csv
    } else {
        ListFormat::PidPerLine
    }
}

/// The call that lists the processes called `name`, and the layout of what
/// it prints.
pub fn list_command(name: &str, windows: bool) -> (call: (ToolCommand, ListFormat))
    ensures
        call.0.program@ == list_program(windows),
        texts(call.0.args@) == list_args(name@, windows),
        call.1 == list_format(windows),
{
    let mut args: Vec<String> = Vec::new();
    if windows {
        let mut filter = String::from_str("IMAGENAME eq ");
        filter.append(name);
        args.push(String::from_str("/FI"));
        args.push(filter);
        args.push(String::from_str("/FO"));
        args.push(String::from_str("CSV"));
        assert(texts(args@) =~= list_args(name@, windows));
        (ToolCommand { program: String::from_str("tasklist"), args }, ListFormat::Csv)
    } else {
        args.push(String::from_str(name));
        assert(texts(args@) =~= list_args(name@, windows));
        (ToolCommand { program: String::from_str("pgrep"), args }, ListFormat::PidPerLine)
    }
}

} // verus!
