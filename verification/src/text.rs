//! Trimming: removing from both ends of a text the characters of a class.

use vstd::prelude::*;

verus! {

/// The classes of characters that are trimmed somewhere in this library.
#[derive(Debug, Clone, Copy, PartialEq, Eq, Structural)]
pub enum CharClass {
    /// The full stop.
    Dot,
    /// The double quotation mark.
    Quote,
    /// The characters with the Unicode property `White_Space`.
    Whitespace,
}

/// The characters with the Unicode property `White_Space`.
pub open spec fn is_whitespace_char(c: char) -> bool {
    let u = c as u32;
    (0x09 <= u && u <= 0x0d) || u == 0x20 || u == 0x85 || u == 0xa0 || u == 0x1680 || (0x2000 <= u
        && u <= 0x200a) || u == 0x2028 || u == 0x2029 || u == 0x202f || u == 0x205f || u == 0x3000
}

/// Whether `c` belongs to `class`.
pub open spec fn in_class(class: CharClass, c: char) -> bool {
    match class {
        CharClass::Dot => c == '.',
        CharClass::Quote => c == '"',
        CharClass::Whitespace => is_whitespace_char(c),
    }
}

/// How many characters of `class` stand at the start of `s`.
pub open spec fn leading_run(s: Seq<char>, class: CharClass) -> nat
    decreases s.len(),
{
    if s.len() > 0 && in_class(class, s[0]) {
        1 + leading_run(s.drop_first(), class)
    } else {
        0
    }
}

/// How many characters of `class` stand at the end of `s`.
pub open spec fn trailing_run(s: Seq<char>, class: CharClass) -> nat
    decreases s.len(),
{
    if s.len() > 0 && in_class(class, s.last()) {
        1 + trailing_run(s.drop_last(), class)
    } else {
        0
    }
}

/// `s` without the characters of `class` at its start and at its end.
pub open spec fn trimmed(s: Seq<char>, class: CharClass) -> Seq<char> {
    if leading_run(s, class) == s.len() {
        Seq::empty()
    } else {
        s.subrange(leading_run(s, class) as int, s.len() - trailing_run(s, class))
    }
}

/// Tests whether `c` belongs to `class`.
pub fn is_in_class(class: CharClass, c: char) -> (member: bool)
    ensures
        member == in_class(class, c),
{
    match class {
        CharClass::Dot => c == '.',
        CharClass::Quote => c == '"',
        CharClass::Whitespace => {
            let u: u32 = c as u32;
            (0x09 <= u && u <= 0x0d) || u == 0x20 || u == 0x85 || u == 0xa0 || u == 0x1680 || (
            0x2000 <= u && u <= 0x200a) || u == 0x2028 || u == 0x2029 || u == 0x202f || u
                == 0x205f || u == 0x3000
        },
    }
}

proof fn lemma_leading_run_step(s: Seq<char>, class: CharClass, from: int)
    requires
        0 <= from < s.len(),
        in_class(class, s[from]),
    ensures
        leading_run(s.subrange(from, s.len() as int), class) == 1 + leading_run(
            s.subrange(from + 1, s.len() as int),
            class,
        ),
{
    let tail = s.subrange(from, s.len() as int);
    assert(tail.drop_first() =~= s.subrange(from + 1, s.len() as int));
}

proof fn lemma_trailing_run_step(s: Seq<char>, class: CharClass, to: int)
    requires
        0 < to <= s.len(),
        in_class(class, s[to - 1]),
    ensures
        trailing_run(s.subrange(0, to), class) == 1 + trailing_run(s.subrange(0, to - 1), class),
{
    let head = s.subrange(0, to);
    assert(head.drop_last() =~= s.subrange(0, to - 1));
}

/// Trims the part of `chars` from `from` up to `to`: returns the bounds of
/// what is left of it.
pub fn trim_bounds(chars: &Vec<char>, from: usize, to: usize, class: CharClass) -> (bounds: (
    usize,
    usize,
))
    requires
        from <= to <= chars.len(),
    ensures
        from <= bounds.0 <= bounds.1 <= to,
        chars@.subrange(bounds.0 as int, bounds.1 as int) == trimmed(
            chars@.subrange(from as int, to as int),
            class,
        ),
{
    let ghost part = chars@.subrange(from as int, to as int);
    let mut start: usize = from;
    assert(part.subrange(0, part.len() as int) =~= part);
    while start < to && is_in_class(class, chars[start])
        invariant
            from <= start <= to <= chars.len(),
            part == chars@.subrange(from as int, to as int),
            leading_run(part, class) == (start - from) + leading_run(
                part.subrange(start - from, part.len() as int),
                class,
            ),
        decreases to - start,
    {
        proof {
            lemma_leading_run_step(part, class, start - from);
        }
        start = start + 1;
    }
    if start == to {
        assert(chars@.subrange(start as int, start as int) =~= Seq::<char>::empty());
        return (start, start);
    }
    assert(part.subrange(start - from, part.len() as int)[0] == part[start - from]);
    let mut end: usize = to;
    while is_in_class(class, chars[end - 1])
        invariant
            from <= start < end <= to <= chars.len(),
            part == chars@.subrange(from as int, to as int),
            !in_class(class, chars@[start as int]),
            trailing_run(part, class) == (to - end) + trailing_run(
                part.subrange(0, end - from),
                class,
            ),
        decreases end,
    {
        proof {
            lemma_trailing_run_step(part, class, end - from);
        }
        end = end - 1;
    }
    assert(part.subrange(0, end - from).last() == part[end - from - 1]);
    assert(chars@.subrange(start as int, end as int) =~= part.subrange(
        start - from,
        end - from,
    ));
    (start, end)
}

/// The place of the first `c` in `s`, or the length of `s` where it holds
/// none.
pub open spec fn first_index(s: Seq<char>, c: char) -> int
    decreases s.len(),
{
    if s.len() == 0 || s[0] == c {
        0
    } else {
        1 + first_index(s.drop_first(), c)
    }
}

/// Finds the first `c` in the part of `chars` from `from` up to `to`.
pub fn find_char(chars: &Vec<char>, from: usize, to: usize, c: char) -> (at: usize)
    requires
        from <= to <= chars.len(),
    ensures
        from <= at <= to,
        at - from == first_index(chars@.subrange(from as int, to as int), c),
        at < to ==> chars@[at as int] == c,
{
    let ghost part = chars@.subrange(from as int, to as int);
    let mut at: usize = from;
    assert(part.subrange(0, part.len() as int) =~= part);
    while at < to && chars[at] != c
        invariant
            from <= at <= to <= chars.len(),
            part == chars@.subrange(from as int, to as int),
            first_index(part, c) == (at - from) + first_index(
                part.subrange(at - from, part.len() as int),
                c,
            ),
        decreases to - at,
    {
        proof {
            let tail = part.subrange(at - from, part.len() as int);
            assert(tail[0] == chars@[at as int]);
            assert(tail.drop_first() =~= part.subrange(at - from + 1, part.len() as int));
        }
        at = at + 1;
    }
    proof {
        let tail = part.subrange(at - from, part.len() as int);
        if at < to {
            assert(tail[0] == chars@[at as int]);
        }
    }
    at
}

/// The characters of a string, in order.
pub fn chars_of(text: &str) -> (chars: Vec<char>)
    ensures
        chars@ == text@,
{
    let mut chars: Vec<char> = Vec::new();
    for c in it: text.chars()
        invariant
            it.seq() == text@,
            chars@ == text@.take(it.index()),
    {
        chars.push(c);
        assert(chars@ =~= text@.take(it.index() + 1));
    }
    assert(text@.take(text@.len() as int) =~= text@);
    chars
}

/// A list of strings as plain values.
pub open spec fn texts(v: Seq<String>) -> Seq<Seq<char>> {
    v.map_values(|s: String| s@)
}

/// A list of pairs of strings as plain values.
pub open spec fn text_pairs(v: Seq<(String, String)>) -> Seq<(Seq<char>, Seq<char>)> {
    v.map_values(|p: (String, String)| (p.0@, p.1@))
}

/// Tests whether two strings hold the same characters.
pub fn text_equals(a: &str, b: &str) -> (same: bool)
    ensures
        same == (a@ == b@),
{
    let left = chars_of(a);
    let right = chars_of(b);
    if left.len() != right.len() {
        return false;
    }
    let mut i: usize = 0;
    while i < left.len()
        invariant
            i <= left.len(),
            left.len() == right.len(),
            left@ == a@,
            right@ == b@,
            forall|j: int| 0 <= j < i ==> left@[j] == right@[j],
        decreases left.len() - i,
    {
        if left[i] != right[i] {
            return false;
        }
        i = i + 1;
    }
    assert(a@ =~= b@);
    true
}

/// Tests whether `text` begins with `prefix`.
pub fn starts_with(text: &str, prefix: &str) -> (found: bool)
    ensures
        found == prefix@.is_prefix_of(text@),
{
    let whole = chars_of(text);
    let wanted = chars_of(prefix);
    if wanted.len() > whole.len() {
        return false;
    }
    let mut i: usize = 0;
    while i < wanted.len()
        invariant
            i <= wanted.len() <= whole.len(),
            whole@ == text@,
            wanted@ == prefix@,
            forall|j: int| 0 <= j < i ==> whole@[j] == wanted@[j],
        decreases wanted.len() - i,
    {
        if whole[i] != wanted[i] {
            assert(text@.subrange(0, prefix@.len() as int)[i as int] != prefix@[i as int]);
            return false;
        }
        i = i + 1;
    }
    assert(prefix@ =~= text@.subrange(0, prefix@.len() as int));
    true
}

} // verus!
