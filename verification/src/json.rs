//! JSON string rendering: the escaping rules for one character, the exact
//! character sequence of a JSON string literal, and of a JSON array of
//! strings, together with executable writers proved against them.
//!
//! Escaping follows the common JSON convention: `"` and `\` get a backslash,
//! the named control characters become `\b`, `\t`, `\n`, `\f`, `\r`, every
//! other control character below U+0020 becomes `\u00` followed by two
//! lowercase hex digits, and everything else is kept as it is.

use crate::text::push_char;
use vstd::prelude::*;

verus! {

/// One lowercase hexadecimal digit.
pub open spec fn hex_digit(v: int) -> char {
    if v == 0 {
        '0'
    } else if v == 1 {
        '1'
    } else if v == 2 {
        '2'
    } else if v == 3 {
        '3'
    } else if v == 4 {
        '4'
    } else if v == 5 {
        '5'
    } else if v == 6 {
        '6'
    } else if v == 7 {
        '7'
    } else if v == 8 {
        '8'
    } else if v == 9 {
        '9'
    } else if v == 10 {
        'a'
    } else if v == 11 {
        'b'
    } else if v == 12 {
        'c'
    } else if v == 13 {
        'd'
    } else if v == 14 {
        'e'
    } else {
        'f'
    }
}

/// How one character appears inside a JSON string literal.
pub open spec fn escape_char(c: char) -> Seq<char> {
    let u = c as u32;
    if c == '"' {
        seq!['\\', '"']
    } else if c == '\\' {
        seq!['\\', '\\']
    } else if u == 0x08 {
        seq!['\\', 'b']
    } else if u == 0x09 {
        seq!['\\', 't']
    } else if u == 0x0a {
        seq!['\\', 'n']
    } else if u == 0x0c {
        seq!['\\', 'f']
    } else if u == 0x0d {
        seq!['\\', 'r']
    } else if u < 0x20 {
        seq!['\\', 'u', '0', '0', hex_digit((u >> 4) as int), hex_digit((u & 0xf) as int)]
    } else {
        seq![c]
    }
}

/// The body of a JSON string literal: every character escaped, in order.
pub open spec fn escape_string(s: Seq<char>) -> Seq<char>
    decreases s.len(),
{
    if s.len() == 0 {
        Seq::empty()
    } else {
        escape_string(s.drop_last()) + escape_char(s.last())
    }
}

/// A JSON string literal: the escaped body between double quotes.
pub open spec fn json_string(s: Seq<char>) -> Seq<char> {
    seq!['"'] + escape_string(s) + seq!['"']
}

/// The comma-separated items of a JSON array of strings.
pub open spec fn json_string_items(l: Seq<Seq<char>>) -> Seq<char>
    decreases l.len(),
{
    if l.len() == 0 {
        Seq::empty()
    } else if l.len() == 1 {
        json_string(l[0])
    } else {
        json_string_items(l.drop_last()) + seq![','] + json_string(l.last())
    }
}

/// A JSON array of strings: the items between square brackets.
pub open spec fn json_string_list(l: Seq<Seq<char>>) -> Seq<char> {
    seq!['['] + json_string_items(l) + seq![']']
}

/// Appends the escaped form of one character.
fn write_escaped_char(out: &mut String, c: char)
    ensures
        final(out)@ == old(out)@ + escape_char(c),
{
    let u = c as u32;
    if c == '"' {
        push_char(out, '\\');
        push_char(out, '"');
    } else if c == '\\' {
        push_char(out, '\\');
        push_char(out, '\\');
    } else if u == 0x08 {
        push_char(out, '\\');
        push_char(out, 'b');
    } else if u == 0x09 {
        push_char(out, '\\');
        push_char(out, 't');
    } else if u == 0x0a {
        push_char(out, '\\');
        push_char(out, 'n');
    } else if u == 0x0c {
        push_char(out, '\\');
        push_char(out, 'f');
    } else if u == 0x0d {
        push_char(out, '\\');
        push_char(out, 'r');
    } else if u < 0x20 {
        assert((u >> 4) < 16 && (u & 0xf) < 16) by (bit_vector)
            requires
                u < 0x20,
        ;
        push_char(out, '\\');
        push_char(out, 'u');
        push_char(out, '0');
        push_char(out, '0');
        push_char(out, hex_digit_char(u >> 4));
        push_char(out, hex_digit_char(u & 0xf));
    } else {
        push_char(out, c);
    }
    assert(final(out)@ =~= old(out)@ + escape_char(c));
}

/// One lowercase hexadecimal digit, as executable code.
fn hex_digit_char(v: u32) -> (c: char)
    requires
        v < 16,
    ensures
        c == hex_digit(v as int),
{
    if v == 0 {
        '0'
    } else if v == 1 {
        '1'
    } else if v == 2 {
        '2'
    } else if v == 3 {
        '3'
    } else if v == 4 {
        '4'
    } else if v == 5 {
        '5'
    } else if v == 6 {
        '6'
    } else if v == 7 {
        '7'
    } else if v == 8 {
        '8'
    } else if v == 9 {
        '9'
    } else if v == 10 {
        'a'
    } else if v == 11 {
        'b'
    } else if v == 12 {
        'c'
    } else if v == 13 {
        'd'
    } else if v == 14 {
        'e'
    } else {
        'f'
    }
}

/// Appends a whole JSON string literal for `s`.
pub fn write_json_string(out: &mut String, s: &str)
    ensures
        final(out)@ == old(out)@ + json_string(s@),
{
    push_char(out, '"');
    let len = s.unicode_len();
    for i in 0..len
        invariant
            len == s@.len(),
            out@ == old(out)@ + seq!['"'] + escape_string(s@.take(i as int)),
    {
        let c = s.get_char(i);
        proof {
            assert(s@.take(i + 1).drop_last() =~= s@.take(i as int));
            assert(s@.take(i + 1).last() == s@[i as int]);
        }
        write_escaped_char(out, c);
    }
    proof {
        assert(s@.take(len as int) =~= s@);
    }
    push_char(out, '"');
    assert(final(out)@ =~= old(out)@ + json_string(s@));
}

/// Appends a whole JSON array literal holding the strings of `items`.
pub fn write_json_string_list(out: &mut String, items: &Vec<String>)
    ensures
        final(out)@ == old(out)@ + json_string_list(items.deep_view()),
{
    push_char(out, '[');
    let n = items.len();
    for i in 0..n
        invariant
            n == items@.len(),
            items.deep_view().len() == n,
            forall|j: int| 0 <= j < n ==> items.deep_view()[j] == items@[j]@,
            out@ == old(out)@ + seq!['['] + json_string_items(items.deep_view().take(i as int)),
    {
        if i > 0 {
            push_char(out, ',');
        }
        proof {
            assert(items.deep_view().take(i + 1).drop_last() =~= items.deep_view().take(i as int));
            assert(items.deep_view().take(i + 1).last() == items.deep_view()[i as int]);
        }
        write_json_string(out, items[i].as_str());
        assert(out@ =~= old(out)@ + seq!['['] + json_string_items(
            items.deep_view().take(i + 1),
        ));
    }
    proof {
        assert(items.deep_view().take(n as int) =~= items.deep_view());
    }
    push_char(out, ']');
    assert(final(out)@ =~= old(out)@ + json_string_list(items.deep_view()));
}

} // verus!
