//! The text forms that the library writes: decimal and hexadecimal numbers,
//! JSON string literals, JSON lists of bytes, and indentation.

use vstd::prelude::*;

verus! {

/// Two spaces per level, as a pretty-printed JSON document indents.
pub open spec fn indent(level: nat) -> Seq<char> {
    Seq::new(2 * level, |i: int| ' ')
}

/// The character of a decimal digit.
pub open spec fn digit_char(d: nat) -> char {
    if d == 0 { '0' }
    else if d == 1 { '1' }
    else if d == 2 { '2' }
    else if d == 3 { '3' }
    else if d == 4 { '4' }
    else if d == 5 { '5' }
    else if d == 6 { '6' }
    else if d == 7 { '7' }
    else if d == 8 { '8' }
    else { '9' }
}

/// The decimal form of `n`, without leading zeros.
pub open spec fn decimal(n: nat) -> Seq<char>
    decreases n,
{
    if n < 10 {
        seq![digit_char(n)]
    } else {
        decimal(n / 10) + seq![digit_char(n % 10)]
    }
}

/// The character of a hexadecimal digit, in lower case.
pub open spec fn hex_digit(d: nat) -> char {
    if d < 10 { digit_char(d) }
    else if d == 10 { 'a' }
    else if d == 11 { 'b' }
    else if d == 12 { 'c' }
    else if d == 13 { 'd' }
    else if d == 14 { 'e' }
    else { 'f' }
}

/// Each byte as two lower-case hexadecimal digits, high half first.
pub open spec fn hex_lower(bytes: Seq<u8>) -> Seq<char> {
    Seq::new(
        2 * bytes.len(),
        |i: int|
            if i % 2 == 0 {
                hex_digit((bytes[i / 2] / 16) as nat)
            } else {
                hex_digit((bytes[i / 2] % 16) as nat)
            },
    )
}

/// How a JSON writer escapes one character of a string.
pub open spec fn json_escape_char(c: char) -> Seq<char> {
    if c == '"' {
        seq!['\\', '"']
    } else if c == '\\' {
        seq!['\\', '\\']
    } else if c == '\u{8}' {
        seq!['\\', 'b']
    } else if c == '\t' {
        seq!['\\', 't']
    } else if c == '\n' {
        seq!['\\', 'n']
    } else if c == '\u{c}' {
        seq!['\\', 'f']
    } else if c == '\r' {
        seq!['\\', 'r']
    } else if (c as u32) < 0x20 {
        seq!['\\', 'u', '0', '0', hex_digit(((c as u32) / 16) as nat), hex_digit(((c as u32) % 16) as nat)]
    } else {
        seq![c]
    }
}

/// The escaped characters of a string, without the quotes.
pub open spec fn json_escape(s: Seq<char>) -> Seq<char>
    decreases s.len(),
{
    if s.len() == 0 {
        Seq::empty()
    } else {
        json_escape(s.drop_last()) + json_escape_char(s.last())
    }
}

/// A JSON string literal holding `s`.
pub open spec fn json_string(s: Seq<char>) -> Seq<char> {
    seq!['"'] + json_escape(s) + seq!['"']
}

/// The items of a compact JSON list of bytes, separated by commas.
pub open spec fn u8_items(bytes: Seq<u8>) -> Seq<char>
    decreases bytes.len(),
{
    if bytes.len() == 0 {
        Seq::empty()
    } else if bytes.len() == 1 {
        decimal(bytes[0] as nat)
    } else {
        u8_items(bytes.drop_last()) + seq![','] + decimal(bytes.last() as nat)
    }
}

/// A compact JSON list of bytes, such as `[1,2,3]`.
pub open spec fn u8_list(bytes: Seq<u8>) -> Seq<char> {
    seq!['['] + u8_items(bytes) + seq![']']
}

/// What stands before the `i`-th item of a pretty-printed JSON list or object.
pub open spec fn item_sep(i: int, level: nat) -> Seq<char> {
    if i == 0 {
        seq!['\n'] + indent(level)
    } else {
        seq![',', '\n'] + indent(level)
    }
}

/// The items of a pretty-printed JSON list of bytes whose items stand at `level`.
pub open spec fn u8_items_pretty(bytes: Seq<u8>, level: nat) -> Seq<char>
    decreases bytes.len(),
{
    if bytes.len() == 0 {
        Seq::empty()
    } else {
        u8_items_pretty(bytes.drop_last(), level) + item_sep(bytes.len() - 1, level) + decimal(
            bytes.last() as nat,
        )
    }
}

/// A pretty-printed JSON list of bytes whose brackets stand at `level`.
pub open spec fn u8_list_pretty(bytes: Seq<u8>, level: nat) -> Seq<char> {
    if bytes.len() == 0 {
        seq!['[', ']']
    } else {
        seq!['['] + u8_items_pretty(bytes, level + 1) + seq!['\n'] + indent(level) + seq![']']
    }
}

/// Serialises `s` as a JSON string with serde_json.
///
/// Calls `serde_json::to_string` on a `str`. Claimed: the result is `s` between
/// double quotes, with `"` and `\` escaped by a backslash, the control
/// characters backspace, tab, line feed, form feed and carriage return written
/// as `\b`, `\t`, `\n`, `\f`, `\r`, the other characters below U+0020 written
/// as `\u00` and two lower-case hexadecimal digits, and every other character
/// as it is (the escape table and `format_escaped_str_contents` of
/// serde_json's `ser.rs`). Serialising a `str` into memory does not fail there.
#[verifier::external_body]
fn serde_json_quote(s: &str) -> (res: Option<String>)
    ensures
        res is Some,
        res.unwrap()@ == json_string(s@),
{
    serde_json::to_string(s).ok()
}

/// Appends the JSON string literal of `s`.
pub fn push_json_string(out: &mut String, s: &str)
    ensures
        final(out)@ == old(out)@ + json_string(s@),
{
    let quoted = serde_json_quote(s);
    match quoted {
        Some(t) => out.append(t.as_str()),
        None => {},
    }
}

/// The one-character string of a decimal digit.
fn digit_str(d: u8) -> (res: &'static str)
    requires
        d < 10,
    ensures
        res@ == seq![digit_char(d as nat)],
{
    if d == 0 {
        proof { reveal_strlit("0"); }
        "0"
    } else if d == 1 {
        proof { reveal_strlit("1"); }
        "1"
    } else if d == 2 {
        proof { reveal_strlit("2"); }
        "2"
    } else if d == 3 {
        proof { reveal_strlit("3"); }
        "3"
    } else if d == 4 {
        proof { reveal_strlit("4"); }
        "4"
    } else if d == 5 {
        proof { reveal_strlit("5"); }
        "5"
    } else if d == 6 {
        proof { reveal_strlit("6"); }
        "6"
    } else if d == 7 {
        proof { reveal_strlit("7"); }
        "7"
    } else if d == 8 {
        proof { reveal_strlit("8"); }
        "8"
    } else {
        proof { reveal_strlit("9"); }
        "9"
    }
}

/// Appends the decimal form of a byte.
pub fn push_decimal(out: &mut String, b: u8)
    ensures
        final(out)@ == old(out)@ + decimal(b as nat),
{
    let ghost start = out@;
    if b < 10 {
        out.append(digit_str(b));
    } else if b < 100 {
        out.append(digit_str(b / 10));
        out.append(digit_str(b % 10));
        assert(decimal((b / 10) as nat) == seq![digit_char((b / 10) as nat)]);
        assert(out@ =~= start + decimal(b as nat));
    } else {
        out.append(digit_str(b / 100));
        out.append(digit_str((b / 10) % 10));
        out.append(digit_str(b % 10));
        assert(decimal((b / 100) as nat) == seq![digit_char((b / 100) as nat)]);
        assert(((b / 10) as nat) / 10 == (b / 100) as nat);
        assert(decimal((b / 10) as nat) =~= seq![digit_char((b / 100) as nat)] + seq![
            digit_char(((b / 10) % 10) as nat),
        ]);
        assert(out@ =~= start + decimal(b as nat));
    }
}

/// Appends `level` levels of indentation.
pub fn push_indent(out: &mut String, level: usize)
    ensures
        final(out)@ == old(out)@ + indent(level as nat),
{
    let ghost start = out@;
    let mut i: usize = 0;
    proof { reveal_strlit("  "); }
    while i < level
        invariant
            i <= level,
            out@ =~= start + indent(i as nat),
            "  "@ == seq![' ', ' '],
        decreases level - i,
    {
        out.append("  ");
        i = i + 1;
        assert(out@ =~= start + indent(i as nat));
    }
}

/// Appends a compact JSON list of bytes.
pub fn push_u8_list(out: &mut String, bytes: &[u8])
    ensures
        final(out)@ == old(out)@ + u8_list(bytes@),
{
    let ghost start = out@;
    proof {
        reveal_strlit("[");
        reveal_strlit("]");
        reveal_strlit(",");
    }
    out.append("[");
    let mut i: usize = 0;
    while i < bytes.len()
        invariant
            i <= bytes@.len(),
            out@ =~= start + seq!['['] + u8_items(bytes@.take(i as int)),
            ","@ == seq![','],
        decreases bytes@.len() - i,
    {
        let ghost before = out@;
        if i > 0 {
            out.append(",");
        }
        push_decimal(out, bytes[i]);
        assert(bytes@.take(i + 1).drop_last() =~= bytes@.take(i as int));
        assert(out@ =~= start + seq!['['] + u8_items(bytes@.take(i + 1)));
        i = i + 1;
    }
    assert(bytes@.take(bytes@.len() as int) =~= bytes@);
    out.append("]");
    assert(out@ =~= start + u8_list(bytes@));
}

/// Appends a pretty-printed JSON list of bytes whose brackets stand at `level`.
pub fn push_u8_list_pretty(out: &mut String, bytes: &[u8], level: usize)
    requires
        level < usize::MAX,
    ensures
        final(out)@ == old(out)@ + u8_list_pretty(bytes@, level as nat),
{
    let ghost start = out@;
    proof {
        reveal_strlit("[]");
        reveal_strlit("[");
        reveal_strlit("]");
        reveal_strlit("\n");
        reveal_strlit(",\n");
    }
    if bytes.len() == 0 {
        out.append("[]");
        return;
    }
    out.append("[");
    let mut i: usize = 0;
    while i < bytes.len()
        invariant
            i <= bytes@.len(),
            level < usize::MAX,
            out@ =~= start + seq!['['] + u8_items_pretty(bytes@.take(i as int), (level + 1) as nat),
            "\n"@ == seq!['\n'],
            ",\n"@ == seq![',', '\n'],
        decreases bytes@.len() - i,
    {
        if i == 0 {
            out.append("\n");
        } else {
            out.append(",\n");
        }
        push_indent(out, level + 1);
        push_decimal(out, bytes[i]);
        assert(bytes@.take(i + 1).drop_last() =~= bytes@.take(i as int));
        assert(out@ =~= start + seq!['['] + u8_items_pretty(bytes@.take(i + 1), (level + 1) as nat));
        i = i + 1;
    }
    assert(bytes@.take(bytes@.len() as int) =~= bytes@);
    out.append("\n");
    push_indent(out, level);
    out.append("]");
    assert(out@ =~= start + u8_list_pretty(bytes@, level as nat));
}

/// Adding a byte to a non-empty compact JSON list of bytes puts a comma and
/// the byte's decimal form before the closing bracket.
pub proof fn law_added_byte_compact(bytes: Seq<u8>, b: u8)
    requires
        bytes.len() >= 1,
    ensures
        u8_list(bytes.push(b)) == u8_list(bytes).drop_last() + seq![','] + decimal(b as nat) + seq![']'],
{
    let more = bytes.push(b);
    assert(more.drop_last() =~= bytes);
    assert(more.last() == b);
    assert(u8_list(bytes).drop_last() =~= seq!['['] + u8_items(bytes));
    assert(u8_list(more) =~= u8_list(bytes).drop_last() + seq![','] + decimal(b as nat) + seq![']']);
}

/// Adding a byte to a non-empty pretty-printed JSON list of bytes puts, before
/// the line of the closing bracket, a comma, a new line at the items'
/// indentation and the byte's decimal form.
pub proof fn law_added_byte_pretty(bytes: Seq<u8>, b: u8, level: nat)
    requires
        bytes.len() >= 1,
    ensures
        ({
            let tail = seq!['\n'] + indent(level) + seq![']'];
            let before = u8_list_pretty(bytes, level);
            let kept = before.take(before.len() - tail.len());
            &&& before == kept + tail
            &&& u8_list_pretty(bytes.push(b), level) == kept + seq![',', '\n'] + indent(level + 1)
                + decimal(b as nat) + tail
        }),
{
    let tail = seq!['\n'] + indent(level) + seq![']'];
    let before = u8_list_pretty(bytes, level);
    let kept = seq!['['] + u8_items_pretty(bytes, level + 1);
    assert(before =~= kept + tail);
    assert(before.take(before.len() - tail.len()) =~= kept);
    let more = bytes.push(b);
    assert(more.drop_last() =~= bytes);
    assert(more.last() == b);
    assert(item_sep(bytes.len() as int, level + 1) == seq![',', '\n'] + indent(level + 1));
    assert(u8_list_pretty(more, level) =~= kept + seq![',', '\n'] + indent(level + 1) + decimal(
        b as nat,
    ) + tail);
}

/// The pretty-printed JSON list of one byte: the byte on a line of its own,
/// one level in, between the brackets.
pub proof fn law_single_byte_pretty(b: u8, level: nat)
    ensures
        u8_list_pretty(seq![b], level) == seq!['[', '\n'] + indent(level + 1) + decimal(b as nat)
            + seq!['\n'] + indent(level) + seq![']'],
{
    let one = seq![b];
    assert(one.drop_last() =~= Seq::<u8>::empty());
    assert(one.last() == b);
    assert(item_sep(0, level + 1) == seq!['\n'] + indent(level + 1));
    assert(u8_items_pretty(one.drop_last(), level + 1) == Seq::<char>::empty());
    assert(u8_items_pretty(one, level + 1) =~= seq!['\n'] + indent(level + 1) + decimal(b as nat));
    assert(u8_list_pretty(one, level) =~= seq!['[', '\n'] + indent(level + 1) + decimal(b as nat)
        + seq!['\n'] + indent(level) + seq![']']);
}

/// The compact JSON list of one byte: its decimal form between brackets.
pub proof fn law_single_byte_compact(b: u8)
    ensures
        u8_list(seq![b]) == seq!['['] + decimal(b as nat) + seq![']'],
{
    assert(seq![b][0] == b);
}

} // verus!
