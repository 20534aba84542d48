//! Character-level text helpers shared by the views.
use vstd::prelude::*;

use vstd::utf8::encode_utf8;

verus! {

/// Appends one character to a `String`.
///
/// Trusted: calls `String::push`, whose documentation says that it appends
/// the given `char` to the end of the string.
#[verifier::external_body]
pub(crate) fn push_char(s: &mut String, c: char)
    ensures
        final(s)@ == old(s)@.push(c),
{
    s.push(c)
}

/// The characters of `s`, in order.
pub fn chars_of(s: &str) -> (out: Vec<char>)
    ensures
        out@ == s@,
{
    let mut out: Vec<char> = Vec::new();
    for c in it: s.chars()
        invariant
            out@ == it.seq().take(it.index() as int),
    {
        out.push(c);
    }
    out
}

/// A string holding `chars[lo..hi]`.
pub fn string_of(chars: &Vec<char>, lo: usize, hi: usize) -> (s: String)
    requires
        lo <= hi <= chars@.len(),
    ensures
        s@ == chars@.subrange(lo as int, hi as int),
{
    let mut s = String::new();
    let mut i = lo;
    while i < hi
        invariant
            lo <= i <= hi <= chars@.len(),
            s@ == chars@.subrange(lo as int, i as int),
        decreases hi - i,
    {
        push_char(&mut s, chars[i]);
        i = i + 1;
        assert(s@ =~= chars@.subrange(lo as int, i as int));
    }
    s
}

/// A line with one carriage return removed from its end, if it has one.
pub open spec fn strip_cr(line: Seq<char>) -> Seq<char> {
    if line.len() > 0 && line.last() == '\r' {
        line.drop_last()
    } else {
        line
    }
}

/// The lines of `rest`, where `pending` holds the characters of the line
/// begun before `rest`: every '\n' ends a line (a '\r' just before it is
/// dropped as part of the line ending), and an unterminated last line is
/// kept when it is not empty.
pub open spec fn lines_from(rest: Seq<char>, pending: Seq<char>) -> Seq<Seq<char>>
    decreases rest.len(),
{
    if rest.len() == 0 {
        if pending.len() == 0 {
            seq![]
        } else {
            seq![pending]
        }
    } else if rest[0] == '\n' {
        seq![strip_cr(pending)] + lines_from(rest.drop_first(), seq![])
    } else {
        lines_from(rest.drop_first(), pending.push(rest[0]))
    }
}

/// The lines of a text, split as `str::lines` splits them: at "\n" or
/// "\r\n", with no empty line after a final line ending.
pub open spec fn text_lines(text: Seq<char>) -> Seq<Seq<char>> {
    lines_from(text, seq![])
}

/// The lines of `chars`, as [`text_lines`] describes them.
pub fn split_lines(chars: &Vec<char>) -> (lines: Vec<String>)
    ensures
        lines.deep_view() == text_lines(chars@),
{
    let mut lines: Vec<String> = Vec::new();
    let mut start: usize = 0;
    let mut i: usize = 0;
    assert(chars@.skip(0) =~= chars@);
    assert(chars@.subrange(0, 0) =~= Seq::<char>::empty());
    assert(lines.deep_view() =~= Seq::<Seq<char>>::empty());
    assert(text_lines(chars@) =~= lines.deep_view() + text_lines(chars@));
    while i < chars.len()
        invariant
            start <= i <= chars@.len(),
            text_lines(chars@) == lines.deep_view() + lines_from(
                chars@.skip(i as int),
                chars@.subrange(start as int, i as int),
            ),
        decreases chars@.len() - i,
    {
        let ghost pending = chars@.subrange(start as int, i as int);
        let ghost rest = chars@.skip(i as int);
        assert(rest.drop_first() =~= chars@.skip(i + 1));
        if chars[i] == '\n' {
            let end = if i > start && chars[i - 1] == '\r' {
                i - 1
            } else {
                i
            };
            let line = string_of(chars, start, end);
            assert(line@ =~= strip_cr(pending));
            let ghost before = lines.deep_view();
            lines.push(line);
            assert(lines.deep_view() =~= before.push(strip_cr(pending)));
            start = i + 1;
            i = i + 1;
            assert(chars@.subrange(start as int, i as int) =~= Seq::<char>::empty());
            assert(text_lines(chars@) =~= lines.deep_view() + lines_from(
                chars@.skip(i as int),
                chars@.subrange(start as int, i as int),
            ));
        } else {
            i = i + 1;
            assert(chars@.subrange(start as int, i as int) =~= pending.push(rest[0]));
        }
    }
    assert(chars@.skip(i as int) =~= Seq::<char>::empty());
    if start < i {
        let line = string_of(chars, start, i);
        let ghost before = lines.deep_view();
        lines.push(line);
        assert(lines.deep_view() =~= before.push(chars@.subrange(start as int, i as int)));
    }
    lines
}

// ---------------------------------------------------------------------------
// UTF-8
// ---------------------------------------------------------------------------

/// The UTF-8 encoding of one character.
pub(crate) fn utf8_bytes(c: char) -> (out: Vec<u8>)
    ensures
        out@ == encode_utf8(seq![c]),
{
    let x = c as u32;
    proof {
        assert(seq![c].drop_first() =~= Seq::<char>::empty());
        reveal_with_fuel(encode_utf8, 2);
    }
    if x <= 0x7f {
        let v: Vec<u8> = vec![(x & 0x7f) as u8];
        assert(v@ =~= encode_utf8(seq![c]));
        v
    } else if x <= 0x7ff {
        let v: Vec<u8> = vec![0xC0 | ((x >> 6) & 0x1F) as u8, 0x80 | (x & 0x3F) as u8];
        assert(v@ =~= encode_utf8(seq![c]));
        v
    } else if x <= 0xffff {
        let v: Vec<u8> = vec![
            0xE0 | ((x >> 12) & 0x0F) as u8,
            0x80 | ((x >> 6) & 0x3F) as u8,
            0x80 | (x & 0x3F) as u8,
        ];
        proof {
            vstd::utf8::char_is_scalar(c);
        }
        assert(v@ =~= encode_utf8(seq![c]));
        v
    } else {
        let v: Vec<u8> = vec![
            0xF0 | ((x >> 18) & 0x7) as u8,
            0x80 | ((x >> 12) & 0x3F) as u8,
            0x80 | ((x >> 6) & 0x3F) as u8,
            0x80 | (x & 0x3F) as u8,
        ];
        proof {
            vstd::utf8::char_is_scalar(c);
        }
        assert(v@ =~= encode_utf8(seq![c]));
        v
    }
}

/// The number of bytes in the UTF-8 encoding of `c`.
pub open spec fn utf8_width(c: char) -> nat {
    encode_utf8(seq![c]).len()
}

/// The length of the UTF-8 encoding of one character.
pub(crate) fn utf8_len(c: char) -> (w: usize)
    ensures
        w == utf8_width(c),
        1 <= w <= 4,
{
    let x = c as u32;
    proof {
        assert(seq![c].drop_first() =~= Seq::<char>::empty());
        reveal_with_fuel(encode_utf8, 2);
        vstd::utf8::char_is_scalar(c);
    }
    if x <= 0x7f {
        1
    } else if x <= 0x7ff {
        2
    } else if x <= 0xffff {
        3
    } else {
        4
    }
}

/// `items` joined with `sep` between each two of them.
pub open spec fn joined(items: Seq<Seq<char>>, sep: Seq<char>) -> Seq<char>
    decreases items.len(),
{
    if items.len() == 0 {
        seq![]
    } else if items.len() == 1 {
        items[0]
    } else {
        joined(items.drop_last(), sep) + sep + items.last()
    }
}

/// The strings of `items` joined with `sep` between each two of them.
pub fn join(items: &Vec<String>, sep: &str) -> (res: String)
    ensures
        res@ == joined(items.deep_view(), sep@),
{
    let mut res = String::new();
    let mut i: usize = 0;
    while i < items.len()
        invariant
            i <= items@.len(),
            res@ == joined(items.deep_view().take(i as int), sep@),
        decreases items@.len() - i,
    {
        let ghost done = items.deep_view().take(i as int);
        assert(items.deep_view().take(i + 1).drop_last() =~= done);
        if i > 0 {
            res.append(sep);
        }
        res.append(items[i].as_str());
        i = i + 1;
        proof {
            if i == 1 {
                assert(res@ =~= joined(items.deep_view().take(i as int), sep@));
            }
        }
    }
    assert(items.deep_view().take(i as int) =~= items.deep_view());
    res
}

/// `prefix` followed by `rest`, as a new string.
pub fn concat(prefix: &str, rest: &str) -> (res: String)
    ensures
        res@ == prefix@ + rest@,
{
    let mut res = String::from_str(prefix);
    res.append(rest);
    res
}

/// Appends `line` to `lines`.
pub fn push_line(lines: &mut Vec<String>, line: String)
    ensures
        final(lines).deep_view() == old(lines).deep_view().push(line@),
{
    let ghost before = lines.deep_view();
    lines.push(line);
    assert(lines.deep_view() =~= before.push(line@));
}

/// Each of `lines` with `prefix` in front.
pub open spec fn prefixed(prefix: Seq<char>, lines: Seq<Seq<char>>) -> Seq<Seq<char>> {
    Seq::new(lines.len(), |i: int| prefix + lines[i])
}

/// The lines of `text`, each with `prefix` in front, or the single line
/// `when_empty` when the text is empty.
pub open spec fn text_block(prefix: Seq<char>, text: Seq<char>, when_empty: Seq<char>) -> Seq<
    Seq<char>,
> {
    prefixed(prefix, text_lines(text)) + if text.len() == 0 {
        seq![when_empty]
    } else {
        Seq::<Seq<char>>::empty()
    }
}

/// Appends the lines of [`text_block`] to `lines`.
pub fn push_text_block(lines: &mut Vec<String>, prefix: &str, text: &str, when_empty: &str)
    ensures
        final(lines).deep_view() == old(lines).deep_view() + text_block(prefix@, text@, when_empty@),
{
    let chars = chars_of(text);
    let split = split_lines(&chars);
    let ghost start = lines.deep_view();
    let ghost parts = split.deep_view();
    let mut i: usize = 0;
    while i < split.len()
        invariant
            i <= split@.len(),
            parts == split.deep_view(),
            parts == text_lines(text@),
            lines.deep_view() == start + prefixed(prefix@, parts).take(i as int),
        decreases split@.len() - i,
    {
        let line = concat(prefix, split[i].as_str());
        push_line(lines, line);
        i = i + 1;
        assert(lines.deep_view() =~= start + prefixed(prefix@, parts).take(i as int));
    }
    assert(prefixed(prefix@, parts).take(i as int) =~= prefixed(prefix@, parts));
    if chars.len() == 0 {
        push_line(lines, String::from_str(when_empty));
    }
    assert(lines.deep_view() =~= start + text_block(prefix@, text@, when_empty@));
}

/// The ASCII decimal digits of `n`, most significant first, without leading
/// zeros ("0" for zero).
pub open spec fn decimal(n: nat) -> Seq<u8>
    decreases n,
{
    if n < 10 {
        seq![(0x30 + n) as u8]
    } else {
        decimal(n / 10).push((0x30 + n % 10) as u8)
    }
}

/// Every number has at least one digit.
pub proof fn lemma_decimal_nonempty(n: nat)
    ensures
        decimal(n).len() >= 1,
{
}

/// The decimal digits of `n` as characters.
pub open spec fn decimal_text(n: nat) -> Seq<char> {
    decimal(n).map_values(|b: u8| b as char)
}

/// Appends the decimal digits of `n` to `s`.
pub fn push_decimal_text(s: &mut String, n: u64)
    ensures
        final(s)@ == old(s)@ + decimal_text(n as nat),
    decreases n,
{
    let ghost start = s@;
    if n >= 10 {
        push_decimal_text(s, n / 10);
    }
    let digit: u8 = 0x30 + (n % 10) as u8;
    push_char(s, digit as char);
    assert(s@ =~= start + decimal_text(n as nat));
}

} // verus!
