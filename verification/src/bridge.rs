//! Handing worker answers to the page: each answer becomes a call of
//! `window.Utah.receiveResponse` whose three arguments are JSON string
//! literals, so that quotes and line breaks in them cannot break the script.

use vstd::prelude::*;
use crate::ipc::IpcResponse;

verus! {

/// The lowercase hexadecimal digit for `d` (`0 <= d < 16`).
pub open spec fn hex_digit(d: int) -> char {
    seq!['0', '1', '2', '3', '4', '5', '6', '7', '8', '9', 'a', 'b', 'c', 'd', 'e', 'f'][d]
}

/// How JSON writes one character inside a string literal: `"` and `\` and
/// the control characters U+0000..U+001F are escaped (`\b \t \n \f \r` by
/// name, the others as `\u00XX`); every other character stands for itself.
pub open spec fn json_escape_char(c: char) -> Seq<char> {
    if c == '"' {
        seq!['\\', '"']
    } else if c == '\\' {
        seq!['\\', '\\']
    } else if c == '\u{8}' {
        seq!['\\', 'b']
    } else if c == '\t' {
        seq!['\\', 't']
    } else if c == '\n' {
        seq!['\\', 'n']
    } else if c == '\u{c}' {
        seq!['\\', 'f']
    } else if c == '\r' {
        seq!['\\', 'r']
    } else if (c as int) < 0x20 {
        seq!['\\', 'u', '0', '0', hex_digit((c as int) / 16), hex_digit((c as int) % 16)]
    } else {
        seq![c]
    }
}

/// The escaped form of `s`, character by character.
pub open spec fn json_escaped(s: Seq<char>) -> Seq<char>
    decreases s.len(),
{
    if s.len() == 0 {
        seq![]
    } else {
        json_escape_char(s[0]) + json_escaped(s.drop_first())
    }
}

/// The JSON string literal for `s`: its escaped form between double quotes.
pub open spec fn json_string_literal(s: Seq<char>) -> Seq<char> {
    seq!['"'] + json_escaped(s) + seq!['"']
}

/// The script that delivers a worker answer to the page.
pub open spec fn eval_js_text(r: IpcResponse) -> Seq<char> {
    "window.Utah.receiveResponse("@ + json_string_literal(r.channel@) + ", "@
        + json_string_literal(r.status@) + ", "@ + json_string_literal(r.payload@) + ");"@
}

#[verifier::external_type_specification]
#[verifier::external_body]
pub struct ExJsonError(serde_json::Error);

/// Calls `serde_json::to_string` on a string. Trusted: serialising a `str`
/// writes it with `format_escaped_str` into a `Vec<u8>`, which cannot fail, so
/// the result is `Ok` and holds the JSON string literal of the text.
#[verifier::external_body]
fn json_encode(text: &str) -> (r: Result<String, serde_json::Error>)
    ensures
        r is Ok,
        r is Ok ==> r.unwrap()@ == json_string_literal(text@),
{
    serde_json::to_string(text)
}

/// The JSON string literal for `text`, or `""` should encoding fail.
pub fn json_quoted(text: &str) -> (q: String)
    ensures
        q@ == json_string_literal(text@),
{
    match json_encode(text) {
        Ok(s) => s,
        Err(_) => String::from_str("\"\""),
    }
}

/// The script that delivers `response` to the page.
pub fn ipc_response_to_eval_js(response: &IpcResponse) -> (js: String)
    ensures
        js@ == eval_js_text(*response),
{
    let ch = json_quoted(response.channel.as_str());
    let st = json_quoted(response.status.as_str());
    let pl = json_quoted(response.payload.as_str());
    let mut js = String::from_str("window.Utah.receiveResponse(");
    js.append(ch.as_str());
    js.append(", ");
    js.append(st.as_str());
    js.append(", ");
    js.append(pl.as_str());
    js.append(");");
    js
}


/// Whether `t` can stand between the double quotes of a script string literal
/// without ending it early: every `\` starts a two-character escape, and no
/// `"` or control character (line breaks among them) stands on its own.
pub open spec fn literal_body_ok(t: Seq<char>) -> bool
    decreases t.len(),
{
    if t.len() == 0 {
        true
    } else if t[0] == '\\' {
        t.len() >= 2 && literal_body_ok(t.skip(2))
    } else {
        t[0] != '"' && (t[0] as int) >= 0x20 && literal_body_ok(t.drop_first())
    }
}

/// A character that needs no escape.
pub open spec fn plain_char(c: char) -> bool {
    c != '\\' && c != '"' && (c as int) >= 0x20
}

proof fn lemma_plain_prefix(p: Seq<char>, rest: Seq<char>)
    requires
        forall|i: int| 0 <= i < p.len() ==> plain_char(#[trigger] p[i]),
        literal_body_ok(rest),
    ensures
        literal_body_ok(p + rest),
    decreases p.len(),
{
    if p.len() > 0 {
        lemma_plain_prefix(p.drop_first(), rest);
        assert((p + rest).drop_first() =~= p.drop_first() + rest);
        assert((p + rest)[0] == p[0]);
    } else {
        assert(p + rest =~= rest);
    }
}

proof fn lemma_hex_digit_plain(d: int)
    requires
        0 <= d < 16,
    ensures
        plain_char(hex_digit(d)),
{
}

proof fn lemma_control_escape_plain(c: char)
    ensures
        (c as int) < 0x20 ==> plain_char(hex_digit((c as int) / 16)) && plain_char(
            hex_digit((c as int) % 16),
        ),
{
    if (c as int) < 0x20 {
        lemma_hex_digit_plain((c as int) / 16);
        lemma_hex_digit_plain((c as int) % 16);
    }
}

proof fn lemma_escape_char_ok(c: char, rest: Seq<char>)
    requires
        literal_body_ok(rest),
    ensures
        literal_body_ok(json_escape_char(c) + rest),
{
    let e = json_escape_char(c);
    let t = e + rest;
    if e.len() == 1 {
        assert(plain_char(e[0]));
        lemma_plain_prefix(e, rest);
    } else if e.len() == 2 {
        assert(t[0] == '\\');
        assert(t.skip(2) =~= rest);
    } else {
        let tail = seq!['0', '0', hex_digit((c as int) / 16), hex_digit((c as int) % 16)];
        lemma_hex_digit_plain((c as int) / 16);
        lemma_hex_digit_plain((c as int) % 16);
        assert forall|i: int| 0 <= i < tail.len() implies plain_char(#[trigger] tail[i]) by {}
        lemma_plain_prefix(tail, rest);
        assert(t[0] == '\\');
        assert(t.skip(2) =~= tail + rest);
    }
}

/// Every JSON string literal is a single closed script string literal: a
/// double quote, a body in which quotes, backslashes and line breaks only
/// occur escaped, and a closing double quote. So no value handed to the page
/// can end a literal early or break the script.
pub proof fn json_literal_is_closed(s: Seq<char>)
    ensures
        json_string_literal(s) == seq!['"'] + json_escaped(s) + seq!['"'],
        literal_body_ok(json_escaped(s)),
        !json_escaped(s).contains('\n'),
        !json_escaped(s).contains('\r'),
    decreases s.len(),
{
    if s.len() > 0 {
        json_literal_is_closed(s.drop_first());
        lemma_escape_char_ok(s[0], json_escaped(s.drop_first()));
    }
    lemma_no_controls(s);
}

proof fn lemma_no_controls(s: Seq<char>)
    ensures
        forall|i: int| 0 <= i < json_escaped(s).len() ==> (#[trigger] json_escaped(s)[i] as int) >= 0x20,
    decreases s.len(),
{
    if s.len() > 0 {
        lemma_no_controls(s.drop_first());
        let e = json_escape_char(s[0]);
        let rest = json_escaped(s.drop_first());
        lemma_control_escape_plain(s[0]);
        assert forall|i: int| 0 <= i < json_escaped(s).len() implies (#[trigger] json_escaped(s)[i] as int) >= 0x20 by {
            if i < e.len() {
                assert(json_escaped(s)[i] == e[i]);
            } else {
                assert(json_escaped(s)[i] == rest[i - e.len()]);
            }
        }
    }
}


/// How many double quotes of `t` stand unescaped, reading `t` as the inside
/// of a script: a `\` takes the character after it along.
pub open spec fn unescaped_quotes(t: Seq<char>) -> int
    decreases t.len(),
{
    if t.len() == 0 {
        0
    } else if t[0] == '\\' {
        if t.len() >= 2 {
            unescaped_quotes(t.skip(2))
        } else {
            0
        }
    } else {
        (if t[0] == '"' {
            1int
        } else {
            0int
        }) + unescaped_quotes(t.drop_first())
    }
}

/// Whether no character of `t` lies below U+0020.
pub open spec fn no_control_chars(t: Seq<char>) -> bool {
    forall|i: int| 0 <= i < t.len() ==> (#[trigger] t[i] as int) >= 0x20
}

proof fn lemma_quotes_plain_prefix(p: Seq<char>, rest: Seq<char>)
    requires
        forall|i: int| 0 <= i < p.len() ==> #[trigger] p[i] != '\\' && p[i] != '"',
    ensures
        unescaped_quotes(p + rest) == unescaped_quotes(rest),
    decreases p.len(),
{
    if p.len() > 0 {
        lemma_quotes_plain_prefix(p.drop_first(), rest);
        assert((p + rest).drop_first() =~= p.drop_first() + rest);
        assert((p + rest)[0] == p[0]);
    } else {
        assert(p + rest =~= rest);
    }
}

proof fn lemma_quotes_body(b: Seq<char>, rest: Seq<char>)
    requires
        literal_body_ok(b),
    ensures
        unescaped_quotes(b + rest) == unescaped_quotes(rest),
    decreases b.len(),
{
    if b.len() > 0 {
        let t = b + rest;
        assert(t[0] == b[0]);
        if b[0] == '\\' {
            lemma_quotes_body(b.skip(2), rest);
            assert(t.skip(2) =~= b.skip(2) + rest);
        } else {
            lemma_quotes_body(b.drop_first(), rest);
            assert(t.drop_first() =~= b.drop_first() + rest);
        }
    } else {
        assert(b + rest =~= rest);
    }
}

proof fn lemma_quotes_literal(s: Seq<char>, rest: Seq<char>)
    ensures
        unescaped_quotes(json_string_literal(s) + rest) == 2 + unescaped_quotes(rest),
        no_control_chars(json_string_literal(s)),
{
    let b = json_escaped(s);
    json_literal_is_closed(s);
    lemma_no_controls(s);
    let t = json_string_literal(s) + rest;
    assert(t[0] == '"');
    assert(t.drop_first() =~= b + (seq!['"'] + rest));
    lemma_quotes_body(b, seq!['"'] + rest);
    let q = seq!['"'] + rest;
    assert(q.drop_first() =~= rest);
    let l = json_string_literal(s);
    assert forall|i: int| 0 <= i < l.len() implies (#[trigger] l[i] as int) >= 0x20 by {
        if 0 < i < l.len() - 1 {
            assert(l[i] == b[i - 1]);
        }
    }
}

proof fn lemma_plain_text(p: Seq<char>)
    requires
        forall|i: int| 0 <= i < p.len() ==> #[trigger] p[i] != '\\' && p[i] != '"' && (p[i] as int) >= 0x20,
    ensures
        unescaped_quotes(p) == 0,
        no_control_chars(p),
{
    lemma_quotes_plain_prefix(p, seq![]);
    assert(p + seq![] =~= p);
}

/// The script handed to the page holds no character below U+0020 (so no raw
/// line break), and exactly six unescaped double quotes: the two around each
/// of the three arguments. Whatever the channel, status and payload hold,
/// none of them can end its string literal early or add code to the script.
pub proof fn response_script_is_safe(r: IpcResponse)
    ensures
        no_control_chars(eval_js_text(r)),
        unescaped_quotes(eval_js_text(r)) == 6,
{
    broadcast use vstd::string::group_string_axioms;

    reveal_strlit("window.Utah.receiveResponse(");
    reveal_strlit(", ");
    reveal_strlit(");");
    let p = "window.Utah.receiveResponse("@;
    let sep = ", "@;
    let end = ");"@;
    let l1 = json_string_literal(r.channel@);
    let l2 = json_string_literal(r.status@);
    let l3 = json_string_literal(r.payload@);
    assert forall|i: int| 0 <= i < p.len() implies #[trigger] p[i] != '\\' && p[i] != '"' && (p[i] as int) >= 0x20 by {}
    assert forall|i: int| 0 <= i < sep.len() implies #[trigger] sep[i] != '\\' && sep[i] != '"' && (sep[i] as int) >= 0x20 by {}
    assert forall|i: int| 0 <= i < end.len() implies #[trigger] end[i] != '\\' && end[i] != '"' && (end[i] as int) >= 0x20 by {}
    lemma_plain_text(end);
    let x3 = l3 + end;
    lemma_quotes_literal(r.payload@, end);
    let x2 = sep + x3;
    lemma_quotes_plain_prefix(sep, x3);
    let x1 = l2 + x2;
    lemma_quotes_literal(r.status@, x2);
    let x0 = sep + x1;
    lemma_quotes_plain_prefix(sep, x1);
    let y = l1 + x0;
    lemma_quotes_literal(r.channel@, x0);
    let t = p + y;
    lemma_quotes_plain_prefix(p, y);
    assert(eval_js_text(r) =~= t);
    lemma_plain_text(sep);
    assert(no_control_chars(t)) by {
        assert forall|i: int| 0 <= i < t.len() implies (#[trigger] t[i] as int) >= 0x20 by {
            lemma_concat_printable(p, y);
            lemma_concat_printable(l1, x0);
            lemma_concat_printable(sep, x1);
            lemma_concat_printable(l2, x2);
            lemma_concat_printable(sep, x3);
            lemma_concat_printable(l3, end);
        }
    }
}

proof fn lemma_concat_printable(a: Seq<char>, b: Seq<char>)
    ensures
        no_control_chars(a) && no_control_chars(b) ==> no_control_chars(a + b),
{
    if no_control_chars(a) && no_control_chars(b) {
        assert forall|i: int| 0 <= i < (a + b).len() implies (#[trigger] (a + b)[i] as int) >= 0x20 by {
            if i < a.len() {
                assert((a + b)[i] == a[i]);
            } else {
                assert((a + b)[i] == b[i - a.len()]);
            }
        }
    }
}


/// The value of a hexadecimal digit (either case).
pub open spec fn hex_value(c: char) -> int {
    if '0' <= c && c <= '9' {
        c as int - '0' as int
    } else if 'a' <= c && c <= 'f' {
        c as int - 'a' as int + 10
    } else if 'A' <= c && c <= 'F' {
        c as int - 'A' as int + 10
    } else {
        0
    }
}

/// The character whose code is `v`.
pub open spec fn char_of_code(v: int) -> char {
    v as char
}

/// The character that the escape `\x` stands for, `x` not being `u`.
pub open spec fn unescape_named(x: char) -> char {
    if x == 'b' {
        '\u{8}'
    } else if x == 't' {
        '\t'
    } else if x == 'n' {
        '\n'
    } else if x == 'f' {
        '\u{c}'
    } else if x == 'r' {
        '\r'
    } else {
        x
    }
}

/// The text that the inside of a JSON string literal stands for.
pub open spec fn json_unescaped(t: Seq<char>) -> Seq<char>
    decreases t.len(),
{
    if t.len() == 0 {
        seq![]
    } else if t[0] == '\\' && t.len() >= 2 {
        if t[1] == 'u' && t.len() >= 6 {
            seq![
                char_of_code(
                    hex_value(t[2]) * 4096 + hex_value(t[3]) * 256 + hex_value(t[4]) * 16
                        + hex_value(t[5]),
                ),
            ] + json_unescaped(t.skip(6))
        } else {
            seq![unescape_named(t[1])] + json_unescaped(t.skip(2))
        }
    } else {
        seq![t[0]] + json_unescaped(t.drop_first())
    }
}

proof fn lemma_char_of_code(c: char)
    ensures
        char_of_code(c as int) == c,
{

}


proof fn lemma_hex_value(d: int)
    requires
        0 <= d < 16,
    ensures
        hex_value(hex_digit(d)) == d,
{
    if d < 8 {
        if d == 0 {} else if d == 1 {} else if d == 2 {} else if d == 3 {}
        else if d == 4 {} else if d == 5 {} else if d == 6 {} else {}
    } else {
        if d == 8 {} else if d == 9 {} else if d == 10 {} else if d == 11 {}
        else if d == 12 {} else if d == 13 {} else if d == 14 {} else {}
    }
}

proof fn lemma_unescape_char(c: char, x: Seq<char>)
    ensures
        json_unescaped(json_escape_char(c) + x) == seq![c] + json_unescaped(x),
{
    let e = json_escape_char(c);
    let t = e + x;
    if e.len() == 1 {
        assert(t[0] == c);
        assert(t.drop_first() =~= x);
    } else if e.len() == 2 {
        assert(t[0] == '\\' && t[1] == e[1]);
        assert(t.skip(2) =~= x);
        assert(unescape_named(e[1]) == c);
    } else {
        let v = c as int;
        assert(v < 0x20);
        lemma_hex_value(v / 16);
        lemma_hex_value(v % 16);
        assert(t[1] == 'u' && t[2] == '0' && t[3] == '0');
        assert(t[4] == hex_digit(v / 16) && t[5] == hex_digit(v % 16));
        assert(hex_value('0') == 0);
        assert(hex_value(t[2]) * 4096 + hex_value(t[3]) * 256 + hex_value(t[4]) * 16 + hex_value(t[5]) == v);
        assert(t.skip(6) =~= x);
        lemma_char_of_code(c);
    }
}

/// Reading the inside of a JSON string literal gives back the text it was
/// made from.
pub proof fn json_unescaped_inverts(s: Seq<char>)
    ensures
        json_unescaped(json_escaped(s)) == s,
    decreases s.len(),
{
    if s.len() > 0 {
        json_unescaped_inverts(s.drop_first());
        lemma_unescape_char(s[0], json_escaped(s.drop_first()));
        assert(seq![s[0]] + s.drop_first() =~= s);
    }
}

/// Reads a string literal whose opening quote is already behind: the raw
/// inside up to the first unescaped `"`, and the text after that quote.
pub open spec fn read_literal(t: Seq<char>) -> Option<(Seq<char>, Seq<char>)>
    decreases t.len(),
{
    if t.len() == 0 {
        None
    } else if t[0] == '"' {
        Some((seq![], t.drop_first()))
    } else if t[0] == '\\' {
        if t.len() < 2 {
            None
        } else {
            match read_literal(t.skip(2)) {
                Some((b, r)) => Some((t.take(2) + b, r)),
                None => None,
            }
        }
    } else {
        match read_literal(t.drop_first()) {
            Some((b, r)) => Some((seq![t[0]] + b, r)),
            None => None,
        }
    }
}

proof fn lemma_read_literal(b: Seq<char>, rest: Seq<char>)
    requires
        literal_body_ok(b),
    ensures
        read_literal(b + seq!['"'] + rest) == Some((b, rest)),
    decreases b.len(),
{
    let t = b + seq!['"'] + rest;
    if b.len() == 0 {
        assert(t[0] == '"');
        assert(t.drop_first() =~= rest);
    } else if b[0] == '\\' {
        lemma_read_literal(b.skip(2), rest);
        assert(t[0] == '\\');
        assert(t.skip(2) =~= b.skip(2) + seq!['"'] + rest);
        assert(t.take(2) + b.skip(2) =~= b);
    } else {
        lemma_read_literal(b.drop_first(), rest);
        assert(t[0] == b[0]);
        assert(t.drop_first() =~= b.drop_first() + seq!['"'] + rest);
        assert(seq![t[0]] + b.drop_first() =~= b);
    }
}

/// Reads a string literal at the front of `t`: its text and what follows it.
pub open spec fn read_string(t: Seq<char>) -> Option<(Seq<char>, Seq<char>)> {
    if t.len() > 0 && t[0] == '"' {
        match read_literal(t.drop_first()) {
            Some((b, r)) => Some((json_unescaped(b), r)),
            None => None,
        }
    } else {
        None
    }
}

proof fn lemma_read_string(s: Seq<char>, rest: Seq<char>)
    ensures
        read_string(json_string_literal(s) + rest) == Some((s, rest)),
{
    let b = json_escaped(s);
    json_literal_is_closed(s);
    let t = json_string_literal(s) + rest;
    assert(t[0] == '"');
    assert(t.drop_first() =~= b + seq!['"'] + rest);
    lemma_read_literal(b, rest);
    json_unescaped_inverts(s);
}

/// Reads back the channel, status and payload from a delivery script.
pub open spec fn decode_response_script(t: Seq<char>) -> Option<(Seq<char>, Seq<char>, Seq<char>)> {
    let p = "window.Utah.receiveResponse("@;
    let sep = ", "@;
    let end = ");"@;
    if t.len() >= p.len() && t.take(p.len() as int) == p {
        match read_string(t.skip(p.len() as int)) {
            Some((a, r1)) => if r1.len() >= 2 && r1.take(2) == sep {
                match read_string(r1.skip(2)) {
                    Some((b, r2)) => if r2.len() >= 2 && r2.take(2) == sep {
                        match read_string(r2.skip(2)) {
                            Some((c, r3)) => if r3 == end {
                                Some((a, b, c))
                            } else {
                                None
                            },
                            None => None,
                        }
                    } else {
                        None
                    },
                    None => None,
                }
            } else {
                None
            },
            None => None,
        }
    } else {
        None
    }
}

/// The delivery script gives back exactly the three fields of the answer:
/// reading its string arguments as JSON yields the channel, the status and
/// the payload.
pub proof fn response_script_decodes(r: IpcResponse)
    ensures
        decode_response_script(eval_js_text(r)) == Some((r.channel@, r.status@, r.payload@)),
{
    reveal_strlit(", ");
    let p = "window.Utah.receiveResponse("@;
    let sep = ", "@;
    let end = ");"@;
    let l1 = json_string_literal(r.channel@);
    let l2 = json_string_literal(r.status@);
    let l3 = json_string_literal(r.payload@);
    let x2 = sep + (l3 + end);
    let x1 = sep + (l2 + x2);
    let y = l1 + x1;
    let t = eval_js_text(r);
    assert(t =~= p + y);
    assert(t.take(p.len() as int) =~= p);
    assert(t.skip(p.len() as int) =~= y);
    lemma_read_string(r.channel@, x1);
    assert(x1.take(2) =~= sep);
    assert(x1.skip(2) =~= l2 + x2);
    lemma_read_string(r.status@, x2);
    assert(x2.take(2) =~= sep);
    assert(x2.skip(2) =~= l3 + end);
    lemma_read_string(r.payload@, end);
}

} // verus!
