//! Recognising the Vite dev server: what a probe's HTTP reply must look like,
//! which port of the scanned range wins, and the URL the web view loads.

use vstd::prelude::*;
use vstd::utf8::{decode_utf8, encode_utf8, valid_utf8};
use crate::text::{
    chars_of, contains_text, contains_within, decimal, decimal_port_reads_back, parse_u16_text,
    push_decimal, trimmed,
};

verus! {

/// The first port of the dev-server scan.
pub const SCAN_FIRST_PORT: u16 = 5173;

/// The last port of the dev-server scan.
pub const SCAN_LAST_PORT: u16 = 5200;

/// How many ports the dev-server scan covers.
pub const SCAN_PORT_COUNT: usize = 28;

/// What `String::from_utf8_lossy` makes of a byte string: the bytes decoded as
/// UTF-8, each ill-formed sequence replaced by U+FFFD.
pub uninterp spec fn lossy_utf8(bytes: Seq<u8>) -> Seq<char>;

/// What `str::to_lowercase` makes of a text: its lowercase form under the
/// Unicode case mappings, including the context-dependent final sigma.
pub uninterp spec fn unicode_lowercase(text: Seq<char>) -> Seq<char>;

/// Calls `String::from_utf8_lossy`. Trusted: the text is `lossy_utf8` of the
/// bytes, and for well-formed UTF-8 it is exactly the decoded text, as the
/// function's documentation states.
#[verifier::external_body]
fn decode_lossy(bytes: &[u8]) -> (text: String)
    ensures
        text@ == lossy_utf8(bytes@),
        valid_utf8(bytes@) ==> text@ == decode_utf8(bytes@),
{
    String::from_utf8_lossy(bytes).into_owned()
}

/// Calls `str::to_lowercase`. Trusted: the result is `unicode_lowercase` of
/// the text; the Unicode case tables themselves are not restated here.
#[verifier::external_body]
fn lowercase(text: &str) -> (lower: String)
    ensures
        lower@ == unicode_lowercase(text@),
{
    text.to_lowercase()
}

/// Where the first line of `t` ends, searching from index `i`: the index of
/// the first `'\n'` at or after `i`, or the length of `t`.
pub open spec fn line_end_from(t: Seq<char>, i: int) -> int
    decreases t.len() - i,
{
    if i >= t.len() || t[i] == '\n' {
        i
    } else {
        line_end_from(t, i + 1)
    }
}

/// The first item that `str::lines` yields for `t`: nothing for an empty
/// text; else the text up to the first `'\n'`, without the `'\r'` of a
/// `"\r\n"` ending.
pub open spec fn first_line(t: Seq<char>) -> Option<Seq<char>> {
    if t.len() == 0 {
        None
    } else {
        let end = line_end_from(t, 0);
        if end < t.len() && end > 0 && t[end - 1] == '\r' {
            Some(t.take(end - 1))
        } else {
            Some(t.take(end))
        }
    }
}

/// Whether a lowercased HTTP reply reads as the Vite dev server: a `200 OK`
/// status, and a Vite marker in the page (or, failing that, an HTML document
/// of more than 120 bytes).
pub open spec fn vite_page_text(lower: Seq<char>) -> bool {
    let ok = contains_text(lower, "200 ok"@) || (match first_line(lower) {
        Some(line) => contains_text(line, " 200 "@),
        None => false,
    });
    ok && (contains_text(lower, "vite"@) || contains_text(lower, "@vite"@) || contains_text(
        lower,
        "main.jsx"@,
    ) || contains_text(lower, "/@fs/"@) || contains_text(lower, "/@id/"@) || (contains_text(
        lower,
        "<!doctype html"@,
    ) && encode_utf8(lower).len() > 120))
}

/// Whether a reply of `reply` bytes comes from the Vite dev server: it is not
/// empty, and its lossy UTF-8 decoding, lowercased, reads as a Vite page.
pub open spec fn vite_reply(reply: Seq<u8>) -> bool {
    reply.len() > 0 && vite_page_text(unicode_lowercase(lossy_utf8(reply)))
}

/// Decides whether an already lowercased reply reads as the Vite dev server.
pub fn is_vite_page_text(lower: &str) -> (b: bool)
    ensures
        b == vite_page_text(lower@),
{
    let t = chars_of(lower);
    let n = t.len();
    let ok_status = chars_of("200 ok");
    let mut ok = contains_within(&t, n, &ok_status);
    assert(t@.take(n as int) =~= t@);
    if !ok && n > 0 {
        let mut end: usize = 0;
        while end < n && t[end] != '\n'
            invariant
                end <= n == t.len(),
                line_end_from(t@, 0) == line_end_from(t@, end as int),
            decreases n - end,
        {
            end = end + 1;
        }
        assert(line_end_from(t@, end as int) == end);
        let stop = if end < n && end > 0 && t[end - 1] == '\r' {
            end - 1
        } else {
            end
        };
        let status_code = chars_of(" 200 ");
        ok = contains_within(&t, stop, &status_code);
        assert(first_line(t@) == Some(t@.take(stop as int)));
    }
    assert(ok == (contains_text(t@, "200 ok"@) || (match first_line(t@) {
        Some(line) => contains_text(line, " 200 "@),
        None => false,
    })));
    if !ok {
        return false;
    }
    let vite = chars_of("vite");
    let at_vite = chars_of("@vite");
    let main_jsx = chars_of("main.jsx");
    let fs_path = chars_of("/@fs/");
    let id_path = chars_of("/@id/");
    let doctype = chars_of("<!doctype html");
    let has_vite = contains_within(&t, n, &vite);
    let has_at_vite = contains_within(&t, n, &at_vite);
    let has_main_jsx = contains_within(&t, n, &main_jsx);
    let has_fs_path = contains_within(&t, n, &fs_path);
    let has_id_path = contains_within(&t, n, &id_path);
    let has_doctype = contains_within(&t, n, &doctype);
    let long_page = lower.as_bytes().len() > 120;
    assert(long_page == (encode_utf8(lower@).len() > 120));
    has_vite || has_at_vite || has_main_jsx || has_fs_path || has_id_path || (has_doctype
        && long_page)
}

/// Decides whether the bytes a probe read back from a port come from the Vite
/// dev server.
pub fn is_vite_reply(reply: &[u8]) -> (b: bool)
    ensures
        b == vite_reply(reply@),
{
    if reply.len() == 0 {
        return false;
    }
    let text = decode_lossy(reply);
    let lower = lowercase(text.as_str());
    is_vite_page_text(lower.as_str())
}

/// The address of the dev server on `port` of the local host.
pub open spec fn dev_url(port: u16) -> Seq<char> {
    "http://localhost:"@ + decimal(port as nat)
}

/// The address of the dev server on `port` of the local host.
pub fn dev_url_for(port: u16) -> (url: String)
    ensures
        url@ == dev_url(port),
{
    let mut url = String::from_str("http://localhost:");
    push_decimal(&mut url, port as u64);
    url
}

/// The highest port of the scan whose probe answered yes; `answers[i]` is the
/// answer for port `SCAN_FIRST_PORT + i`.
pub open spec fn highest_answering_port(answers: Seq<bool>) -> Option<u16>
    decreases answers.len(),
{
    if answers.len() == 0 {
        None
    } else if answers.last() {
        Some((SCAN_FIRST_PORT + answers.len() - 1) as u16)
    } else {
        highest_answering_port(answers.drop_last())
    }
}

/// Picks the highest port of the scan whose probe answered yes.
pub fn highest_answering_port_of(answers: &Vec<bool>) -> (port: Option<u16>)
    requires
        answers.len() == SCAN_PORT_COUNT,
    ensures
        port == highest_answering_port(answers@),
{
    let mut i: usize = answers.len();
    assert(answers@.take(i as int) =~= answers@);
    while i > 0
        invariant
            i <= answers.len() == SCAN_PORT_COUNT,
            highest_answering_port(answers@) == highest_answering_port(answers@.take(i as int)),
        decreases i,
    {
        assert(answers@.take(i as int).drop_last() =~= answers@.take(i - 1));
        if answers[i - 1] {
            return Some(SCAN_FIRST_PORT + (i - 1) as u16);
        }
        i = i - 1;
    }
    None
}

/// Probes every port of the scan, lowest first, and returns the highest one
/// whose probe answered yes.
pub fn best_vite_port_in_range<F: Fn(u16) -> bool>(is_vite: F) -> (port: Option<u16>)
    requires
        forall|p: u16| is_vite.requires((p,)),
    ensures
        exists|answers: Seq<bool>|
            {
                &&& answers.len() == SCAN_PORT_COUNT
                &&& forall|i: int|
                    0 <= i < SCAN_PORT_COUNT ==> is_vite.ensures(
                        ((SCAN_FIRST_PORT + i) as u16,),
                        #[trigger] answers[i],
                    )
                &&& port == highest_answering_port(answers)
            },
        port matches Some(p) ==> SCAN_FIRST_PORT <= p <= SCAN_LAST_PORT,
{
    let mut answers: Vec<bool> = Vec::new();
    let mut p: u16 = SCAN_FIRST_PORT;
    while p <= SCAN_LAST_PORT
        invariant
            SCAN_FIRST_PORT <= p <= SCAN_LAST_PORT + 1,
            answers.len() == p - SCAN_FIRST_PORT,
            forall|p: u16| is_vite.requires((p,)),
            forall|i: int|
                0 <= i < answers.len() ==> is_vite.ensures(
                    ((SCAN_FIRST_PORT + i) as u16,),
                    #[trigger] answers@[i],
                ),
        decreases SCAN_LAST_PORT + 1 - p,
    {
        let answer = is_vite(p);
        answers.push(answer);
        p = p + 1;
    }
    let port = highest_answering_port_of(&answers);
    assert(answers@.len() == SCAN_PORT_COUNT);
    proof {
        scan_prefers_highest_port(answers@);
    }
    port
}


/// The scan prefers the highest answering port: the port it picks answered,
/// and no higher port of the range did; it picks none only when no port
/// answered.
pub proof fn scan_prefers_highest_port(answers: Seq<bool>)
    requires
        answers.len() <= SCAN_PORT_COUNT,
    ensures
        match highest_answering_port(answers) {
            Some(p) => {
                &&& SCAN_FIRST_PORT <= p < SCAN_FIRST_PORT + answers.len()
                &&& answers[p - SCAN_FIRST_PORT]
                &&& forall|i: int| p - SCAN_FIRST_PORT < i < answers.len() ==> !#[trigger] answers[i]
            },
            None => forall|i: int| 0 <= i < answers.len() ==> !#[trigger] answers[i],
        },
    decreases answers.len(),
{
    if answers.len() > 0 {
        if answers.last() {
            let p = (SCAN_FIRST_PORT + answers.len() - 1) as u16;
            assert(p == SCAN_FIRST_PORT + answers.len() - 1);
            assert(highest_answering_port(answers) == Some(p));
            assert(answers[p - SCAN_FIRST_PORT]);
        } else {
            let rest = answers.drop_last();
            scan_prefers_highest_port(rest);
            assert(!answers[answers.len() - 1]);
            let lo: int = match highest_answering_port(rest) {
                Some(p) => p - SCAN_FIRST_PORT + 1,
                None => 0,
            };
            assert forall|i: int| lo <= i < answers.len() implies !#[trigger] answers[i] by {
                if i < answers.len() - 1 {
                    assert(answers[i] == rest[i]);
                }
            }
            if let Some(p) = highest_answering_port(rest) {
                assert(answers[p - SCAN_FIRST_PORT] == rest[p - SCAN_FIRST_PORT]);
            }
        }
    }
}


/// A reply is taken for Vite only when it carries a Vite marker (`vite`,
/// `main.jsx`, `/@fs/`, `/@id/`) or is an HTML document (`<!doctype html`)
/// of more than 120 bytes; a reply with neither is refused whatever its
/// length. It must also carry a 200 status. With a 200 OK status, any Vite
/// marker suffices.
pub proof fn vite_reply_needs_marker(lower: Seq<char>)
    ensures
        !contains_text(lower, "vite"@) && !contains_text(lower, "@vite"@) && !contains_text(
            lower,
            "main.jsx"@,
        ) && !contains_text(lower, "/@fs/"@) && !contains_text(lower, "/@id/"@)
            && !contains_text(lower, "<!doctype html"@) ==> !vite_page_text(lower),
        vite_page_text(lower) && !contains_text(lower, "vite"@) && !contains_text(lower, "@vite"@)
            && !contains_text(lower, "main.jsx"@) && !contains_text(lower, "/@fs/"@)
            && !contains_text(lower, "/@id/"@) ==> encode_utf8(lower).len() > 120,
        !contains_text(lower, "200 ok"@) && !(first_line(lower) matches Some(l) && contains_text(
            l,
            " 200 "@,
        )) ==> !vite_page_text(lower),
        contains_text(lower, "200 ok"@) && (contains_text(lower, "vite"@) || contains_text(
            lower,
            "main.jsx"@,
        ) || contains_text(lower, "/@fs/"@) || contains_text(lower, "/@id/"@)) ==> vite_page_text(
            lower,
        ),
        contains_text(lower, "200 ok"@) && contains_text(lower, "<!doctype html"@) && encode_utf8(
            lower,
        ).len() > 120 ==> vite_page_text(lower),
{
}


/// The address loaded for `port` is `http://localhost:` followed by a port
/// text that reads back, as the port file and `UTAH_VITE_PORT` are read, as
/// `port` itself.
pub proof fn dev_url_names_port(port: u16)
    ensures
        dev_url(port).take("http://localhost:"@.len() as int) == "http://localhost:"@,
        parse_u16_text(trimmed(dev_url(port).skip("http://localhost:"@.len() as int))) == Some(port),
{
    let p = "http://localhost:"@;
    assert(dev_url(port).take(p.len() as int) =~= p);
    assert(dev_url(port).skip(p.len() as int) =~= decimal(port as nat));
    decimal_port_reads_back(port);
}

} // verus!
