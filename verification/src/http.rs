use vstd::prelude::*;
use vstd::utf8::*;

use crate::text::decimal;

verus! {

/// A status code that `reqwest::StatusCode` can hold.
pub open spec fn valid_status(code: u16) -> bool {
    100 <= code <= 999
}

/// `StatusCode::is_success`: the 2xx range.
pub open spec fn success_status(code: u16) -> bool {
    200 <= code < 300
}

/// `StatusCode::is_client_error`: the 4xx range.
pub open spec fn client_error_status(code: u16) -> bool {
    400 <= code < 500
}

pub fn is_success(code: u16) -> (b: bool)
    ensures
        b == success_status(code),
{
    200 <= code && code < 300
}

pub fn is_client_error(code: u16) -> (b: bool)
    ensures
        b == client_error_status(code),
{
    400 <= code && code < 500
}

/// The reason phrase that the `http` crate's registry gives to a status
/// code (`StatusCode::canonical_reason`), if it knows one.
pub uninterp spec fn canonical_reason(code: u16) -> Option<Seq<char>>;

/// Calls `reqwest::StatusCode::from_u16` and `canonical_reason` on the result.
/// Claimed: the phrase returned is the registry's phrase for `code`, the same
/// for the same code. `from_u16` accepts exactly the codes 100..=999.
#[verifier::external_body]
fn reason_phrase(code: u16) -> (r: Option<String>)
    requires
        valid_status(code),
    ensures
        match r {
            Some(s) => canonical_reason(code) == Some(s@),
            None => canonical_reason(code) is None,
        },
{
    reqwest::StatusCode::from_u16(code).unwrap().canonical_reason().map(|s| s.to_string())
}

/// How a status displays given its reason phrase: the code, a space, and
/// the phrase, or `<unknown status code>` when there is none.
pub open spec fn status_display_with(code: u16, reason: Option<Seq<char>>) -> Seq<char> {
    decimal(code as nat) + " "@ + match reason {
        Some(r) => r,
        None => "<unknown status code>"@,
    }
}

/// How `StatusCode` displays (`format!("{}", status)`).
pub open spec fn status_display(code: u16) -> Seq<char> {
    status_display_with(code, canonical_reason(code))
}

/// Writes a status code with the reason phrase that goes with it.
pub fn format_status(code: u16, reason: Option<&str>) -> (s: String)
    ensures
        s@ == status_display_with(
            code,
            match reason {
                Some(r) => Some(r@),
                None => None,
            },
        ),
{
    let mut s = crate::text::u64_to_decimal(code as u64);
    s.append(" ");
    match reason {
        Some(r) => s.append(r),
        None => s.append("<unknown status code>"),
    }
    s
}

/// The text that `format!("{}", status)` produces for a response status.
pub fn status_text(code: u16) -> (s: String)
    requires
        valid_status(code),
    ensures
        s@ == status_display(code),
{
    match reason_phrase(code) {
        Some(reason) => format_status(code, Some(reason.as_str())),
        None => format_status(code, None),
    }
}

/// A byte that `HeaderValue::to_str` accepts: visible ASCII or a tab.
pub open spec fn visible_ascii(b: u8) -> bool {
    (32 <= b && b < 127) || b == 9
}

/// A character that `HeaderValue::from_str` accepts. Bytes of multi-byte
/// UTF-8 sequences are all at least 128, so every non-ASCII character passes.
pub open spec fn header_value_char(c: char) -> bool {
    (c as u32 >= 32 && c as u32 != 127) || c == '\t'
}

/// A string that `HeaderValue::from_str` turns into a header value.
pub open spec fn valid_header_value(s: Seq<char>) -> bool {
    forall|i: int| 0 <= i < s.len() ==> header_value_char(#[trigger] s[i])
}

/// Decides whether `s` can be sent as a header value.
pub fn is_valid_header_value(s: &str) -> (b: bool)
    ensures
        b == valid_header_value(s@),
{
    let n = s.unicode_len();
    let mut i: usize = 0;
    while i < n
        invariant
            n == s@.len(),
            i <= n,
            forall|j: int| 0 <= j < i ==> header_value_char(#[trigger] s@[j]),
        decreases n - i,
    {
        let c = s.get_char(i);
        if !((c as u32 >= 32 && c as u32 != 127) || c == '\t') {
            return false;
        }
        i += 1;
    }
    true
}

/// The characters of a sequence of ASCII bytes.
pub open spec fn ascii_chars(bytes: Seq<u8>) -> Seq<char> {
    bytes.map_values(|b: u8| b as char)
}

/// `String::from_utf8`. Claimed, as std documents it: the conversion
/// succeeds exactly on valid UTF-8 and then holds the decoded characters.
#[verifier::external_body]
fn string_from_utf8(bytes: Vec<u8>) -> (r: Option<String>)
    ensures
        r is Some <==> valid_utf8(bytes@),
        r matches Some(s) ==> s@ == decode_utf8(bytes@),
{
    String::from_utf8(bytes).ok()
}

proof fn lemma_ascii_bytes_decode(bytes: Seq<u8>)
    requires
        forall|i: int| 0 <= i < bytes.len() ==> #[trigger] bytes[i] < 128,
    ensures
        valid_utf8(bytes),
        decode_utf8(bytes) == ascii_chars(bytes),
{
    let chars = ascii_chars(bytes);
    assert(is_ascii_chars(chars)) by {
        assert forall|i| 0 <= i < chars.len() implies '\0' <= #[trigger] chars[i] <= '\u{7f}' by {
            assert(bytes[i] < 128);
        }
    }
    is_ascii_chars_encode_utf8(chars);
    assert forall|i| 0 <= i < bytes.len() implies #[trigger] encode_utf8(chars)[i] == bytes[i] by {
        assert(chars[i] as u8 == encode_utf8(chars)[i]);
        let b = bytes[i];
        assert((b as char) as u8 == b);
    }
    assert(encode_utf8(chars) =~= bytes);
    encode_utf8_valid_utf8(chars);
    encode_utf8_decode_utf8(chars);
}

/// `HeaderValue::to_str` followed by `to_string`: the header as text when all
/// of its bytes are visible ASCII, nothing otherwise.
pub fn header_value_to_string(bytes: &Vec<u8>) -> (r: Option<String>)
    ensures
        r is Some <==> forall|i: int| 0 <= i < bytes@.len() ==> visible_ascii(#[trigger] bytes@[i]),
        r matches Some(s) ==> s@ == ascii_chars(bytes@),
{
    let mut i: usize = 0;
    while i < bytes.len()
        invariant
            i <= bytes@.len(),
            forall|j: int| 0 <= j < i ==> visible_ascii(#[trigger] bytes@[j]),
        decreases bytes@.len() - i,
    {
        let b = bytes[i];
        if !((32 <= b && b < 127) || b == 9) {
            return None;
        }
        i += 1;
    }
    proof {
        lemma_ascii_bytes_decode(bytes@);
    }
    string_from_utf8(bytes.clone())
}

/// The body sent with every request.
pub const REQUEST_BODY: &'static str = "{}";

/// The header that carries the CSRF token, in both directions.
pub const CSRF_TOKEN_HEADER: &'static str = "x-csrf-token";

/// The response header that carries an authentication ticket.
pub const AUTHENTICATION_TICKET_HEADER: &'static str = "rbx-authentication-ticket";

/// The browser identity the client presents.
pub const USER_AGENT: &'static str = "Mozilla/5.0 (Windows NT 10.0; Win64; x64) AppleWebKit/537.36 (KHTML, like Gecko) Chrome/131.0.0.0 Safari/537.36";

/// The value of the session cookie header for `token`.
pub open spec fn cookie_header_value(token: Seq<char>) -> Seq<char> {
    ".ROBLOSECURITY="@ + token
}

/// The headers of every request, in the order they are appended; the
/// referer is sent twice.
pub open spec fn request_header_list(token: Seq<char>) -> Seq<(Seq<char>, Seq<char>)> {
    seq![
        ("cookie"@, cookie_header_value(token)),
        ("referer"@, "https://www.roblox.com/"@),
        ("referer"@, "https://www.roblox.com/"@),
        ("origin"@, "https://www.roblox.com"@),
        ("accept"@, "application/json, text/plain, */*"@),
        ("content-type"@, "application/json"@),
        ("accept-language"@, "en-US,en;q=0.9"@),
        ("user-agent"@, USER_AGENT@),
    ]
}

/// The views of a list of header name/value pairs.
pub open spec fn header_views(headers: Seq<(String, String)>) -> Seq<(Seq<char>, Seq<char>)> {
    headers.map_values(|h: (String, String)| (h.0@, h.1@))
}

fn header(name: &str, value: &str) -> (h: (String, String))
    ensures
        h.0@ == name@,
        h.1@ == value@,
{
    (String::from_str(name), String::from_str(value))
}

/// The headers that a request made with the session `token` carries.
pub fn request_headers(token: &str) -> (headers: Vec<(String, String)>)
    ensures
        header_views(headers@) == request_header_list(token@),
{
    let mut headers: Vec<(String, String)> = Vec::new();
    let cookie = crate::text::concatenate(".ROBLOSECURITY=", token);
    headers.push((String::from_str("cookie"), cookie));
    headers.push(header("referer", "https://www.roblox.com/"));
    headers.push(header("referer", "https://www.roblox.com/"));
    headers.push(header("origin", "https://www.roblox.com"));
    headers.push(header("accept", "application/json, text/plain, */*"));
    headers.push(header("content-type", "application/json"));
    headers.push(header("accept-language", "en-US,en;q=0.9"));
    headers.push(header("user-agent", USER_AGENT));
    assert(header_views(headers@) =~= request_header_list(token@));
    headers
}

/// The session cookie can be sent exactly when the token itself is a valid
/// header value: the cookie's fixed prefix never spoils it.
pub proof fn law_cookie_valid_iff_token_valid(token: Seq<char>)
    ensures
        valid_header_value(cookie_header_value(token)) <==> valid_header_value(token),
{
    reveal_strlit(".ROBLOSECURITY=");
    let prefix = ".ROBLOSECURITY="@;
    let cookie = cookie_header_value(token);
    assert forall|i: int| 0 <= i < prefix.len() implies header_value_char(#[trigger] cookie[i]) by {
        assert(cookie[i] == prefix[i]);
    }
    if valid_header_value(cookie) {
        assert forall|i: int| 0 <= i < token.len() implies header_value_char(#[trigger] token[i]) by {
            assert(cookie[i + prefix.len()] == token[i]);
        }
    }
    if valid_header_value(token) {
        assert forall|i: int| 0 <= i < cookie.len() implies header_value_char(#[trigger] cookie[i]) by {
            if i >= prefix.len() {
                assert(cookie[i] == token[i - prefix.len()]);
            }
        }
    }
}

} // verus!
