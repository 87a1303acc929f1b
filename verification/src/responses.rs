//! How the client reads each answer of the Roblox API: which statuses are
//! failures, which header or JSON member carries the result, and which
//! error is reported otherwise.

use vstd::prelude::*;

use crate::error::RobloxError;
use crate::http::{
    ascii_chars, client_error_status, header_value_to_string, is_client_error, is_success,
    status_display, status_text, success_status, valid_status, visible_ascii,
};
use crate::json::{
    array_field, bool_field, field_bool, field_i64, field_str, field_u64, i64_field, nested,
    as_bool_of, nested_bool, str_field, u64_field, JsonValue,
};
use crate::text::{concatenate, first_chars, take_chars};

verus! {

/// How many characters of an error body are quoted in an error message.
pub const QUOTED_BODY_CHARS: usize = 200;

/// Every byte of a header is visible ASCII (or a tab), so that it reads as text.
pub open spec fn readable_header(bytes: Seq<u8>) -> bool {
    forall|i: int| 0 <= i < bytes.len() ==> visible_ascii(#[trigger] bytes[i])
}

fn quoted(body: &str) -> (r: String)
    ensures
        r@ == first_chars(body@, 200),
{
    take_chars(body, QUOTED_BODY_CHARS)
}

// ---------------------------------------------------------------------------
// CSRF token and authentication ticket
// ---------------------------------------------------------------------------

/// The characters of readable header bytes are all valid in a header value.
proof fn lemma_readable_header_sendable(bytes: Seq<u8>)
    requires
        readable_header(bytes),
    ensures
        crate::http::valid_header_value(ascii_chars(bytes)),
{
    let chars = ascii_chars(bytes);
    assert forall|i: int| 0 <= i < chars.len() implies crate::http::header_value_char(
        #[trigger] chars[i],
    ) by {
        assert(visible_ascii(bytes[i]));
        assert(chars[i] == bytes[i] as char);
    }
}

/// Reads the CSRF token out of the answer to a token-less logout request.
/// Only a client error carries one; the header must then be readable text.
pub fn csrf_token_from_response(status: u16, header: Option<Vec<u8>>) -> (r: Result<
    String,
    RobloxError,
>)
    ensures
        !client_error_status(status) && status != 403 ==> (r matches Err(RobloxError::UnexpectedStatus(s)) && s == status),
        client_error_status(status) || status == 403 ==> match header {
            None => r matches Err(RobloxError::InvalidCsrfToken(m)) && m@
                == "Header x-csrf-token not found"@,
            Some(bytes) => if readable_header(bytes@) {
                r matches Ok(t) && t@ == ascii_chars(bytes@)
            } else {
                r matches Err(RobloxError::InvalidCsrfToken(m)) && m@
                    == "Failed to parse x-csrf-token: failed to convert header to a str"@
            },
        },
        // A token that is accepted can always be sent back in `x-csrf-token`.
        r matches Ok(t) ==> crate::http::valid_header_value(t@),
{
    if !is_client_error(status) && status != 403 {
        return Err(RobloxError::UnexpectedStatus(status));
    }
    match header {
        None => Err(RobloxError::InvalidCsrfToken(String::from_str("Header x-csrf-token not found"))),
        Some(bytes) => match header_value_to_string(&bytes) {
            Some(token) => {
                proof {
                    lemma_readable_header_sendable(bytes@);
                }
                Ok(token)
            },
            None => Err(
                RobloxError::InvalidCsrfToken(
                    String::from_str(
                        "Failed to parse x-csrf-token: failed to convert header to a str",
                    ),
                ),
            ),
        },
    }
}

/// The error for a refused ticket request; `body` is the answer's text,
/// of which at most 200 characters are quoted.
pub fn authentication_ticket_failure(status: u16, body: &str) -> (e: RobloxError)
    requires
        valid_status(status),
        !success_status(status),
    ensures
        status == 403 ==> (e matches RobloxError::AuthenticationFailed(m) && m@ == "403 Forbidden: "@
            + first_chars(body@, 200)),
        status != 403 ==> (e matches RobloxError::AuthenticationFailed(m) && m@
            == "Failed to get authentication ticket (status: "@ + status_display(status) + "): "@
            + first_chars(body@, 200)),
{
    let q = quoted(body);
    if status == 403 {
        return RobloxError::AuthenticationFailed(concatenate("403 Forbidden: ", q.as_str()));
    }
    let mut m = String::from_str("Failed to get authentication ticket (status: ");
    let st = status_text(status);
    m.append(st.as_str());
    m.append("): ");
    m.append(q.as_str());
    RobloxError::AuthenticationFailed(m)
}

/// Reads the ticket out of the `rbx-authentication-ticket` header of a
/// successful ticket request.
pub fn authentication_ticket_from_header(header: Option<Vec<u8>>) -> (r: Result<String, RobloxError>)
    ensures
        match header {
            None => r matches Err(RobloxError::AuthenticationFailed(m)) && m@
                == "rbx-authentication-ticket header not found"@,
            Some(bytes) => if readable_header(bytes@) {
                r matches Ok(t) && t@ == ascii_chars(bytes@)
            } else {
                r matches Err(RobloxError::AuthenticationFailed(m)) && m@
                    == "Invalid authentication ticket"@
            },
        },
{
    match header {
        None => Err(
            RobloxError::AuthenticationFailed(
                String::from_str("rbx-authentication-ticket header not found"),
            ),
        ),
        Some(bytes) => match header_value_to_string(&bytes) {
            Some(ticket) => Ok(ticket),
            None => Err(
                RobloxError::AuthenticationFailed(String::from_str("Invalid authentication ticket")),
            ),
        },
    }
}

// ---------------------------------------------------------------------------
// Account id
// ---------------------------------------------------------------------------

/// The error for a refused settings request, asked for the account id;
/// `body` is the answer's text, of which at most 200 characters are quoted.
pub fn account_id_failure(status: u16, body: &str) -> (e: RobloxError)
    requires
        valid_status(status),
        !success_status(status),
    ensures
        status == 403 ==> (e matches RobloxError::InvalidAccountId(m) && m@ == "403 Forbidden: "@
            + first_chars(body@, 200)),
        status != 403 ==> (e matches RobloxError::InvalidAccountId(m) && m@
            == "Request failed with status: "@ + status_display(status) + ". Ответ: "@
            + first_chars(body@, 200)),
{
    let q = quoted(body);
    if status == 403 {
        return RobloxError::InvalidAccountId(concatenate("403 Forbidden: ", q.as_str()));
    }
    let mut m = String::from_str("Request failed with status: ");
    let st = status_text(status);
    m.append(st.as_str());
    m.append(". Ответ: ");
    m.append(q.as_str());
    RobloxError::InvalidAccountId(m)
}

/// Reads the account id (`UserId`) out of the settings document.
pub fn account_id_from_json(json: &JsonValue) -> (r: Result<u64, RobloxError>)
    ensures
        match json.spec_get("UserId"@) {
            Some(JsonValue::Number(n)) => match (JsonValue::Number(n)).spec_as_u64() {
                Some(id) => r matches Ok(v) && v == id,
                None => r matches Err(RobloxError::InvalidAccountId(m)) && m@
                    == "Error to fetch account id"@,
            },
            _ => r matches Err(RobloxError::InvalidAccountId(m)) && m@
                == "UserId field not found or invalid"@,
        },
{
    match json.get("UserId") {
        Some(JsonValue::Number(n)) => match JsonValue::Number(*n).as_u64() {
            Some(id) => Ok(id),
            None => Err(RobloxError::InvalidAccountId(String::from_str("Error to fetch account id"))),
        },
        _ => Err(
            RobloxError::InvalidAccountId(String::from_str("UserId field not found or invalid")),
        ),
    }
}

// ---------------------------------------------------------------------------
// The settings document
// ---------------------------------------------------------------------------

/// A string member, or `default` when it is missing or not a string.
pub open spec fn str_or(json: JsonValue, key: Seq<char>, default: Seq<char>) -> Seq<char> {
    match field_str(json, key) {
        Some(s) => s,
        None => default,
    }
}

/// A boolean member, or `false` when it is missing or not a boolean.
pub open spec fn flag(json: JsonValue, key: Seq<char>) -> bool {
    match field_bool(json, key) {
        Some(b) => b,
        None => false,
    }
}

/// A boolean member of the `MyAccountSecurityModel` object, or `false`.
pub open spec fn security_flag(json: JsonValue, key: Seq<char>) -> bool {
    match as_bool_of(nested(json, "MyAccountSecurityModel"@, key)) {
        Some(b) => b,
        None => false,
    }
}

/// A settings flag reads the member itself: when `key` holds the boolean
/// `b`, the flag is `b` (false as well as true); when it holds anything else,
/// or is absent, the flag is false.
pub proof fn law_flag_reads_member(json: JsonValue, key: Seq<char>)
    ensures
        forall|b: bool| json.spec_get(key) == Some(JsonValue::Bool(b)) ==> flag(json, key) == b,
        !(json.spec_get(key) matches Some(JsonValue::Bool(_))) ==> !flag(json, key),
{
}

/// A security flag reads the member of `MyAccountSecurityModel` itself: the
/// boolean it holds, or false when it is absent or no boolean.
pub proof fn law_security_flag_reads_member(json: JsonValue, key: Seq<char>)
    ensures
        forall|model: JsonValue, b: bool|
            json.spec_get("MyAccountSecurityModel"@) == Some(model) && model.spec_get(key) == Some(
                JsonValue::Bool(b),
            ) ==> security_flag(json, key) == b,
        json.spec_get("MyAccountSecurityModel"@) is None ==> !security_flag(json, key),
{
}

/// A text setting reads the member itself: when `key` holds the string `t`
/// the result is `t`, whatever `t` is; otherwise it is the default.
pub proof fn law_text_setting_reads_member(json: JsonValue, key: Seq<char>, default: Seq<char>)
    ensures
        forall|t: String| json.spec_get(key) == Some(JsonValue::String(t)) ==> str_or(json, key, default)
            == t@,
        !(json.spec_get(key) matches Some(JsonValue::String(_))) ==> str_or(json, key, default)
            == default,
{
}

fn string_or(json: &JsonValue, key: &str, default: &str) -> (r: String)
    ensures
        r@ == str_or(*json, key@, default@),
{
    match str_field(json, key) {
        Some(s) => s,
        None => String::from_str(default),
    }
}

fn flag_of(json: &JsonValue, key: &str) -> (r: bool)
    ensures
        r == flag(*json, key@),
{
    match bool_field(json, key) {
        Some(b) => b,
        None => false,
    }
}

fn security_flag_of(json: &JsonValue, key: &str) -> (r: bool)
    ensures
        r == security_flag(*json, key@),
{
    match nested_bool(json, "MyAccountSecurityModel", key) {
        Some(b) => b,
        None => false,
    }
}

/// The user name (`Name`), empty when absent.
pub fn name_from_info(info: &JsonValue) -> (r: String)
    ensures
        r@ == str_or(*info, "Name"@, ""@),
{
    string_or(info, "Name", "")
}

/// The display name (`DisplayName`), empty when absent.
pub fn display_name_from_info(info: &JsonValue) -> (r: String)
    ensures
        r@ == str_or(*info, "DisplayName"@, ""@),
{
    string_or(info, "DisplayName", "")
}

/// The account age (`AccountAgeInDays`) when it is given as a string, `"0"` otherwise.
pub fn register_data_from_info(info: &JsonValue) -> (r: String)
    ensures
        r@ == str_or(*info, "AccountAgeInDays"@, "0"@),
{
    string_or(info, "AccountAgeInDays", "0")
}

/// Whether the account has Premium (`IsPremium`).
pub fn is_premium_from_info(info: &JsonValue) -> (r: bool)
    ensures
        r == flag(*info, "IsPremium"@),
{
    flag_of(info, "IsPremium")
}

/// Whether the account may trade (`CanTrade`).
pub fn can_trade_from_info(info: &JsonValue) -> (r: bool)
    ensures
        r == flag(*info, "CanTrade"@),
{
    flag_of(info, "CanTrade")
}

/// Whether the user is older than 13 (`UserAbove13`).
pub fn above_13_from_info(info: &JsonValue) -> (r: bool)
    ensures
        r == flag(*info, "UserAbove13"@),
{
    flag_of(info, "UserAbove13")
}

/// Whether an e-mail address is set.
pub fn email_set_from_info(info: &JsonValue) -> (r: bool)
    ensures
        r == security_flag(*info, "IsEmailSet"@),
{
    security_flag_of(info, "IsEmailSet")
}

/// Whether the e-mail address is verified.
pub fn email_verified_from_info(info: &JsonValue) -> (r: bool)
    ensures
        r == security_flag(*info, "IsEmailVerified"@),
{
    security_flag_of(info, "IsEmailVerified")
}

/// Whether two-step verification is enabled.
pub fn two_factor_authentication_from_info(info: &JsonValue) -> (r: bool)
    ensures
        r == security_flag(*info, "IsTwoStepVerificationEnabled"@),
{
    security_flag_of(info, "IsTwoStepVerificationEnabled")
}

// ---------------------------------------------------------------------------
// Robux and other single values
// ---------------------------------------------------------------------------

/// The Robux balance (`robux`).
pub fn robux_balance_from_json(json: &JsonValue) -> (r: Result<u64, RobloxError>)
    ensures
        match field_u64(*json, "robux"@) {
            Some(v) => r matches Ok(x) && x == v,
            None => r matches Err(RobloxError::RobuxBalanceError(m)) && m@
                == "robux field missing"@,
        },
{
    match u64_field(json, "robux") {
        Some(v) => Ok(v),
        None => Err(RobloxError::RobuxBalanceError(String::from_str("robux field missing"))),
    }
}

/// The pending Robux of the past year (`pendingRobuxTotal`).
pub fn pending_robux_from_json(json: &JsonValue) -> (r: Result<u64, RobloxError>)
    ensures
        match field_u64(*json, "pendingRobuxTotal"@) {
            Some(v) => r matches Ok(x) && x == v,
            None => r matches Err(RobloxError::RobuxBalanceError(m)) && m@
                == "pendingRobuxTotal missing"@,
        },
{
    match u64_field(json, "pendingRobuxTotal") {
        Some(v) => Ok(v),
        None => Err(RobloxError::RobuxBalanceError(String::from_str("pendingRobuxTotal missing"))),
    }
}

/// `i64::unsigned_abs`: the magnitude of `v`.
pub open spec fn magnitude(v: i64) -> int {
    if v < 0 {
        -v
    } else {
        v as int
    }
}

/// The magnitude of `v` as a `u64`; never overflows, `i64::MIN` included.
pub fn unsigned_abs(v: i64) -> (r: u64)
    ensures
        r == magnitude(v),
{
    if v >= 0 {
        v as u64
    } else {
        let below: i64 = -(v + 1);
        (below as u64) + 1
    }
}

/// The Robux spent over the past year: the magnitude of `outgoingRobuxTotal`.
pub fn total_robux_for_year_from_json(json: &JsonValue) -> (r: Result<u64, RobloxError>)
    ensures
        match field_i64(*json, "outgoingRobuxTotal"@) {
            Some(v) => r matches Ok(x) && x == magnitude(v),
            None => r matches Err(RobloxError::RobuxBalanceError(m)) && m@
                == "outgoingRobuxTotal missing"@,
        },
{
    match i64_field(json, "outgoingRobuxTotal") {
        Some(v) => Ok(unsigned_abs(v)),
        None => Err(RobloxError::RobuxBalanceError(String::from_str("outgoingRobuxTotal missing"))),
    }
}

/// The pending Robux of a group (`pendingRobux`).
pub fn group_robux_pending_from_json(json: &JsonValue) -> (r: Result<u64, RobloxError>)
    ensures
        match field_u64(*json, "pendingRobux"@) {
            Some(v) => r matches Ok(x) && x == v,
            None => r matches Err(RobloxError::RobuxBalanceError(m)) && m@
                == "pendingRobux field not found"@,
        },
{
    match u64_field(json, "pendingRobux") {
        Some(v) => Ok(v),
        None => Err(RobloxError::RobuxBalanceError(String::from_str("pendingRobux field not found"))),
    }
}

/// The Robux funds of a group (`robux`).
pub fn group_robux_from_json(json: &JsonValue) -> (r: Result<u64, RobloxError>)
    ensures
        match field_u64(*json, "robux"@) {
            Some(v) => r matches Ok(x) && x == v,
            None => r matches Err(RobloxError::GroupRobuxError(m)) && m@
                == "robux field not found"@,
        },
{
    match u64_field(json, "robux") {
        Some(v) => Ok(v),
        None => Err(RobloxError::GroupRobuxError(String::from_str("robux field not found"))),
    }
}

/// The gift-card credit (`robuxAmount`).
pub fn billing_robux_from_json(json: &JsonValue) -> (r: Result<u64, RobloxError>)
    ensures
        match field_u64(*json, "robuxAmount"@) {
            Some(v) => r matches Ok(x) && x == v,
            None => r matches Err(RobloxError::RobuxBalanceError(m)) && m@
                == "robuxAmount field not found"@,
        },
{
    match u64_field(json, "robuxAmount") {
        Some(v) => Ok(v),
        None => Err(RobloxError::RobuxBalanceError(String::from_str("robuxAmount field not found"))),
    }
}

/// Whether the age is verified (`isVerified`).
pub fn verified_age_from_json(json: &JsonValue) -> (r: Result<bool, RobloxError>)
    ensures
        match field_bool(*json, "isVerified"@) {
            Some(v) => r matches Ok(x) && x == v,
            None => r matches Err(RobloxError::VerifiedAgeError(m)) && m@
                == "isVerified field not found"@,
        },
{
    match bool_field(json, "isVerified") {
        Some(v) => Ok(v),
        None => Err(RobloxError::VerifiedAgeError(String::from_str("isVerified field not found"))),
    }
}

/// The country code (`countryCode`).
pub fn country_from_json(json: &JsonValue) -> (r: Result<String, RobloxError>)
    ensures
        match field_str(*json, "countryCode"@) {
            Some(v) => r matches Ok(x) && x@ == v,
            None => r matches Err(RobloxError::CountryCodeError(m)) && m@
                == "countryCode field not found"@,
        },
{
    match str_field(json, "countryCode") {
        Some(v) => Ok(v),
        None => Err(RobloxError::CountryCodeError(String::from_str("countryCode field not found"))),
    }
}

/// The number of friends (`count`).
pub fn friends_count_from_json(json: &JsonValue) -> (r: Result<u64, RobloxError>)
    ensures
        match field_u64(*json, "count"@) {
            Some(v) => r matches Ok(x) && x == v,
            None => r matches Err(RobloxError::MissingField(m)) && m@ == "count field missing"@,
        },
{
    match u64_field(json, "count") {
        Some(v) => Ok(v),
        None => Err(RobloxError::MissingField(String::from_str("count field missing"))),
    }
}

/// The number of saved payment cards: the length of the top-level array,
/// kept to its low 8 bits as `as u8` does; 0 when the answer is no array.
pub fn cards_count_from_json(json: &JsonValue) -> (r: u8)
    ensures
        match json.spec_as_array() {
            Some(cards) => r == cards.len() % 256,
            None => r == 0,
        },
{
    match json.as_array() {
        Some(cards) => {
            let n = cards.len();
            let low: usize = n % 256;
            low as u8
        },
        None => 0,
    }
}

/// The price an entry contributes to a total: its `recentAveragePrice`
/// when that is a `u64`, nothing otherwise.
pub open spec fn price_of(item: JsonValue) -> nat {
    match field_u64(item, "recentAveragePrice"@) {
        Some(p) => p as nat,
        None => 0,
    }
}

/// The sum of the prices of `items`.
pub open spec fn price_total(items: Seq<JsonValue>) -> nat
    decreases items.len(),
{
    if items.len() == 0 {
        0
    } else {
        price_total(items.drop_last()) + price_of(items.last())
    }
}

/// A total is built entry by entry: no entries total 0, and one more entry
/// adds exactly its `recentAveragePrice` when that member is a `u64`, and
/// nothing otherwise, whatever other members the entry has.
pub proof fn law_price_total_adds_each_entry(items: Seq<JsonValue>, item: JsonValue)
    ensures
        price_total(Seq::<JsonValue>::empty()) == 0,
        forall|p: u64| item.spec_get("recentAveragePrice"@) == Some(JsonValue::Number(crate::json::JsonNumber::PosInt(p)))
            ==> price_total(items.push(item)) == price_total(items) + p,
        !(item.spec_get("recentAveragePrice"@) matches Some(JsonValue::Number(crate::json::JsonNumber::PosInt(_))))
            ==> price_total(items.push(item)) == price_total(items),
{
    assert(items.push(item).drop_last() =~= items);
}

/// The sum of the `recentAveragePrice` of the entries under `data` (0 when
/// `data` is no array). Summing `u64`s overflows past `u64::MAX`: then the
/// answer is `None`.
pub fn total_recent_average_price(json: &JsonValue) -> (r: Option<u64>)
    ensures
        match r {
            Some(total) => total == price_total(crate::json::listed(*json, "data"@)),
            None => price_total(crate::json::listed(*json, "data"@)) > u64::MAX,
        },
{
    let items = match array_field(json, "data") {
        Some(items) => items,
        None => return Some(0),
    };
    let mut total: u64 = 0;
    let mut i: usize = 0;
    while i < items.len()
        invariant
            i <= items@.len(),
            total == price_total(items@.take(i as int)),
            crate::json::listed(*json, "data"@) == items@,
        decreases items@.len() - i,
    {
        assert(items@.take(i + 1).drop_last() =~= items@.take(i as int));
        let price: u64 = match u64_field(&items[i], "recentAveragePrice") {
            Some(p) => p,
            None => 0,
        };
        match total.checked_add(price) {
            Some(t) => total = t,
            None => {
                proof {
                    assert(items@.take(i + 1).last() == items@[i as int]);
                    assert(price_total(items@.take(i + 1)) == total + price);
                    lemma_price_total_prefix(items@, i as int + 1);
                }
                return None;
            },
        }
        i += 1;
    }
    assert(items@.take(items@.len() as int) =~= items@);
    Some(total)
}

/// A total never shrinks as entries are added.
proof fn lemma_price_total_prefix(items: Seq<JsonValue>, n: int)
    requires
        0 <= n <= items.len(),
    ensures
        price_total(items.take(n)) <= price_total(items),
    decreases items.len() - n,
{
    if n < items.len() {
        lemma_price_total_prefix(items, n + 1);
        assert(items.take(n + 1).drop_last() =~= items.take(n));
    } else {
        assert(items.take(n) =~= items);
    }
}

// ---------------------------------------------------------------------------
// Status checks
// ---------------------------------------------------------------------------

/// `"status "` followed by how the status displays.
pub open spec fn status_message(status: u16) -> Seq<char> {
    "status "@ + status_display(status)
}

fn status_line(status: u16) -> (m: String)
    requires
        valid_status(status),
    ensures
        m@ == status_message(status),
{
    let st = status_text(status);
    concatenate("status ", st.as_str())
}

/// Checks the status of the request for received friend requests.
pub fn pending_friends_status(status: u16) -> (r: Result<(), RobloxError>)
    requires
        valid_status(status),
    ensures
        success_status(status) ==> r is Ok,
        !success_status(status) ==> (r matches Err(RobloxError::FriendRequestsFetchFailed(m))
            && m@ == status_message(status)),
{
    if is_success(status) {
        Ok(())
    } else {
        Err(RobloxError::FriendRequestsFetchFailed(status_line(status)))
    }
}

/// Checks the status of the request for the friend list.
pub fn friends_list_status(status: u16) -> (r: Result<(), RobloxError>)
    requires
        valid_status(status),
    ensures
        success_status(status) ==> r is Ok,
        !success_status(status) ==> (r matches Err(RobloxError::FriendsListFetchFailed(m)) && m@
            == status_message(status)),
{
    if is_success(status) {
        Ok(())
    } else {
        Err(RobloxError::FriendsListFetchFailed(status_line(status)))
    }
}

/// Checks the status of the request for the number of friends.
pub fn friends_count_status(status: u16) -> (r: Result<(), RobloxError>)
    requires
        valid_status(status),
    ensures
        success_status(status) ==> r is Ok,
        !success_status(status) ==> (r matches Err(RobloxError::FriendsCountFetchFailed(m)) && m@
            == status_message(status)),
{
    if is_success(status) {
        Ok(())
    } else {
        Err(RobloxError::FriendsCountFetchFailed(status_line(status)))
    }
}

/// Checks the status of the request for sent friend requests.
pub fn sent_friends_status(status: u16) -> (r: Result<(), RobloxError>)
    requires
        valid_status(status),
    ensures
        success_status(status) ==> r is Ok,
        !success_status(status) ==> (r matches Err(RobloxError::Other(m)) && m@ == status_message(
            status,
        )),
{
    if is_success(status) {
        Ok(())
    } else {
        Err(RobloxError::Other(status_line(status)))
    }
}

/// The outcome of declining the friend request of `requester_id`.
pub fn decline_friend_outcome(requester_id: u64, status: u16) -> (r: Result<(), RobloxError>)
    requires
        valid_status(status),
    ensures
        success_status(status) ==> r is Ok,
        !success_status(status) ==> (r matches Err(RobloxError::FriendRequestDeclineFailed(id, m))
            && id == requester_id && m@ == status_message(status)),
{
    if is_success(status) {
        Ok(())
    } else {
        let m = status_line(status);
        Err(RobloxError::friend_request_decline_failed(requester_id, m.as_str()))
    }
}

/// The outcome of accepting the friend request of `requester_id`.
pub fn accept_friend_outcome(requester_id: u64, status: u16) -> (r: Result<(), RobloxError>)
    requires
        valid_status(status),
    ensures
        success_status(status) ==> r is Ok,
        !success_status(status) ==> (r matches Err(RobloxError::FriendRequestAcceptFailed(id, m))
            && id == requester_id && m@ == status_message(status)),
{
    if is_success(status) {
        Ok(())
    } else {
        let m = status_line(status);
        Err(RobloxError::friend_request_accept_failed(requester_id, m.as_str()))
    }
}

/// The outcome of declining every friend request.
pub fn decline_all_friend_outcome(status: u16) -> (r: Result<(), RobloxError>)
    requires
        valid_status(status),
    ensures
        success_status(status) ==> r is Ok,
        !success_status(status) ==> (r matches Err(RobloxError::DeclineAllRequestsFailed(m)) && m@
            == status_message(status)),
{
    if is_success(status) {
        Ok(())
    } else {
        Err(RobloxError::DeclineAllRequestsFailed(status_line(status)))
    }
}

/// The outcome of sending a friend request to `target_id`.
pub fn send_friend_outcome(target_id: u64, status: u16) -> (r: Result<(), RobloxError>)
    requires
        valid_status(status),
    ensures
        success_status(status) ==> r is Ok,
        !success_status(status) ==> (r matches Err(RobloxError::FriendRequestSendFailed(id, m))
            && id == target_id && m@ == status_message(status)),
{
    if is_success(status) {
        Ok(())
    } else {
        let m = status_line(status);
        Err(RobloxError::friend_request_send_failed(target_id, m.as_str()))
    }
}

/// The outcome of removing `friend_id` from the friends.
pub fn unfriend_outcome(friend_id: u64, status: u16) -> (r: Result<(), RobloxError>)
    requires
        valid_status(status),
    ensures
        success_status(status) ==> r is Ok,
        !success_status(status) ==> (r matches Err(RobloxError::UnfriendFailed(id, m)) && id
            == friend_id && m@ == status_message(status)),
{
    if is_success(status) {
        Ok(())
    } else {
        let m = status_line(status);
        Err(RobloxError::unfriend_failed(friend_id, m.as_str()))
    }
}

/// The outcome of withdrawing a sent friend request.
pub fn cancel_sent_friend_outcome(status: u16) -> (r: Result<(), RobloxError>)
    requires
        valid_status(status),
    ensures
        success_status(status) ==> r is Ok,
        !success_status(status) ==> (r matches Err(RobloxError::Other(m)) && m@
            == "cancel failed with status: "@ + status_display(status)),
{
    if is_success(status) {
        Ok(())
    } else {
        let st = status_text(status);
        Err(RobloxError::Other(concatenate("cancel failed with status: ", st.as_str())))
    }
}

} // verus!
