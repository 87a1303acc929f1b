use roblox_rs::error::RobloxError;
use roblox_rs::json::{JsonNumber, JsonValue};
use roblox_rs::responses::{
    above_13_from_info, accept_friend_outcome, account_id_failure, account_id_from_json,
    authentication_ticket_failure, authentication_ticket_from_header, billing_robux_from_json,
    can_trade_from_info, cancel_sent_friend_outcome, cards_count_from_json, country_from_json,
    csrf_token_from_response, decline_all_friend_outcome, decline_friend_outcome,
    display_name_from_info, email_set_from_info, email_verified_from_info, friends_count_from_json,
    friends_count_status, friends_list_status, group_robux_from_json, group_robux_pending_from_json,
    is_premium_from_info, name_from_info, pending_friends_status, pending_robux_from_json,
    register_data_from_info, robux_balance_from_json, send_friend_outcome, sent_friends_status,
    total_recent_average_price, total_robux_for_year_from_json, two_factor_authentication_from_info,
    unfriend_outcome, unsigned_abs, verified_age_from_json,
};

fn num(n: u64) -> JsonValue {
    JsonValue::Number(JsonNumber::PosInt(n))
}

fn neg(n: i64) -> JsonValue {
    JsonValue::Number(JsonNumber::NegInt(n))
}

fn text(s: &str) -> JsonValue {
    JsonValue::String(s.to_string())
}

fn obj(members: Vec<(&str, JsonValue)>) -> JsonValue {
    JsonValue::Object(members.into_iter().map(|(k, v)| (k.to_string(), v)).collect())
}

#[test]
fn csrf_token_is_read_from_a_refused_logout() {
    match csrf_token_from_response(403, Some(b"abc123".to_vec())) {
        Ok(t) => assert_eq!(t, "abc123"),
        Err(e) => panic!("unexpected {:?}", e),
    }
    match csrf_token_from_response(401, Some(b"xyz".to_vec())) {
        Ok(t) => assert_eq!(t, "xyz"),
        Err(e) => panic!("unexpected {:?}", e),
    }
}

#[test]
fn csrf_token_errors() {
    assert!(matches!(csrf_token_from_response(200, Some(b"abc".to_vec())), Err(RobloxError::UnexpectedStatus(200))));
    assert!(matches!(csrf_token_from_response(500, None), Err(RobloxError::UnexpectedStatus(500))));
    match csrf_token_from_response(403, None) {
        Err(RobloxError::InvalidCsrfToken(m)) => assert_eq!(m, "Header x-csrf-token not found"),
        other => panic!("unexpected {:?}", other),
    }
    match csrf_token_from_response(403, Some(vec![0xff])) {
        Err(RobloxError::InvalidCsrfToken(m)) => {
            assert_eq!(m, "Failed to parse x-csrf-token: failed to convert header to a str")
        }
        other => panic!("unexpected {:?}", other),
    }
}

#[test]
fn authentication_ticket_cases() {
    match authentication_ticket_failure(403, "denied") {
        RobloxError::AuthenticationFailed(m) => assert_eq!(m, "403 Forbidden: denied"),
        other => panic!("unexpected {:?}", other),
    }
    match authentication_ticket_failure(500, &"e".repeat(300)) {
        RobloxError::AuthenticationFailed(m) => assert_eq!(
            m,
            format!("Failed to get authentication ticket (status: 500 Internal Server Error): {}", "e".repeat(200))
        ),
        other => panic!("unexpected {:?}", other),
    }
    match authentication_ticket_from_header(Some(b"TICKET".to_vec())) {
        Ok(t) => assert_eq!(t, "TICKET"),
        Err(e) => panic!("unexpected {:?}", e),
    }
    match authentication_ticket_from_header(None) {
        Err(RobloxError::AuthenticationFailed(m)) => assert_eq!(m, "rbx-authentication-ticket header not found"),
        other => panic!("unexpected {:?}", other),
    }
    match authentication_ticket_from_header(Some(vec![b'a', 0x01])) {
        Err(RobloxError::AuthenticationFailed(m)) => assert_eq!(m, "Invalid authentication ticket"),
        other => panic!("unexpected {:?}", other),
    }
}

#[test]
fn account_id_cases() {
    match account_id_failure(403, "no") {
        RobloxError::InvalidAccountId(m) => assert_eq!(m, "403 Forbidden: no"),
        other => panic!("unexpected {:?}", other),
    }
    match account_id_failure(404, "missing") {
        RobloxError::InvalidAccountId(m) => {
            assert_eq!(m, "Request failed with status: 404 Not Found. Ответ: missing")
        }
        other => panic!("unexpected {:?}", other),
    }
    assert!(matches!(account_id_from_json(&obj(vec![("UserId", num(42))])), Ok(42)));
    match account_id_from_json(&obj(vec![("UserId", neg(-1))])) {
        Err(RobloxError::InvalidAccountId(m)) => assert_eq!(m, "Error to fetch account id"),
        other => panic!("unexpected {:?}", other),
    }
    match account_id_from_json(&obj(vec![("UserId", text("42"))])) {
        Err(RobloxError::InvalidAccountId(m)) => assert_eq!(m, "UserId field not found or invalid"),
        other => panic!("unexpected {:?}", other),
    }
    match account_id_from_json(&JsonValue::Null) {
        Err(RobloxError::InvalidAccountId(m)) => assert_eq!(m, "UserId field not found or invalid"),
        other => panic!("unexpected {:?}", other),
    }
}

#[test]
fn settings_fields() {
    let info = obj(vec![
        ("Name", text("builder")),
        ("DisplayName", text("Builder")),
        ("AccountAgeInDays", num(900)),
        ("IsPremium", JsonValue::Bool(true)),
        ("CanTrade", text("yes")),
        ("UserAbove13", JsonValue::Bool(true)),
        (
            "MyAccountSecurityModel",
            obj(vec![
                ("IsEmailSet", JsonValue::Bool(true)),
                ("IsEmailVerified", JsonValue::Bool(false)),
            ]),
        ),
    ]);
    assert_eq!(name_from_info(&info), "builder");
    assert_eq!(display_name_from_info(&info), "Builder");
    assert_eq!(register_data_from_info(&info), "0");
    assert!(is_premium_from_info(&info));
    assert!(!can_trade_from_info(&info));
    assert!(above_13_from_info(&info));
    assert!(email_set_from_info(&info));
    assert!(!email_verified_from_info(&info));
    assert!(!two_factor_authentication_from_info(&info));
    let empty = JsonValue::Null;
    assert_eq!(name_from_info(&empty), "");
    assert_eq!(register_data_from_info(&obj(vec![("AccountAgeInDays", text("12"))])), "12");
}

#[test]
fn robux_values() {
    assert!(matches!(robux_balance_from_json(&obj(vec![("robux", num(5))])), Ok(5)));
    match robux_balance_from_json(&obj(vec![])) {
        Err(RobloxError::RobuxBalanceError(m)) => assert_eq!(m, "robux field missing"),
        other => panic!("unexpected {:?}", other),
    }
    assert!(matches!(pending_robux_from_json(&obj(vec![("pendingRobuxTotal", num(7))])), Ok(7)));
    match pending_robux_from_json(&obj(vec![("pendingRobuxTotal", neg(-7))])) {
        Err(RobloxError::RobuxBalanceError(m)) => assert_eq!(m, "pendingRobuxTotal missing"),
        other => panic!("unexpected {:?}", other),
    }
    assert!(matches!(total_robux_for_year_from_json(&obj(vec![("outgoingRobuxTotal", neg(-250))])), Ok(250)));
    assert!(matches!(total_robux_for_year_from_json(&obj(vec![("outgoingRobuxTotal", num(30))])), Ok(30)));
    match total_robux_for_year_from_json(&obj(vec![("outgoingRobuxTotal", num(u64::MAX))])) {
        Err(RobloxError::RobuxBalanceError(m)) => assert_eq!(m, "outgoingRobuxTotal missing"),
        other => panic!("unexpected {:?}", other),
    }
    assert!(matches!(group_robux_pending_from_json(&obj(vec![("pendingRobux", num(3))])), Ok(3)));
    match group_robux_pending_from_json(&obj(vec![])) {
        Err(RobloxError::RobuxBalanceError(m)) => assert_eq!(m, "pendingRobux field not found"),
        other => panic!("unexpected {:?}", other),
    }
    assert!(matches!(group_robux_from_json(&obj(vec![("robux", num(9))])), Ok(9)));
    match group_robux_from_json(&obj(vec![])) {
        Err(RobloxError::GroupRobuxError(m)) => assert_eq!(m, "robux field not found"),
        other => panic!("unexpected {:?}", other),
    }
    assert!(matches!(billing_robux_from_json(&obj(vec![("robuxAmount", num(11))])), Ok(11)));
    match billing_robux_from_json(&obj(vec![])) {
        Err(RobloxError::RobuxBalanceError(m)) => assert_eq!(m, "robuxAmount field not found"),
        other => panic!("unexpected {:?}", other),
    }
}

#[test]
fn unsigned_abs_matches_std() {
    for v in [0i64, 1, -1, 250, -250, i64::MAX, i64::MIN] {
        assert_eq!(unsigned_abs(v), v.unsigned_abs());
    }
}

#[test]
fn other_single_values() {
    assert!(matches!(verified_age_from_json(&obj(vec![("isVerified", JsonValue::Bool(false))])), Ok(false)));
    match verified_age_from_json(&obj(vec![])) {
        Err(RobloxError::VerifiedAgeError(m)) => assert_eq!(m, "isVerified field not found"),
        other => panic!("unexpected {:?}", other),
    }
    match country_from_json(&obj(vec![("countryCode", text("DE"))])) {
        Ok(c) => assert_eq!(c, "DE"),
        other => panic!("unexpected {:?}", other),
    }
    match country_from_json(&obj(vec![])) {
        Err(RobloxError::CountryCodeError(m)) => assert_eq!(m, "countryCode field not found"),
        other => panic!("unexpected {:?}", other),
    }
    assert!(matches!(friends_count_from_json(&obj(vec![("count", num(12))])), Ok(12)));
    match friends_count_from_json(&obj(vec![])) {
        Err(RobloxError::MissingField(m)) => assert_eq!(m, "count field missing"),
        other => panic!("unexpected {:?}", other),
    }
}

#[test]
fn cards_count_wraps_like_a_u8_cast() {
    assert_eq!(cards_count_from_json(&JsonValue::Array(vec![JsonValue::Null, JsonValue::Null])), 2);
    let many: Vec<JsonValue> = (0..300).map(|_| JsonValue::Null).collect();
    assert_eq!(cards_count_from_json(&JsonValue::Array(many)), 44);
    assert_eq!(cards_count_from_json(&obj(vec![])), 0);
}

#[test]
fn totals_of_recent_average_prices() {
    let data = JsonValue::Array(vec![
        obj(vec![("recentAveragePrice", num(100))]),
        obj(vec![("recentAveragePrice", text("5"))]),
        obj(vec![("name", text("x"))]),
        obj(vec![("recentAveragePrice", num(23))]),
    ]);
    assert_eq!(total_recent_average_price(&obj(vec![("data", data)])), Some(123));
    assert_eq!(total_recent_average_price(&obj(vec![])), Some(0));
    assert_eq!(total_recent_average_price(&obj(vec![("data", num(3))])), Some(0));
    let overflow = JsonValue::Array(vec![
        obj(vec![("recentAveragePrice", num(u64::MAX))]),
        obj(vec![("recentAveragePrice", num(1))]),
    ]);
    assert_eq!(total_recent_average_price(&obj(vec![("data", overflow)])), None);
}

#[test]
fn list_statuses() {
    assert!(pending_friends_status(200).is_ok());
    match pending_friends_status(429) {
        Err(RobloxError::FriendRequestsFetchFailed(m)) => assert_eq!(m, "status 429 Too Many Requests"),
        other => panic!("unexpected {:?}", other),
    }
    match friends_list_status(500) {
        Err(RobloxError::FriendsListFetchFailed(m)) => assert_eq!(m, "status 500 Internal Server Error"),
        other => panic!("unexpected {:?}", other),
    }
    match friends_count_status(401) {
        Err(RobloxError::FriendsCountFetchFailed(m)) => assert_eq!(m, "status 401 Unauthorized"),
        other => panic!("unexpected {:?}", other),
    }
    match sent_friends_status(404) {
        Err(RobloxError::Other(m)) => assert_eq!(m, "status 404 Not Found"),
        other => panic!("unexpected {:?}", other),
    }
    assert!(friends_count_status(204).is_ok());
}

#[test]
fn friend_actions() {
    assert!(decline_friend_outcome(5, 200).is_ok());
    match decline_friend_outcome(5, 400) {
        Err(RobloxError::FriendRequestDeclineFailed(5, m)) => assert_eq!(m, "status 400 Bad Request"),
        other => panic!("unexpected {:?}", other),
    }
    match accept_friend_outcome(6, 403) {
        Err(RobloxError::FriendRequestAcceptFailed(6, m)) => assert_eq!(m, "status 403 Forbidden"),
        other => panic!("unexpected {:?}", other),
    }
    match decline_all_friend_outcome(500) {
        Err(RobloxError::DeclineAllRequestsFailed(m)) => assert_eq!(m, "status 500 Internal Server Error"),
        other => panic!("unexpected {:?}", other),
    }
    match send_friend_outcome(7, 400) {
        Err(RobloxError::FriendRequestSendFailed(7, m)) => assert_eq!(m, "status 400 Bad Request"),
        other => panic!("unexpected {:?}", other),
    }
    match unfriend_outcome(8, 404) {
        Err(RobloxError::UnfriendFailed(8, m)) => assert_eq!(m, "status 404 Not Found"),
        other => panic!("unexpected {:?}", other),
    }
    match cancel_sent_friend_outcome(400) {
        Err(RobloxError::Other(m)) => assert_eq!(m, "cancel failed with status: 400 Bad Request"),
        other => panic!("unexpected {:?}", other),
    }
    assert!(send_friend_outcome(7, 200).is_ok());
    assert!(unfriend_outcome(8, 201).is_ok());
    assert!(cancel_sent_friend_outcome(200).is_ok());
    assert!(accept_friend_outcome(6, 200).is_ok());
    assert!(decline_all_friend_outcome(200).is_ok());
}
