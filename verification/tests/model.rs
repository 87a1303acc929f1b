use roblox_rs::account::{Account, AccountBuilder, ClientSource};
use roblox_rs::endpoints;
use roblox_rs::error::RobloxError;
use roblox_rs::json::{JsonNumber, JsonValue};
use roblox_rs::listings::{
    badges_from_json, favorite_games_from_json, gamepasses_from_json, user_count, users_from_json,
};

fn num(n: u64) -> JsonValue {
    JsonValue::Number(JsonNumber::PosInt(n))
}

fn text(s: &str) -> JsonValue {
    JsonValue::String(s.to_string())
}

fn obj(members: Vec<(&str, JsonValue)>) -> JsonValue {
    JsonValue::Object(members.into_iter().map(|(k, v)| (k.to_string(), v)).collect())
}

fn account(id: u64) -> Account {
    Account { token: "t".to_string(), client: reqwest::Client::new(), id, pid: None }
}

#[test]
fn json_lookup_takes_the_first_member() {
    let v = obj(vec![("a", num(1)), ("b", num(2)), ("a", num(3))]);
    assert_eq!(v.get("a").and_then(|x| x.as_u64()), Some(1));
    assert_eq!(v.get("b").and_then(|x| x.as_u64()), Some(2));
    assert!(v.get("c").is_none());
    assert!(num(1).get("a").is_none());
}

#[test]
fn json_number_readings() {
    assert_eq!(num(5).as_i64(), Some(5));
    assert_eq!(num(u64::MAX).as_i64(), None);
    assert_eq!(JsonValue::Number(JsonNumber::NegInt(-4)).as_i64(), Some(-4));
    assert_eq!(JsonValue::Number(JsonNumber::NegInt(-4)).as_u64(), None);
    assert_eq!(JsonValue::Number(JsonNumber::Float).as_u64(), None);
    assert_eq!(JsonValue::Bool(true).as_bool(), Some(true));
    assert_eq!(text("x").as_str(), Some("x"));
    assert!(text("x").as_array().is_none());
}

fn user(id: u64, name: &str, display: &str) -> JsonValue {
    obj(vec![("id", num(id)), ("name", text(name)), ("displayName", text(display))])
}

#[test]
fn users_skip_incomplete_entries() {
    let json = obj(vec![(
        "data",
        JsonValue::Array(vec![
            user(1, "a", "A"),
            obj(vec![("id", num(2)), ("name", text("b"))]),
            user(3, "c", "C"),
            obj(vec![("id", text("4")), ("name", text("d")), ("displayName", text("D"))]),
        ]),
    )]);
    let users = users_from_json(&json);
    assert_eq!(users.len(), 2);
    assert_eq!((users[0].id, users[0].name.as_str(), users[0].display_name.as_str()), (1, "a", "A"));
    assert_eq!((users[1].id, users[1].name.as_str(), users[1].display_name.as_str()), (3, "c", "C"));
    assert_eq!(user_count(&users), 2);
    assert!(users_from_json(&obj(vec![])).is_empty());
    assert!(users_from_json(&obj(vec![("data", num(1))])).is_empty());
}

#[test]
fn favorite_games_are_read_with_creator_and_root_place() {
    let game = obj(vec![
        ("id", num(10)),
        ("name", text("Obby")),
        ("description", text("jump")),
        ("creator", obj(vec![("id", num(77)), ("name", text("Maker")), ("type", text("User"))])),
        ("rootPlace", obj(vec![("id", num(555))])),
        ("placeVisits", num(1000)),
    ]);
    let broken = obj(vec![("id", num(11)), ("name", text("No creator"))]);
    let games = favorite_games_from_json(&obj(vec![("data", JsonValue::Array(vec![broken, game]))]));
    assert_eq!(games.len(), 1);
    let g = &games[0];
    assert_eq!((g.id, g.creator_id, g.root_place_id, g.place_visits), (10, 77, 555, 1000));
    assert_eq!((g.name.as_str(), g.description.as_str()), ("Obby", "jump"));
    assert_eq!((g.creator_name.as_str(), g.creator_type.as_str()), ("Maker", "User"));
}

fn pass(id: u64, price: Option<JsonValue>) -> JsonValue {
    let mut members = vec![
        ("gamePassId", num(id)),
        ("name", text("VIP")),
        ("description", text("perks")),
        ("isForSale", JsonValue::Bool(true)),
        ("creator", obj(vec![("creatorId", num(9)), ("name", text("Studio")), ("creatorType", text("Group"))])),
    ];
    if let Some(p) = price {
        members.push(("price", p));
    }
    obj(members)
}

#[test]
fn gamepasses_keep_an_optional_price() {
    let json = obj(vec![(
        "gamePasses",
        JsonValue::Array(vec![
            pass(1, Some(num(250))),
            pass(2, None),
            pass(3, Some(num(4_294_967_296 + 7))),
            pass(4, Some(text("cheap"))),
        ]),
    )]);
    let passes = gamepasses_from_json(&json);
    assert_eq!(passes.len(), 4);
    assert_eq!(passes[0].price, Some(250));
    assert_eq!(passes[1].price, None);
    assert_eq!(passes[2].price, Some(7));
    assert_eq!(passes[3].price, None);
    assert_eq!(passes[0].creator_id, 9);
    assert_eq!(passes[0].creator_type, "Group");
    assert!(passes[0].is_for_sale);
}

#[test]
fn badges_read_the_awarder_type() {
    let badge = obj(vec![
        ("id", num(3)),
        ("name", text("Winner")),
        ("awarder", obj(vec![("type", text("Place"))])),
        ("displayName", text("The Winner")),
        ("enabled", JsonValue::Bool(false)),
    ]);
    let badges = badges_from_json(&obj(vec![("data", JsonValue::Array(vec![badge, num(1)]))]));
    assert_eq!(badges.len(), 1);
    assert_eq!(badges[0].typed, "Place");
    assert_eq!(badges[0].display_name, "The Winner");
    assert!(!badges[0].enabled);
}

#[test]
fn account_id_is_decimal() {
    assert_eq!(account(1234).id(), "1234");
    assert_eq!(account(0).id(), "0");
}

#[test]
fn accounts_compare_by_id_only() {
    let mut a = account(5);
    let b = account(5);
    a.token = "other".to_string();
    assert!(a == b);
    assert!(account(4) < account(5));
    assert!(account(6) > account(5));
    assert_eq!(account(5).partial_cmp(&account(5)), Some(std::cmp::Ordering::Equal));
    assert!(account(4) != account(5));
}

#[test]
fn account_request_headers_carry_the_cookie() {
    let headers = account(1).request_headers();
    assert_eq!(headers[0], ("cookie".to_string(), ".ROBLOSECURITY=t".to_string()));
    assert_eq!(headers.len(), 8);
}

#[test]
fn builder_without_token_is_invalid() {
    assert!(matches!(AccountBuilder::new().plan(), Err(RobloxError::AccountInvalid)));
    assert!(matches!(Account::builder().plan(), Err(RobloxError::AccountInvalid)));
    assert!(matches!(AccountBuilder::default().plan(), Err(RobloxError::AccountInvalid)));
}

#[test]
fn builder_prefers_a_custom_client() {
    let plan = AccountBuilder::new()
        .proxy(reqwest::Proxy::all("http://127.0.0.1:8080").unwrap())
        .client(reqwest::Client::new())
        .token("abc")
        .plan()
        .unwrap();
    assert_eq!(plan.token, "abc");
    assert!(matches!(plan.client, ClientSource::Custom(_)));
}

#[test]
fn builder_with_proxy_builds_a_fresh_client() {
    let plan = AccountBuilder::new()
        .token("first")
        .proxy(reqwest::Proxy::all("http://127.0.0.1:8080").unwrap())
        .token("second")
        .plan()
        .unwrap();
    assert_eq!(plan.token, "second");
    assert!(matches!(plan.client, ClientSource::Fresh(Some(_))));
    let plain = AccountBuilder::new().token("x").plan().unwrap();
    assert!(matches!(plain.client, ClientSource::Fresh(None)));
}

#[test]
fn endpoint_urls() {
    assert_eq!(endpoints::robux_balance_url(42), "https://economy.roblox.com/v1/users/42/currency");
    assert_eq!(
        endpoints::transaction_totals_url(1),
        "https://economy.roblox.com/v2/users/1/transaction-totals?timeFrame=Year&transactionType=summary"
    );
    assert_eq!(endpoints::transactions_url(2), "https://economy.roblox.com/v2/users/2/transactions?transactionType=2");
    assert_eq!(endpoints::collectibles_url(3), "https://inventory.roblox.com/v1/users/3/assets/collectibles");
    assert_eq!(endpoints::favorite_games_url(4), "https://games.roblox.com/v2/users/4/favorite/games");
    assert_eq!(endpoints::gamepasses_url(5), "https://apis.roblox.com/game-passes/v1/users/5/game-passes");
    assert_eq!(endpoints::badges_url(6), "https://badges.roblox.com/v1/users/6/badges");
    assert_eq!(endpoints::decline_friend_request_url(7), "https://friends.roblox.com/v1/users/7/decline-friend-request");
    assert_eq!(endpoints::accept_friend_request_url(8), "https://friends.roblox.com/v1/users/8/accept-friend-request");
    assert_eq!(endpoints::friends_url(9), "https://friends.roblox.com/v1/users/9/friends");
    assert_eq!(endpoints::friends_count_url(10), "https://friends.roblox.com/v1/users/10/friends/count");
    assert_eq!(endpoints::request_friendship_url(11), "https://friends.roblox.com/v1/users/11/request-friendship");
    assert_eq!(endpoints::unfriend_url(12), "https://friends.roblox.com/v1/users/12/unfriend");
    assert_eq!(
        endpoints::group_revenue_summary_url("99"),
        "https://apis.roblox.com/transaction-records/v1/groups/99/revenue/summary/year"
    );
    assert_eq!(endpoints::group_currency_url("99"), "https://economy.roblox.com/v1/groups/99/currency");
}

#[test]
fn error_constructors() {
    match RobloxError::missing_field("count") {
        RobloxError::MissingField(m) => assert_eq!(m, "count"),
        other => panic!("unexpected {:?}", other),
    }
    match RobloxError::http_error(500, "boom") {
        RobloxError::HttpError { status, message } => assert_eq!((status, message.as_str()), (500, "boom")),
        other => panic!("unexpected {:?}", other),
    }
    assert!(matches!(RobloxError::account_not_found("1"), RobloxError::AccountNotFound(m) if m == "1"));
    assert!(matches!(RobloxError::game_not_found("2"), RobloxError::GameNotFound(m) if m == "2"));
    assert!(matches!(RobloxError::invalid_place_id("3"), RobloxError::InvalidPlaceId(m) if m == "3"));
    assert!(matches!(RobloxError::invalid_friend_user_id("4"), RobloxError::InvalidFriendUserId(m) if m == "4"));
    assert!(matches!(RobloxError::friend_request_accept_failed(1, "a"), RobloxError::FriendRequestAcceptFailed(1, m) if m == "a"));
    assert!(matches!(RobloxError::friend_request_decline_failed(2, "b"), RobloxError::FriendRequestDeclineFailed(2, m) if m == "b"));
    assert!(matches!(RobloxError::friend_request_send_failed(3, "c"), RobloxError::FriendRequestSendFailed(3, m) if m == "c"));
    assert!(matches!(RobloxError::unfriend_failed(4, "d"), RobloxError::UnfriendFailed(4, m) if m == "d"));
}
