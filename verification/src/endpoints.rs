//! The Roblox web endpoints the client talks to.

use vstd::prelude::*;

use crate::text::{concatenate, decimal, with_number};

verus! {

/// Answers with a success status exactly when the session cookie is accepted.
pub const AUTHENTICATED_USER_URL: &'static str = "https://users.roblox.com/v1/users/authenticated";

/// The settings document of the signed-in account.
pub const SETTINGS_URL: &'static str = "https://www.roblox.com/my/settings/json";

/// Posting here without a CSRF token is refused with a fresh `x-csrf-token` header.
pub const LOGOUT_URL: &'static str = "https://auth.roblox.com/v2/logout";

/// Issues a one-time authentication ticket.
pub const AUTHENTICATION_TICKET_URL: &'static str = "https://auth.roblox.com/v1/authentication-ticket/";

/// The gift-card credit of the account.
pub const BILLING_CREDIT_URL: &'static str = "https://billing.roblox.com/v1/credit";

/// Whether the account has verified its age.
pub const VERIFIED_AGE_URL: &'static str = "https://apis.roblox.com/age-verification-service/v1/age-verification/verified-age";

/// The country code of the account.
pub const COUNTRY_CODE_URL: &'static str = "https://users.roblox.com/v1/users/authenticated/country-code";

/// The saved payment cards of the account.
pub const PAYMENT_PROFILES_URL: &'static str = "https://apis.roblox.com/payments-gateway/v1/payment-profiles";

/// Friend requests the account has received.
pub const FRIEND_REQUESTS_URL: &'static str = "https://friends.roblox.com/v1/my/friends/requests";

/// Declines every pending friend request.
pub const DECLINE_ALL_FRIEND_REQUESTS_URL: &'static str = "https://friends.roblox.com/v1/user/friend-requests/decline-all";

/// Friend requests the account has sent.
pub const OUTGOING_FRIEND_REQUESTS_URL: &'static str = "https://friends.roblox.com/v1/my/friends/requests/outgoing";

/// The Robux balance of a user.
pub fn robux_balance_url(user_id: u64) -> (url: String)
    ensures
        url@ == "https://economy.roblox.com/v1/users/"@ + decimal(user_id as nat) + "/currency"@,
{
    with_number("https://economy.roblox.com/v1/users/", user_id, "/currency")
}

/// A user's transaction totals over the past year.
pub fn transaction_totals_url(user_id: u64) -> (url: String)
    ensures
        url@ == "https://economy.roblox.com/v2/users/"@ + decimal(user_id as nat) + "/transaction-totals?timeFrame=Year&transactionType=summary"@,
{
    with_number("https://economy.roblox.com/v2/users/", user_id, "/transaction-totals?timeFrame=Year&transactionType=summary")
}

/// A user's purchase transactions.
pub fn transactions_url(user_id: u64) -> (url: String)
    ensures
        url@ == "https://economy.roblox.com/v2/users/"@ + decimal(user_id as nat) + "/transactions?transactionType=2"@,
{
    with_number("https://economy.roblox.com/v2/users/", user_id, "/transactions?transactionType=2")
}

/// A user's collectible (limited) items.
pub fn collectibles_url(user_id: u64) -> (url: String)
    ensures
        url@ == "https://inventory.roblox.com/v1/users/"@ + decimal(user_id as nat) + "/assets/collectibles"@,
{
    with_number("https://inventory.roblox.com/v1/users/", user_id, "/assets/collectibles")
}

/// A user's favourite games.
pub fn favorite_games_url(user_id: u64) -> (url: String)
    ensures
        url@ == "https://games.roblox.com/v2/users/"@ + decimal(user_id as nat) + "/favorite/games"@,
{
    with_number("https://games.roblox.com/v2/users/", user_id, "/favorite/games")
}

/// The game passes a user owns.
pub fn gamepasses_url(user_id: u64) -> (url: String)
    ensures
        url@ == "https://apis.roblox.com/game-passes/v1/users/"@ + decimal(user_id as nat) + "/game-passes"@,
{
    with_number("https://apis.roblox.com/game-passes/v1/users/", user_id, "/game-passes")
}

/// The badges a user has been awarded.
pub fn badges_url(user_id: u64) -> (url: String)
    ensures
        url@ == "https://badges.roblox.com/v1/users/"@ + decimal(user_id as nat) + "/badges"@,
{
    with_number("https://badges.roblox.com/v1/users/", user_id, "/badges")
}

/// Declines the friend request between the account and a user.
pub fn decline_friend_request_url(user_id: u64) -> (url: String)
    ensures
        url@ == "https://friends.roblox.com/v1/users/"@ + decimal(user_id as nat) + "/decline-friend-request"@,
{
    with_number("https://friends.roblox.com/v1/users/", user_id, "/decline-friend-request")
}

/// Accepts a user's friend request.
pub fn accept_friend_request_url(user_id: u64) -> (url: String)
    ensures
        url@ == "https://friends.roblox.com/v1/users/"@ + decimal(user_id as nat) + "/accept-friend-request"@,
{
    with_number("https://friends.roblox.com/v1/users/", user_id, "/accept-friend-request")
}

/// A user's friends.
pub fn friends_url(user_id: u64) -> (url: String)
    ensures
        url@ == "https://friends.roblox.com/v1/users/"@ + decimal(user_id as nat) + "/friends"@,
{
    with_number("https://friends.roblox.com/v1/users/", user_id, "/friends")
}

/// How many friends a user has.
pub fn friends_count_url(user_id: u64) -> (url: String)
    ensures
        url@ == "https://friends.roblox.com/v1/users/"@ + decimal(user_id as nat) + "/friends/count"@,
{
    with_number("https://friends.roblox.com/v1/users/", user_id, "/friends/count")
}

/// Sends a friend request to a user.
pub fn request_friendship_url(user_id: u64) -> (url: String)
    ensures
        url@ == "https://friends.roblox.com/v1/users/"@ + decimal(user_id as nat) + "/request-friendship"@,
{
    with_number("https://friends.roblox.com/v1/users/", user_id, "/request-friendship")
}

/// Removes a user from the account's friends.
pub fn unfriend_url(user_id: u64) -> (url: String)
    ensures
        url@ == "https://friends.roblox.com/v1/users/"@ + decimal(user_id as nat) + "/unfriend"@,
{
    with_number("https://friends.roblox.com/v1/users/", user_id, "/unfriend")
}

/// A group's revenue summary for the past year.
pub fn group_revenue_summary_url(group_id: &str) -> (url: String)
    ensures
        url@ == "https://apis.roblox.com/transaction-records/v1/groups/"@ + group_id@ + "/revenue/summary/year"@,
{
    let mut url = concatenate("https://apis.roblox.com/transaction-records/v1/groups/", group_id);
    url.append("/revenue/summary/year");
    url
}

/// The Robux funds of a group.
pub fn group_currency_url(group_id: &str) -> (url: String)
    ensures
        url@ == "https://economy.roblox.com/v1/groups/"@ + group_id@ + "/currency"@,
{
    let mut url = concatenate("https://economy.roblox.com/v1/groups/", group_id);
    url.append("/currency");
    url
}

} // verus!
