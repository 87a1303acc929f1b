use vstd::prelude::*;

verus! {

/// `std::io::Error`, carried through unchanged.
#[verifier::external_type_specification]
#[verifier::external_body]
pub struct ExIoError(std::io::Error);

/// `reqwest::Error`, carried through unchanged.
#[verifier::external_type_specification]
#[verifier::external_body]
pub struct ExReqwestError(reqwest::Error);

/// `serde_json::Error`, carried through unchanged.
#[verifier::external_type_specification]
#[verifier::external_body]
pub struct ExJsonError(serde_json::Error);

/// `std::time::SystemTimeError`, carried through unchanged.
#[verifier::external_type_specification]
#[verifier::external_body]
pub struct ExSystemTimeError(std::time::SystemTimeError);

/// `reqwest::header::InvalidHeaderValue`, carried through unchanged.
#[verifier::external_type_specification]
#[verifier::external_body]
pub struct ExInvalidHeaderValue(reqwest::header::InvalidHeaderValue);

/// Everything that can go wrong when talking to Roblox.
#[derive(Debug)]
pub enum RobloxError {
    Io(std::io::Error),
    Reqwest(reqwest::Error),
    Json(serde_json::Error),
    Time(std::time::SystemTimeError),
    InvalidHeaderValue(reqwest::header::InvalidHeaderValue),
    UnexpectedStatus(u16),
    InvalidToken(String),
    TokenExpired,
    AuthenticationFailed(String),
    MissingCsrfToken,
    InvalidCsrfToken(String),
    CsrfTokenNotFound(String),
    MissingAuthenticationTicket,
    InvalidAuthenticationTicket(String),
    HttpError { status: u16, message: String },
    ApiError(String),
    RateLimitExceeded,
    RobloxApiError(String),
    AccountNotFound(String),
    InvalidAccountId(String),
    AccountInitFailed(String),
    AccountInvalid,
    AccountInfoError(String),
    InvalidPlaceId(String),
    GameNotFound(String),
    JobIdError(String),
    InvalidPrivateServerLink(String),
    LinkCodeParseError(String),
    RobloxNotInstalled,
    VersionNotFound(String),
    RobloxExecutableNotFound(String),
    UsernameError(String),
    LaunchFailed(String),
    ProcessAlreadyRunning,
    ProcessKillFailed(String),
    ProcessNotFound,
    MissingField(String),
    InvalidFieldType(String),
    ParseError(String),
    EmptyResponse,
    InvalidCookieFormat(String),
    CookieValidationFailed(String),
    RobuxBalanceError(String),
    TransactionDataError(String),
    GroupRobuxError(String),
    FavoriteGamesError(String),
    GamepassesError(String),
    BadgesError(String),
    VerifiedAgeError(String),
    CountryCodeError(String),
    FriendRequestsFetchFailed(String),
    FriendRequestAcceptFailed(u64, String),
    FriendRequestDeclineFailed(u64, String),
    DeclineAllRequestsFailed(String),
    FriendsListFetchFailed(String),
    FriendsCountFetchFailed(String),
    FriendRequestSendFailed(u64, String),
    UnfriendFailed(u64, String),
    InvalidFriendUserId(String),
    Other(String),
    InvalidLink(String),
    AccessCodeNotFound,
    UnsupportedLaunchType,
    ProtocolLinkNotFound,
    ShareLinkParseFailed(String),
    ShareLinkFetchFailed(String),
    InvalidProtocolLink(String),
    InvalidShareLink(String),
    NotFoundData,
}

impl RobloxError {

    pub fn missing_field(field: &str) -> (r: Self)
        ensures
            r matches RobloxError::MissingField(s) && s@ == field@,
    {
        Self::MissingField(String::from_str(field))
    }

    pub fn account_not_found(account_id: &str) -> (r: Self)
        ensures
            r matches RobloxError::AccountNotFound(s) && s@ == account_id@,
    {
        Self::AccountNotFound(String::from_str(account_id))
    }

    pub fn game_not_found(game_id: &str) -> (r: Self)
        ensures
            r matches RobloxError::GameNotFound(s) && s@ == game_id@,
    {
        Self::GameNotFound(String::from_str(game_id))
    }

    pub fn invalid_place_id(place_id: &str) -> (r: Self)
        ensures
            r matches RobloxError::InvalidPlaceId(s) && s@ == place_id@,
    {
        Self::InvalidPlaceId(String::from_str(place_id))
    }

    pub fn invalid_friend_user_id(id: &str) -> (r: Self)
        ensures
            r matches RobloxError::InvalidFriendUserId(s) && s@ == id@,
    {
        Self::InvalidFriendUserId(String::from_str(id))
    }

    pub fn http_error(status: u16, message: &str) -> (r: Self)
        ensures
            r matches RobloxError::HttpError { status: st, message: m } && st == status && m@ == message@,
    {
        Self::HttpError { status, message: String::from_str(message) }
    }

    pub fn friend_request_accept_failed(user_id: u64, reason: &str) -> (r: Self)
        ensures
            r matches RobloxError::FriendRequestAcceptFailed(id, s) && id == user_id && s@ == reason@,
    {
        Self::FriendRequestAcceptFailed(user_id, String::from_str(reason))
    }

    pub fn friend_request_decline_failed(user_id: u64, reason: &str) -> (r: Self)
        ensures
            r matches RobloxError::FriendRequestDeclineFailed(id, s) && id == user_id && s@ == reason@,
    {
        Self::FriendRequestDeclineFailed(user_id, String::from_str(reason))
    }

    pub fn friend_request_send_failed(user_id: u64, reason: &str) -> (r: Self)
        ensures
            r matches RobloxError::FriendRequestSendFailed(id, s) && id == user_id && s@ == reason@,
    {
        Self::FriendRequestSendFailed(user_id, String::from_str(reason))
    }

    pub fn unfriend_failed(user_id: u64, reason: &str) -> (r: Self)
        ensures
            r matches RobloxError::UnfriendFailed(id, s) && id == user_id && s@ == reason@,
    {
        Self::UnfriendFailed(user_id, String::from_str(reason))
    }

}

} // verus!
