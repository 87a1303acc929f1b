use vstd::prelude::*;

verus! {

/// A badge that a user has been awarded.
#[derive(Debug, Clone)]
pub struct Badge {
    pub id: u64,
    pub name: String,
    pub typed: String,
    pub display_name: String,
    pub enabled: bool,
}

/// A game (universe) as listed among a user's favourites.
#[derive(Debug, Clone)]
pub struct Game {
    pub id: u64,
    pub name: String,
    pub description: String,
    pub creator_id: u64,
    pub creator_name: String,
    pub creator_type: String,
    pub root_place_id: u64,
    pub place_visits: u64,
}

/// A game pass owned by a user.
#[derive(Debug, Clone)]
pub struct GamePass {
    pub game_pass_id: u64,
    pub name: String,
    pub description: String,
    pub is_for_sale: bool,
    pub price: Option<u32>,
    pub creator_id: u64,
    pub creator_name: String,
    pub creator_type: String,
}

/// A private server subscription of the account.
#[derive(Debug, Clone)]
pub struct PrivateServer {
    pub active: bool,
    pub universe_id: u64,
    pub place_id: u64,
    pub name: String,
    pub owner_id: u64,
    pub owner_name: String,
    pub price_in_robux: u32,
    pub private_server_id: u64,
    pub expiration_date: String,
    pub will_renew: bool,
    pub universe_name: String,
}

/// A Roblox user as it appears in friend lists and friend requests.
#[derive(Debug, Clone)]
pub struct User {
    pub id: u64,
    pub name: String,
    pub display_name: String,
}

/// The full description of one private server.
#[derive(Debug, Clone)]
pub struct PrivateServerDetails {
    pub id: u64,
    pub name: String,
    pub game: PrivateServerGame,
    pub join_code: String,
    pub active: bool,
    pub subscription: Subscription,
    pub permissions: Permissions,
    pub voice_settings: VoiceSettings,
    pub link: String,
}

/// The game a private server belongs to.
#[derive(Debug, Clone)]
pub struct PrivateServerGame {
    pub id: u64,
    pub name: String,
    pub root_place: RootPlace,
}

/// The root place of a game.
#[derive(Debug, Clone)]
pub struct RootPlace {
    pub id: u64,
    pub name: String,
}

/// The subscription state of a private server.
#[derive(Debug, Clone)]
pub struct Subscription {
    pub active: bool,
    pub expired: bool,
    pub expiration_date: String,
    pub price: u32,
    pub can_renew: bool,
    pub has_insufficient_funds: bool,
    pub has_recurring_profile: bool,
    pub has_price_changed: bool,
}

/// Who may join a private server.
#[derive(Debug, Clone)]
pub struct Permissions {
    pub clan_allowed: bool,
    pub enemy_clan_id: Option<u64>,
    pub friends_allowed: bool,
    pub users: Vec<User>,
}

/// Voice chat settings of a private server.
#[derive(Debug, Clone)]
pub struct VoiceSettings {
    pub enabled: bool,
}

/// What a `Badge` holds, as mathematical values.
pub ghost struct BadgeView {
    pub id: u64,
    pub name: Seq<char>,
    pub typed: Seq<char>,
    pub display_name: Seq<char>,
    pub enabled: bool,
}

impl View for Badge {
    type V = BadgeView;

    open spec fn view(&self) -> BadgeView {
        BadgeView {
            id: self.id,
            name: self.name@,
            typed: self.typed@,
            display_name: self.display_name@,
            enabled: self.enabled,
        }
    }
}

/// What a `Game` holds, as mathematical values.
pub ghost struct GameView {
    pub id: u64,
    pub name: Seq<char>,
    pub description: Seq<char>,
    pub creator_id: u64,
    pub creator_name: Seq<char>,
    pub creator_type: Seq<char>,
    pub root_place_id: u64,
    pub place_visits: u64,
}

impl View for Game {
    type V = GameView;

    open spec fn view(&self) -> GameView {
        GameView {
            id: self.id,
            name: self.name@,
            description: self.description@,
            creator_id: self.creator_id,
            creator_name: self.creator_name@,
            creator_type: self.creator_type@,
            root_place_id: self.root_place_id,
            place_visits: self.place_visits,
        }
    }
}

/// What a `GamePass` holds, as mathematical values.
pub ghost struct GamePassView {
    pub game_pass_id: u64,
    pub name: Seq<char>,
    pub description: Seq<char>,
    pub is_for_sale: bool,
    pub price: Option<u32>,
    pub creator_id: u64,
    pub creator_name: Seq<char>,
    pub creator_type: Seq<char>,
}

impl View for GamePass {
    type V = GamePassView;

    open spec fn view(&self) -> GamePassView {
        GamePassView {
            game_pass_id: self.game_pass_id,
            name: self.name@,
            description: self.description@,
            is_for_sale: self.is_for_sale,
            price: self.price,
            creator_id: self.creator_id,
            creator_name: self.creator_name@,
            creator_type: self.creator_type@,
        }
    }
}

/// What a `User` holds, as mathematical values.
pub ghost struct UserView {
    pub id: u64,
    pub name: Seq<char>,
    pub display_name: Seq<char>,
}

impl View for User {
    type V = UserView;

    open spec fn view(&self) -> UserView {
        UserView { id: self.id, name: self.name@, display_name: self.display_name@ }
    }
}

} // verus!
