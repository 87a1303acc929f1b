//! Lists of users, games, game passes and badges read from API answers.
//! Entries that lack a field, or hold one of the wrong kind, are skipped.

use vstd::prelude::*;

use crate::json::{
    array_field, as_str_of, as_u64_of, bool_field, field_bool, field_str, field_u64, listed, nested,
    nested_str, nested_u64, str_field, u64_field, JsonValue,
};
use crate::types::{Badge, BadgeView, Game, GamePass, GamePassView, GameView, User, UserView};

verus! {

/// The user that a list entry describes, if it has all of its fields.
pub open spec fn user_of(item: JsonValue) -> Option<UserView> {
    match (field_u64(item, "id"@), field_str(item, "name"@), field_str(item, "displayName"@)) {
        (Some(id), Some(name), Some(display_name)) => Some(
            UserView { id, name, display_name },
        ),
        _ => None,
    }
}

/// The users that the complete entries of `items` describe, in order.
pub open spec fn users_of(items: Seq<JsonValue>) -> Seq<UserView>
    decreases items.len(),
{
    if items.len() == 0 {
        Seq::empty()
    } else {
        let rest = users_of(items.drop_last());
        match user_of(items.last()) {
            Some(u) => rest.push(u),
            None => rest,
        }
    }
}

/// Reads one user entry.
pub fn user_from_item(item: &JsonValue) -> (r: Option<User>)
    ensures
        match r {
            Some(u) => user_of(*item) == Some(u@),
            None => user_of(*item) is None,
        },
{
    let id = match u64_field(item, "id") {
        Some(v) => v,
        None => return None,
    };
    let name = match str_field(item, "name") {
        Some(v) => v,
        None => return None,
    };
    let display_name = match str_field(item, "displayName") {
        Some(v) => v,
        None => return None,
    };
    Some(User { id, name, display_name })
}

/// The users listed under `data`: friend lists and friend requests.
pub fn users_from_json(json: &JsonValue) -> (users: Vec<User>)
    ensures
        users@.map_values(|u: User| u@) == users_of(listed(*json, "data"@)),
{
    let mut out: Vec<User> = Vec::new();
    let items = match array_field(json, "data") {
        Some(items) => items,
        None => {
            assert(out@.map_values(|u: User| u@) =~= Seq::<UserView>::empty());
            return out;
        },
    };
    let mut i: usize = 0;
    while i < items.len()
        invariant
            i <= items@.len(),
            out@.map_values(|u: User| u@) == users_of(items@.take(i as int)),
        decreases items@.len() - i,
    {
        assert(items@.take(i + 1).drop_last() =~= items@.take(i as int));
        let ghost before = out@;
        match user_from_item(&items[i]) {
            Some(u) => {
                out.push(u);
                assert(out@.map_values(|u: User| u@) =~= before.map_values(|u: User| u@).push(u@));
            },
            None => {},
        }
        i += 1;
    }
    assert(items@.take(items@.len() as int) =~= items@);
    out
}

/// The number of entries in a list of users, as a `u64`.
pub fn user_count(users: &Vec<User>) -> (n: u64)
    ensures
        n == users@.len(),
{
    users.len() as u64
}

/// The friend count is the number of users in the list of received
/// friend requests that it is taken from.
pub proof fn law_friend_count_is_pending_length(requests: Seq<User>, json: JsonValue)
    requires
        requests.map_values(|u: User| u@) == users_of(listed(json, "data"@)),
    ensures
        requests.len() == users_of(listed(json, "data"@)).len(),
{
    assert(requests.map_values(|u: User| u@).len() == requests.len());
}

/// The game that a list entry describes, if it has all of its fields.
pub open spec fn game_of(item: JsonValue) -> Option<GameView> {
    match (
        field_u64(item, "id"@),
        field_str(item, "name"@),
        field_str(item, "description"@),
        as_u64_of(nested(item, "creator"@, "id"@)),
        as_str_of(nested(item, "creator"@, "name"@)),
        as_str_of(nested(item, "creator"@, "type"@)),
        as_u64_of(nested(item, "rootPlace"@, "id"@)),
        field_u64(item, "placeVisits"@),
    ) {
        (
            Some(id),
            Some(name),
            Some(description),
            Some(creator_id),
            Some(creator_name),
            Some(creator_type),
            Some(root_place_id),
            Some(place_visits),
        ) => Some(
            GameView {
                id,
                name,
                description,
                creator_id,
                creator_name,
                creator_type,
                root_place_id,
                place_visits,
            },
        ),
        _ => None,
    }
}

/// The games that the complete entries of `items` describe, in order.
pub open spec fn games_of(items: Seq<JsonValue>) -> Seq<GameView>
    decreases items.len(),
{
    if items.len() == 0 {
        Seq::empty()
    } else {
        let rest = games_of(items.drop_last());
        match game_of(items.last()) {
            Some(g) => rest.push(g),
            None => rest,
        }
    }
}

/// Reads one game entry.
pub fn game_from_item(item: &JsonValue) -> (r: Option<Game>)
    ensures
        match r {
            Some(g) => game_of(*item) == Some(g@),
            None => game_of(*item) is None,
        },
{
    let id = match u64_field(item, "id") {
        Some(v) => v,
        None => return None,
    };
    let name = match str_field(item, "name") {
        Some(v) => v,
        None => return None,
    };
    let description = match str_field(item, "description") {
        Some(v) => v,
        None => return None,
    };
    let creator_id = match nested_u64(item, "creator", "id") {
        Some(v) => v,
        None => return None,
    };
    let creator_name = match nested_str(item, "creator", "name") {
        Some(v) => v,
        None => return None,
    };
    let creator_type = match nested_str(item, "creator", "type") {
        Some(v) => v,
        None => return None,
    };
    let root_place_id = match nested_u64(item, "rootPlace", "id") {
        Some(v) => v,
        None => return None,
    };
    let place_visits = match u64_field(item, "placeVisits") {
        Some(v) => v,
        None => return None,
    };
    Some(
        Game {
            id,
            name,
            description,
            creator_id,
            creator_name,
            creator_type,
            root_place_id,
            place_visits,
        },
    )
}

/// The favourite games listed under `data`.
pub fn favorite_games_from_json(json: &JsonValue) -> (games: Vec<Game>)
    ensures
        games@.map_values(|g: Game| g@) == games_of(listed(*json, "data"@)),
{
    let mut out: Vec<Game> = Vec::new();
    let items = match array_field(json, "data") {
        Some(items) => items,
        None => {
            assert(out@.map_values(|g: Game| g@) =~= Seq::<GameView>::empty());
            return out;
        },
    };
    let mut i: usize = 0;
    while i < items.len()
        invariant
            i <= items@.len(),
            out@.map_values(|g: Game| g@) == games_of(items@.take(i as int)),
        decreases items@.len() - i,
    {
        assert(items@.take(i + 1).drop_last() =~= items@.take(i as int));
        let ghost before = out@;
        match game_from_item(&items[i]) {
            Some(g) => {
                out.push(g);
                assert(out@.map_values(|g: Game| g@) =~= before.map_values(|g: Game| g@).push(g@));
            },
            None => {},
        }
        i += 1;
    }
    assert(items@.take(items@.len() as int) =~= items@);
    out
}

/// The price of a game pass entry: `price` read as a `u64` and cut down to
/// its low 32 bits; absent when missing or not such a number.
pub open spec fn pass_price_of(item: JsonValue) -> Option<u32> {
    match field_u64(item, "price"@) {
        Some(p) => Some(p as u32),
        None => None,
    }
}

/// The game pass that a list entry describes, if it has all of its
/// required fields (the price is optional).
pub open spec fn gamepass_of(item: JsonValue) -> Option<GamePassView> {
    match (
        field_u64(item, "gamePassId"@),
        field_str(item, "name"@),
        field_str(item, "description"@),
        field_bool(item, "isForSale"@),
        as_u64_of(nested(item, "creator"@, "creatorId"@)),
        as_str_of(nested(item, "creator"@, "name"@)),
        as_str_of(nested(item, "creator"@, "creatorType"@)),
    ) {
        (
            Some(game_pass_id),
            Some(name),
            Some(description),
            Some(is_for_sale),
            Some(creator_id),
            Some(creator_name),
            Some(creator_type),
        ) => Some(
            GamePassView {
                game_pass_id,
                name,
                description,
                is_for_sale,
                price: pass_price_of(item),
                creator_id,
                creator_name,
                creator_type,
            },
        ),
        _ => None,
    }
}

/// The game passes that the complete entries of `items` describe, in order.
pub open spec fn gamepasses_of(items: Seq<JsonValue>) -> Seq<GamePassView>
    decreases items.len(),
{
    if items.len() == 0 {
        Seq::empty()
    } else {
        let rest = gamepasses_of(items.drop_last());
        match gamepass_of(items.last()) {
            Some(g) => rest.push(g),
            None => rest,
        }
    }
}

/// Reads one game pass entry.
pub fn gamepass_from_item(item: &JsonValue) -> (r: Option<GamePass>)
    ensures
        match r {
            Some(g) => gamepass_of(*item) == Some(g@),
            None => gamepass_of(*item) is None,
        },
{
    let game_pass_id = match u64_field(item, "gamePassId") {
        Some(v) => v,
        None => return None,
    };
    let name = match str_field(item, "name") {
        Some(v) => v,
        None => return None,
    };
    let description = match str_field(item, "description") {
        Some(v) => v,
        None => return None,
    };
    let is_for_sale = match bool_field(item, "isForSale") {
        Some(v) => v,
        None => return None,
    };
    let price = match u64_field(item, "price") {
        Some(p) => Some(p as u32),
        None => None,
    };
    let creator_id = match nested_u64(item, "creator", "creatorId") {
        Some(v) => v,
        None => return None,
    };
    let creator_name = match nested_str(item, "creator", "name") {
        Some(v) => v,
        None => return None,
    };
    let creator_type = match nested_str(item, "creator", "creatorType") {
        Some(v) => v,
        None => return None,
    };
    Some(
        GamePass {
            game_pass_id,
            name,
            description,
            is_for_sale,
            price,
            creator_id,
            creator_name,
            creator_type,
        },
    )
}

/// The game passes listed under `gamePasses`.
pub fn gamepasses_from_json(json: &JsonValue) -> (passes: Vec<GamePass>)
    ensures
        passes@.map_values(|g: GamePass| g@) == gamepasses_of(listed(*json, "gamePasses"@)),
{
    let mut out: Vec<GamePass> = Vec::new();
    let items = match array_field(json, "gamePasses") {
        Some(items) => items,
        None => {
            assert(out@.map_values(|g: GamePass| g@) =~= Seq::<GamePassView>::empty());
            return out;
        },
    };
    let mut i: usize = 0;
    while i < items.len()
        invariant
            i <= items@.len(),
            out@.map_values(|g: GamePass| g@) == gamepasses_of(items@.take(i as int)),
        decreases items@.len() - i,
    {
        assert(items@.take(i + 1).drop_last() =~= items@.take(i as int));
        let ghost before = out@;
        match gamepass_from_item(&items[i]) {
            Some(g) => {
                out.push(g);
                assert(out@.map_values(|g: GamePass| g@) =~= before.map_values(|g: GamePass| g@).push(g@));
            },
            None => {},
        }
        i += 1;
    }
    assert(items@.take(items@.len() as int) =~= items@);
    out
}

/// The badge that a list entry describes, if it has all of its fields.
pub open spec fn badge_of(item: JsonValue) -> Option<BadgeView> {
    match (
        field_u64(item, "id"@),
        field_str(item, "name"@),
        as_str_of(nested(item, "awarder"@, "type"@)),
        field_str(item, "displayName"@),
        field_bool(item, "enabled"@),
    ) {
        (Some(id), Some(name), Some(typed), Some(display_name), Some(enabled)) => Some(
            BadgeView { id, name, typed, display_name, enabled },
        ),
        _ => None,
    }
}

/// The badges that the complete entries of `items` describe, in order.
pub open spec fn badges_of(items: Seq<JsonValue>) -> Seq<BadgeView>
    decreases items.len(),
{
    if items.len() == 0 {
        Seq::empty()
    } else {
        let rest = badges_of(items.drop_last());
        match badge_of(items.last()) {
            Some(b) => rest.push(b),
            None => rest,
        }
    }
}

/// Reads one badge entry.
pub fn badge_from_item(item: &JsonValue) -> (r: Option<Badge>)
    ensures
        match r {
            Some(b) => badge_of(*item) == Some(b@),
            None => badge_of(*item) is None,
        },
{
    let id = match u64_field(item, "id") {
        Some(v) => v,
        None => return None,
    };
    let name = match str_field(item, "name") {
        Some(v) => v,
        None => return None,
    };
    let typed = match nested_str(item, "awarder", "type") {
        Some(v) => v,
        None => return None,
    };
    let display_name = match str_field(item, "displayName") {
        Some(v) => v,
        None => return None,
    };
    let enabled = match bool_field(item, "enabled") {
        Some(v) => v,
        None => return None,
    };
    Some(Badge { id, name, typed, display_name, enabled })
}

/// The badges listed under `data`.
pub fn badges_from_json(json: &JsonValue) -> (badges: Vec<Badge>)
    ensures
        badges@.map_values(|b: Badge| b@) == badges_of(listed(*json, "data"@)),
{
    let mut out: Vec<Badge> = Vec::new();
    let items = match array_field(json, "data") {
        Some(items) => items,
        None => {
            assert(out@.map_values(|b: Badge| b@) =~= Seq::<BadgeView>::empty());
            return out;
        },
    };
    let mut i: usize = 0;
    while i < items.len()
        invariant
            i <= items@.len(),
            out@.map_values(|b: Badge| b@) == badges_of(items@.take(i as int)),
        decreases items@.len() - i,
    {
        assert(items@.take(i + 1).drop_last() =~= items@.take(i as int));
        let ghost before = out@;
        match badge_from_item(&items[i]) {
            Some(b) => {
                out.push(b);
                assert(out@.map_values(|b: Badge| b@) =~= before.map_values(|b: Badge| b@).push(b@));
            },
            None => {},
        }
        i += 1;
    }
    assert(items@.take(items@.len() as int) =~= items@);
    out
}

/// A listing of users never holds more than the entries it was read from,
/// and each user it holds is the reading of one of those entries.
pub proof fn law_users_from_entries(items: Seq<JsonValue>)
    ensures
        users_of(items).len() <= items.len(),
        forall|j: int|
            0 <= j < users_of(items).len() ==> exists|i: int|
                0 <= i < items.len() && #[trigger] user_of(items[i]) == Some(
                    #[trigger] users_of(items)[j],
                ),
    decreases items.len(),
{
    if items.len() > 0 {
        let rest = items.drop_last();
        law_users_from_entries(rest);
        assert forall|j: int| 0 <= j < users_of(items).len() implies exists|i: int|
            0 <= i < items.len() && #[trigger] user_of(items[i]) == Some(
                #[trigger] users_of(items)[j],
            ) by {
            if j < users_of(rest).len() {
                let i = choose|i: int|
                    0 <= i < rest.len() && #[trigger] user_of(rest[i]) == Some(
                        #[trigger] users_of(rest)[j],
                    );
                assert(rest[i] == items[i]);
                assert(users_of(items)[j] == users_of(rest)[j]);
            } else {
                assert(user_of(items[items.len() - 1]) == Some(users_of(items)[j]));
            }
        }
    }
}

/// A listing of games never holds more than the entries it was read from,
/// and each game it holds is the reading of one of those entries.
pub proof fn law_games_from_entries(items: Seq<JsonValue>)
    ensures
        games_of(items).len() <= items.len(),
        forall|j: int|
            0 <= j < games_of(items).len() ==> exists|i: int|
                0 <= i < items.len() && #[trigger] game_of(items[i]) == Some(
                    #[trigger] games_of(items)[j],
                ),
    decreases items.len(),
{
    if items.len() > 0 {
        let rest = items.drop_last();
        law_games_from_entries(rest);
        assert forall|j: int| 0 <= j < games_of(items).len() implies exists|i: int|
            0 <= i < items.len() && #[trigger] game_of(items[i]) == Some(
                #[trigger] games_of(items)[j],
            ) by {
            if j < games_of(rest).len() {
                let i = choose|i: int|
                    0 <= i < rest.len() && #[trigger] game_of(rest[i]) == Some(
                        #[trigger] games_of(rest)[j],
                    );
                assert(rest[i] == items[i]);
                assert(games_of(items)[j] == games_of(rest)[j]);
            } else {
                assert(game_of(items[items.len() - 1]) == Some(games_of(items)[j]));
            }
        }
    }
}

/// A listing of game passes never holds more than the entries it was read from,
/// and each game pass it holds is the reading of one of those entries.
pub proof fn law_gamepasses_from_entries(items: Seq<JsonValue>)
    ensures
        gamepasses_of(items).len() <= items.len(),
        forall|j: int|
            0 <= j < gamepasses_of(items).len() ==> exists|i: int|
                0 <= i < items.len() && #[trigger] gamepass_of(items[i]) == Some(
                    #[trigger] gamepasses_of(items)[j],
                ),
    decreases items.len(),
{
    if items.len() > 0 {
        let rest = items.drop_last();
        law_gamepasses_from_entries(rest);
        assert forall|j: int| 0 <= j < gamepasses_of(items).len() implies exists|i: int|
            0 <= i < items.len() && #[trigger] gamepass_of(items[i]) == Some(
                #[trigger] gamepasses_of(items)[j],
            ) by {
            if j < gamepasses_of(rest).len() {
                let i = choose|i: int|
                    0 <= i < rest.len() && #[trigger] gamepass_of(rest[i]) == Some(
                        #[trigger] gamepasses_of(rest)[j],
                    );
                assert(rest[i] == items[i]);
                assert(gamepasses_of(items)[j] == gamepasses_of(rest)[j]);
            } else {
                assert(gamepass_of(items[items.len() - 1]) == Some(gamepasses_of(items)[j]));
            }
        }
    }
}

/// A listing of badges never holds more than the entries it was read from,
/// and each badge it holds is the reading of one of those entries.
pub proof fn law_badges_from_entries(items: Seq<JsonValue>)
    ensures
        badges_of(items).len() <= items.len(),
        forall|j: int|
            0 <= j < badges_of(items).len() ==> exists|i: int|
                0 <= i < items.len() && #[trigger] badge_of(items[i]) == Some(
                    #[trigger] badges_of(items)[j],
                ),
    decreases items.len(),
{
    if items.len() > 0 {
        let rest = items.drop_last();
        law_badges_from_entries(rest);
        assert forall|j: int| 0 <= j < badges_of(items).len() implies exists|i: int|
            0 <= i < items.len() && #[trigger] badge_of(items[i]) == Some(
                #[trigger] badges_of(items)[j],
            ) by {
            if j < badges_of(rest).len() {
                let i = choose|i: int|
                    0 <= i < rest.len() && #[trigger] badge_of(rest[i]) == Some(
                        #[trigger] badges_of(rest)[j],
                    );
                assert(rest[i] == items[i]);
                assert(badges_of(items)[j] == badges_of(rest)[j]);
            } else {
                assert(badge_of(items[items.len() - 1]) == Some(badges_of(items)[j]));
            }
        }
    }
}

/// An entry is read as a user exactly when it holds every required
/// member with the right kind of value.
pub open spec fn complete_user_entry(item: JsonValue) -> bool {
    field_u64(item, "id"@) is Some
    && field_str(item, "name"@) is Some
    && field_str(item, "displayName"@) is Some
}

/// Reading a list of users goes entry by entry: no entries read as none; a
/// complete entry adds the user made of exactly its members, whatever
/// values they hold; any other entry adds nothing.
pub proof fn law_users_read_entry_by_entry(items: Seq<JsonValue>, item: JsonValue)
    ensures
        users_of(Seq::<JsonValue>::empty()) == Seq::<UserView>::empty(),
        complete_user_entry(item) ==> users_of(items.push(item)) == users_of(items).push(
            UserView {
                id: field_u64(item, "id"@)->0,
                name: field_str(item, "name"@)->0,
                display_name: field_str(item, "displayName"@)->0,
            },
        ),
        !complete_user_entry(item) ==> users_of(items.push(item)) == users_of(items),
{
    assert(items.push(item).drop_last() =~= items);
}

/// As many users are read as there are complete entries.
pub proof fn law_users_count_complete_entries(items: Seq<JsonValue>)
    ensures
        users_of(items).len() == items.filter(|it: JsonValue| complete_user_entry(it)).len(),
    decreases items.len(),
{
    reveal(Seq::filter);
    if items.len() > 0 {
        law_users_count_complete_entries(items.drop_last());
    }
}

/// An entry is read as a badge exactly when it holds every required
/// member with the right kind of value.
pub open spec fn complete_badge_entry(item: JsonValue) -> bool {
    field_u64(item, "id"@) is Some
    && field_str(item, "name"@) is Some
    && as_str_of(nested(item, "awarder"@, "type"@)) is Some
    && field_str(item, "displayName"@) is Some
    && field_bool(item, "enabled"@) is Some
}

/// Reading a list of badges goes entry by entry: no entries read as none; a
/// complete entry adds the badge made of exactly its members, whatever
/// values they hold; any other entry adds nothing.
pub proof fn law_badges_read_entry_by_entry(items: Seq<JsonValue>, item: JsonValue)
    ensures
        badges_of(Seq::<JsonValue>::empty()) == Seq::<BadgeView>::empty(),
        complete_badge_entry(item) ==> badges_of(items.push(item)) == badges_of(items).push(
            BadgeView {
                id: field_u64(item, "id"@)->0,
                name: field_str(item, "name"@)->0,
                typed: as_str_of(nested(item, "awarder"@, "type"@))->0,
                display_name: field_str(item, "displayName"@)->0,
                enabled: field_bool(item, "enabled"@)->0,
            },
        ),
        !complete_badge_entry(item) ==> badges_of(items.push(item)) == badges_of(items),
{
    assert(items.push(item).drop_last() =~= items);
}

/// As many badges are read as there are complete entries.
pub proof fn law_badges_count_complete_entries(items: Seq<JsonValue>)
    ensures
        badges_of(items).len() == items.filter(|it: JsonValue| complete_badge_entry(it)).len(),
    decreases items.len(),
{
    reveal(Seq::filter);
    if items.len() > 0 {
        law_badges_count_complete_entries(items.drop_last());
    }
}

/// An entry is read as a game pass exactly when it holds every required
/// member with the right kind of value.
pub open spec fn complete_gamepass_entry(item: JsonValue) -> bool {
    field_u64(item, "gamePassId"@) is Some
    && field_str(item, "name"@) is Some
    && field_str(item, "description"@) is Some
    && field_bool(item, "isForSale"@) is Some
    && as_u64_of(nested(item, "creator"@, "creatorId"@)) is Some
    && as_str_of(nested(item, "creator"@, "name"@)) is Some
    && as_str_of(nested(item, "creator"@, "creatorType"@)) is Some
}

/// Reading a list of gamepasses goes entry by entry: no entries read as none; a
/// complete entry adds the game pass made of exactly its members, whatever
/// values they hold; any other entry adds nothing.
pub proof fn law_gamepasses_read_entry_by_entry(items: Seq<JsonValue>, item: JsonValue)
    ensures
        gamepasses_of(Seq::<JsonValue>::empty()) == Seq::<GamePassView>::empty(),
        complete_gamepass_entry(item) ==> gamepasses_of(items.push(item)) == gamepasses_of(items).push(
            GamePassView {
                game_pass_id: field_u64(item, "gamePassId"@)->0,
                name: field_str(item, "name"@)->0,
                description: field_str(item, "description"@)->0,
                is_for_sale: field_bool(item, "isForSale"@)->0,
                creator_id: as_u64_of(nested(item, "creator"@, "creatorId"@))->0,
                creator_name: as_str_of(nested(item, "creator"@, "name"@))->0,
                creator_type: as_str_of(nested(item, "creator"@, "creatorType"@))->0,
                price: match field_u64(item, "price"@) {
                    Some(p) => Some(p as u32),
                    None => None,
                },
            },
        ),
        !complete_gamepass_entry(item) ==> gamepasses_of(items.push(item)) == gamepasses_of(items),
{
    assert(items.push(item).drop_last() =~= items);
}

/// As many gamepasses are read as there are complete entries.
pub proof fn law_gamepasses_count_complete_entries(items: Seq<JsonValue>)
    ensures
        gamepasses_of(items).len() == items.filter(|it: JsonValue| complete_gamepass_entry(it)).len(),
    decreases items.len(),
{
    reveal(Seq::filter);
    if items.len() > 0 {
        law_gamepasses_count_complete_entries(items.drop_last());
    }
}

/// An entry is read as a game exactly when it holds every required
/// member with the right kind of value.
pub open spec fn complete_game_entry(item: JsonValue) -> bool {
    field_u64(item, "id"@) is Some
    && field_str(item, "name"@) is Some
    && field_str(item, "description"@) is Some
    && as_u64_of(nested(item, "creator"@, "id"@)) is Some
    && as_str_of(nested(item, "creator"@, "name"@)) is Some
    && as_str_of(nested(item, "creator"@, "type"@)) is Some
    && as_u64_of(nested(item, "rootPlace"@, "id"@)) is Some
    && field_u64(item, "placeVisits"@) is Some
}

/// Reading a list of games goes entry by entry: no entries read as none; a
/// complete entry adds the game made of exactly its members, whatever
/// values they hold; any other entry adds nothing.
pub proof fn law_games_read_entry_by_entry(items: Seq<JsonValue>, item: JsonValue)
    ensures
        games_of(Seq::<JsonValue>::empty()) == Seq::<GameView>::empty(),
        complete_game_entry(item) ==> games_of(items.push(item)) == games_of(items).push(
            GameView {
                id: field_u64(item, "id"@)->0,
                name: field_str(item, "name"@)->0,
                description: field_str(item, "description"@)->0,
                creator_id: as_u64_of(nested(item, "creator"@, "id"@))->0,
                creator_name: as_str_of(nested(item, "creator"@, "name"@))->0,
                creator_type: as_str_of(nested(item, "creator"@, "type"@))->0,
                root_place_id: as_u64_of(nested(item, "rootPlace"@, "id"@))->0,
                place_visits: field_u64(item, "placeVisits"@)->0,
            },
        ),
        !complete_game_entry(item) ==> games_of(items.push(item)) == games_of(items),
{
    assert(items.push(item).drop_last() =~= items);
}

/// As many games are read as there are complete entries.
pub proof fn law_games_count_complete_entries(items: Seq<JsonValue>)
    ensures
        games_of(items).len() == items.filter(|it: JsonValue| complete_game_entry(it)).len(),
    decreases items.len(),
{
    reveal(Seq::filter);
    if items.len() > 0 {
        law_games_count_complete_entries(items.drop_last());
    }
}

} // verus!
