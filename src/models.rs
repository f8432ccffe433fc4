//! The records the registry keeps, the payloads that create and change them,
//! and the merge of a sparse change into a stored server.

use vstd::prelude::*;

use crate::json::{int32_of, text_of, texts_of, JsonValue};

verus! {

/// A deployment locale; a server's region must name one of these.
#[derive(Debug, Clone, PartialEq, Eq)]
pub struct Region {
    pub id: i32,
    pub name: String,
}

/// A region that has not been stored yet.
#[derive(Debug, Clone, PartialEq, Eq)]
pub struct NewRegion {
    pub name: String,
}

/// A stored game server.
#[derive(Debug, Clone, PartialEq, Eq)]
pub struct GameServer {
    pub id: i32,
    pub name: String,
    pub region: String,
    pub game_type: String,
    pub ip: String,
    pub max_users: i32,
    pub current_users: i32,
    pub current_premium_users: Option<i32>,
    pub max_premium_users: Option<i32>,
    pub tags: Vec<String>,
}

/// The fields a client supplies to register a server. The store assigns the
/// id and starts the server with no users and no premium users.
#[derive(Debug, Clone, PartialEq, Eq)]
pub struct NewGameServer {
    pub name: String,
    pub region: String,
    pub game_type: String,
    pub ip: String,
    pub max_users: i32,
    pub max_premium_users: Option<i32>,
    pub tags: Vec<String>,
}

/// A sparse change to a stored server: each field that is present replaces
/// the stored one, each absent field leaves it as it is.
#[derive(Debug, Clone, PartialEq, Eq)]
pub struct UpdatedGameServer {
    pub name: Option<String>,
    pub region: Option<String>,
    pub game_type: Option<String>,
    pub ip: Option<String>,
    pub max_users: Option<i32>,
    pub max_premium_users: Option<i32>,
    pub tags: Option<Vec<String>>,
}

/// The field of a registration that was missing or of the wrong type.
#[derive(Debug, Clone, Copy, PartialEq, Eq)]
pub enum MissingField {
    Name,
    Region,
    GameType,
    Ip,
    MaxUsers,
    Tags,
}

/// Why a change could not be read.
#[derive(Debug, Clone, Copy, PartialEq, Eq)]
pub enum PatchError {
    /// `tags` was given but is not an array of strings.
    TagsNotStrings,
}

impl UpdatedGameServer {
    /// The change that touches no field.
    pub open spec fn is_empty(self) -> bool {
        &&& self.name is None
        &&& self.region is None
        &&& self.game_type is None
        &&& self.ip is None
        &&& self.max_users is None
        &&& self.max_premium_users is None
        &&& self.tags is None
    }
}

impl Default for UpdatedGameServer {
    fn default() -> (r: Self)
        ensures
            r.is_empty(),
    {
        UpdatedGameServer {
            name: None,
            region: None,
            game_type: None,
            ip: None,
            max_users: None,
            max_premium_users: None,
            tags: None,
        }
    }
}

impl GameServer {
    /// The server with each field that `updated` holds put in place.
    pub open spec fn patched(self, updated: UpdatedGameServer) -> GameServer {
        GameServer {
            id: self.id,
            name: match updated.name { Some(v) => v, None => self.name },
            region: match updated.region { Some(v) => v, None => self.region },
            game_type: match updated.game_type { Some(v) => v, None => self.game_type },
            ip: match updated.ip { Some(v) => v, None => self.ip },
            max_users: match updated.max_users { Some(v) => v, None => self.max_users },
            current_users: self.current_users,
            current_premium_users: self.current_premium_users,
            max_premium_users: match updated.max_premium_users {
                Some(v) => Some(v),
                None => self.max_premium_users,
            },
            tags: match updated.tags { Some(v) => v, None => self.tags },
        }
    }

    /// Overwrites each field that `updated` holds; keeps every other field,
    /// and never touches the id or the user counts. A premium capacity that
    /// is given becomes present; it is never cleared this way.
    pub fn update(&mut self, updated: UpdatedGameServer)
        ensures
            *final(self) == old(self).patched(updated),
            final(self).id == old(self).id,
            final(self).current_users == old(self).current_users,
            final(self).current_premium_users == old(self).current_premium_users,
            final(self).name == (match updated.name { Some(v) => v, None => old(self).name }),
            final(self).region == (match updated.region { Some(v) => v, None => old(self).region }),
            final(self).game_type == (match updated.game_type { Some(v) => v, None => old(self).game_type }),
            final(self).ip == (match updated.ip { Some(v) => v, None => old(self).ip }),
            final(self).max_users == (match updated.max_users { Some(v) => v, None => old(self).max_users }),
            final(self).max_premium_users == (match updated.max_premium_users {
                Some(v) => Some(v),
                None => old(self).max_premium_users,
            }),
            final(self).tags == (match updated.tags { Some(v) => v, None => old(self).tags }),
    {
        if let Some(v) = updated.name {
            self.name = v;
        }
        if let Some(v) = updated.region {
            self.region = v;
        }
        if let Some(v) = updated.game_type {
            self.game_type = v;
        }
        if let Some(v) = updated.ip {
            self.ip = v;
        }
        if let Some(v) = updated.max_users {
            self.max_users = v;
        }
        if let Some(v) = updated.max_premium_users {
            self.max_premium_users = Some(v);
        }
        if let Some(v) = updated.tags {
            self.tags = v;
        }
    }
}

/// The first required field of a registration that `body` lacks or holds
/// with the wrong type, in the order name, region, game type, address,
/// capacity, tags.
pub open spec fn first_missing(body: JsonValue) -> Option<MissingField> {
    if text_of(body.field("name"@)) is None {
        Some(MissingField::Name)
    } else if text_of(body.field("region"@)) is None {
        Some(MissingField::Region)
    } else if text_of(body.field("game_type"@)) is None {
        Some(MissingField::GameType)
    } else if text_of(body.field("ip"@)) is None {
        Some(MissingField::Ip)
    } else if int32_of(body.field("max_users"@)) is None {
        Some(MissingField::MaxUsers)
    } else if texts_of(body.field("tags"@)) is None {
        Some(MissingField::Tags)
    } else {
        None
    }
}

/// `n` holds what `body` gives for each field of a registration.
pub open spec fn reads_registration(body: JsonValue, n: NewGameServer) -> bool {
    &&& Some(n.name) == text_of(body.field("name"@))
    &&& Some(n.region) == text_of(body.field("region"@))
    &&& Some(n.game_type) == text_of(body.field("game_type"@))
    &&& Some(n.ip) == text_of(body.field("ip"@))
    &&& Some(n.max_users) == int32_of(body.field("max_users"@))
    &&& n.max_premium_users == int32_of(body.field("max_premium_users"@))
    &&& Some(n.tags@) == texts_of(body.field("tags"@))
}

/// `u` holds what `body` gives for each field of a change.
pub open spec fn reads_change(body: JsonValue, u: UpdatedGameServer) -> bool {
    &&& u.name == text_of(body.field("name"@))
    &&& u.region == text_of(body.field("region"@))
    &&& u.game_type == text_of(body.field("game_type"@))
    &&& u.ip == text_of(body.field("ip"@))
    &&& u.max_users == int32_of(body.field("max_users"@))
    &&& u.max_premium_users == int32_of(body.field("max_premium_users"@))
    &&& (u.tags matches Some(t) ==> texts_of(body.field("tags"@)) == Some(t@))
    &&& (u.tags is None <==> body.field("tags"@) is None)
}

/// Whether `body` gives `tags` with something other than an array of strings.
pub open spec fn bad_tags(body: JsonValue) -> bool {
    body.field("tags"@) is Some && texts_of(body.field("tags"@)) is None
}

impl NewGameServer {
    /// Reads a registration. Name, region, game type and address must be
    /// strings, the capacity a whole number that fits in an `i32`, and the
    /// tags an array of strings. The premium capacity is optional: it is kept
    /// when it is such a number and dropped otherwise.
    pub fn from_json(body: &JsonValue) -> (r: Result<NewGameServer, MissingField>)
        ensures
            r is Err <==> first_missing(*body) is Some,
            r matches Err(f) ==> first_missing(*body) == Some(f),
            r matches Ok(n) ==> reads_registration(*body, n),
    {
        let name = match body.text_at("name") {
            Some(v) => v,
            None => return Err(MissingField::Name),
        };
        let region = match body.text_at("region") {
            Some(v) => v,
            None => return Err(MissingField::Region),
        };
        let game_type = match body.text_at("game_type") {
            Some(v) => v,
            None => return Err(MissingField::GameType),
        };
        let ip = match body.text_at("ip") {
            Some(v) => v,
            None => return Err(MissingField::Ip),
        };
        let max_users = match body.i32_at("max_users") {
            Some(v) => v,
            None => return Err(MissingField::MaxUsers),
        };
        let max_premium_users = body.i32_at("max_premium_users");
        let tags = match body.texts_at("tags") {
            Some(v) => v,
            None => return Err(MissingField::Tags),
        };
        Ok(NewGameServer { name, region, game_type, ip, max_users, max_premium_users, tags })
    }
}

impl NewRegion {
    /// Reads a new region: `name` must be a string.
    pub fn from_json(body: &JsonValue) -> (r: Option<NewRegion>)
        ensures
            r is Some <==> text_of(body.field("name"@)) is Some,
            r matches Some(n) ==> Some(n.name) == text_of(body.field("name"@)),
    {
        match body.text_at("name") {
            Some(name) => Some(NewRegion { name }),
            None => None,
        }
    }
}

impl UpdatedGameServer {
    /// Reads a sparse change. Each recognised member that holds a value of
    /// the field's type is taken; a member of another type is left out.
    /// `tags`, when given, must be an array of strings, else the whole
    /// change is refused.
    pub fn from_json(body: &JsonValue) -> (r: Result<UpdatedGameServer, PatchError>)
        ensures
            r is Err <==> bad_tags(*body),
            r matches Ok(u) ==> reads_change(*body, u),
    {
        let tags = if body.has("tags") {
            match body.texts_at("tags") {
                Some(t) => Some(t),
                None => return Err(PatchError::TagsNotStrings),
            }
        } else {
            None
        };
        Ok(UpdatedGameServer {
            name: body.text_at("name"),
            region: body.text_at("region"),
            game_type: body.text_at("game_type"),
            ip: body.text_at("ip"),
            max_users: body.i32_at("max_users"),
            max_premium_users: body.i32_at("max_premium_users"),
            tags,
        })
    }
}

/// A change whose body holds none of the recognised fields is read as the
/// empty change, and leaves a stored server exactly as it was.
pub proof fn change_without_fields_keeps_server(body: JsonValue, u: UpdatedGameServer, s: GameServer)
    requires
        body.field("name"@) is None,
        body.field("region"@) is None,
        body.field("game_type"@) is None,
        body.field("ip"@) is None,
        body.field("max_users"@) is None,
        body.field("max_premium_users"@) is None,
        body.field("tags"@) is None,
        reads_change(body, u),
    ensures
        !bad_tags(body),
        u.is_empty(),
        s.patched(u) == s,
{
}

/// A change that gives `tags` as an array of strings replaces the stored
/// tags with exactly those strings, in their order.
pub proof fn change_of_tags_replaces_them(body: JsonValue, u: UpdatedGameServer, s: GameServer, tags: Seq<String>)
    requires
        texts_of(body.field("tags"@)) == Some(tags),
        reads_change(body, u),
    ensures
        !bad_tags(body),
        s.patched(u).tags@ == tags,
{
}

} // verus!
