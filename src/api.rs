use vstd::prelude::*;
use crate::text::decimal;
use crate::text::push_decimal;

verus! {

pub enum HttpMethod {
    Get,
}

/// A request to the guild directory: its method and its path under the base address.
pub trait Endpoint {
    spec fn path(&self) -> Seq<char>;

    fn get_endpoint(&self) -> (r: String)
        ensures
            r@ == self.path(),
    ;

    /// Every request of the directory is a `GET`.
    fn get_method(&self) -> (r: HttpMethod)
        ensures
            r is Get,
    {
        HttpMethod::Get
    }
}

/// The identity of the credential's owner.
pub struct GetMe;

/// The guilds that the credential's owner belongs to.
pub struct GetGuilds;

pub struct GetChannels {
    pub guild_id: u64,
}

pub struct GetRoles {
    pub guild_id: u64,
}

pub struct GetMembers {
    pub guild_id: u64,
}

impl Endpoint for GetMe {
    open spec fn path(&self) -> Seq<char> {
        "/users/@me"@
    }

    fn get_endpoint(&self) -> (r: String) {
        String::from_str("/users/@me")
    }
}

impl Endpoint for GetGuilds {
    open spec fn path(&self) -> Seq<char> {
        "/users/@me/guilds"@
    }

    fn get_endpoint(&self) -> (r: String) {
        String::from_str("/users/@me/guilds")
    }
}

/// `/guilds/{id}/{tail}`.
pub open spec fn guild_path(guild_id: u64, tail: Seq<char>) -> Seq<char> {
    "/guilds/"@ + decimal(guild_id as nat) + tail
}

fn write_guild_path(guild_id: u64, tail: &str) -> (r: String)
    ensures
        r@ == guild_path(guild_id, tail@),
{
    let mut p = String::from_str("/guilds/");
    push_decimal(&mut p, guild_id);
    p.append(tail);
    p
}

impl Endpoint for GetChannels {
    open spec fn path(&self) -> Seq<char> {
        guild_path(self.guild_id, "/channels"@)
    }

    fn get_endpoint(&self) -> (r: String) {
        write_guild_path(self.guild_id, "/channels")
    }
}

impl Endpoint for GetRoles {
    open spec fn path(&self) -> Seq<char> {
        guild_path(self.guild_id, "/roles"@)
    }

    fn get_endpoint(&self) -> (r: String) {
        write_guild_path(self.guild_id, "/roles")
    }
}

impl Endpoint for GetMembers {
    open spec fn path(&self) -> Seq<char> {
        guild_path(self.guild_id, "/members"@)
    }

    fn get_endpoint(&self) -> (r: String) {
        write_guild_path(self.guild_id, "/members")
    }
}

/// A credential: the service's own (`Bot`) or one a user delegated (`Bearer`).
#[derive(Clone)]
pub enum AccessToken {
    Bot(String),
    Bearer(String),
}

/// The address that every directory path is relative to.
pub const BASE_URI: &'static str = "https://discord.com/api";

/// The `Authorization` header value that presents `token`.
pub open spec fn authorization_of(token: AccessToken) -> Seq<char> {
    match token {
        AccessToken::Bot(v) => "Bot "@ + v@,
        AccessToken::Bearer(v) => "Bearer "@ + v@,
    }
}

/// A caller of the directory that presents one credential.
pub struct DiscordCall {
    pub access_token: AccessToken,
}

impl DiscordCall {
    pub fn new(access_token: AccessToken) -> (r: Self)
        ensures
            r.access_token == access_token,
    {
        DiscordCall { access_token }
    }

    /// The full address of `endpoint`.
    pub fn uri<E: Endpoint>(&self, endpoint: &E) -> (r: String)
        ensures
            r@ == BASE_URI@ + endpoint.path(),
    {
        let mut u = String::from_str(BASE_URI);
        let p = endpoint.get_endpoint();
        u.append(p.as_str());
        u
    }

    /// The value of the `Authorization` header that every request of this caller carries.
    pub fn authorization(&self) -> (r: String)
        ensures
            r@ == authorization_of(self.access_token),
    {
        match &self.access_token {
            AccessToken::Bot(v) => {
                let mut h = String::from_str("Bot ");
                h.append(v.as_str());
                h
            },
            AccessToken::Bearer(v) => {
                let mut h = String::from_str("Bearer ");
                h.append(v.as_str());
                h
            },
        }
    }
}

} // verus!
