use vstd::prelude::*;
use crate::api::AccessToken;
use crate::cache::AccessTokenHash;
use crate::cache::Cache;
use crate::cache::CacheKey;
use crate::cache::GUILD_DATA_TTL;
use crate::cache::GuildsCache;
use crate::cache::UserId;
use crate::cache::UserIdCache;
use crate::cache::full_key;
use crate::cache_aside::AsidePhase;
use crate::cache_aside::CacheAside;
use crate::cache_aside::Stored;
use crate::cache_aside::after_read;
use crate::cache_aside::store_get;
use crate::cache_aside::store_set;
use crate::models::Guild;
use crate::models::MeResponse;
use crate::repository::GuildRepositoryOptions;
use crate::repository::ServiceError;
use crate::text::decimal;
use crate::text::last_segment;
use crate::text::last_word;
use crate::text::parse_bounded;
use crate::text::parse_unsigned;
use crate::text::same_text;
use crate::text::to_decimal;

verus! {

/// The digest of an access token that keys its cached user id.
pub uninterp spec fn token_digest(token: Seq<char>) -> u64;

/// Relies on `BuildHasher::hash_one` over std's `DefaultHasher`: every `DefaultHasher`
/// made by `default` starts from the same state, so the digest depends on the token alone.
#[verifier::external_body]
fn digest_token(token: &str) -> (r: u64)
    ensures
        r == token_digest(token@),
{
    std::hash::BuildHasher::hash_one(
        &std::hash::BuildHasherDefault::<std::collections::hash_map::DefaultHasher>::default(),
        token,
    )
}

/// The credential that an `Authorization` header value carries: its last space-separated word.
pub fn parse_access_token(authorization: Option<&str>) -> (r: Option<String>)
    ensures
        authorization is None ==> r is None,
        authorization matches Some(h) ==> r is Some && r->0@ == last_segment(h@),
{
    match authorization {
        Some(h) => Some(last_word(h)),
        None => None,
    }
}

/// The text of the digest of `token`, as it stands in a cache key.
pub open spec fn token_hash_text(token: Seq<char>) -> Seq<char> {
    decimal(token_digest(token) as nat)
}

/// The store key of the user id cached for `token`.
pub open spec fn user_id_store_key(token: Seq<char>) -> Seq<char> {
    full_key("access_token_hash:"@ + token_hash_text(token), UserIdCache::namespace())
}

/// The store key of the allowed guilds cached for `user_id`.
pub open spec fn guilds_store_key(user_id: u64) -> Seq<char> {
    full_key(UserId(user_id).key_view(), GuildsCache::namespace())
}

/// The key that caches the user id of `token`, with no expiry.
pub fn token_key(token: &str) -> (r: AccessTokenHash)
    ensures
        r.hash@ == token_hash_text(token@),
        r.expires_in is None,
{
    let hash = to_decimal(digest_token(token));
    AccessTokenHash::new(hash.as_str())
}

/// The key that caches the user id of `token` for the `expires_in` seconds it stays valid.
pub fn token_key_with_expiry(token: &str, expires_in: usize) -> (r: AccessTokenHash)
    ensures
        r.hash@ == token_hash_text(token@),
        r.expires_in == Some(expires_in),
{
    let hash = to_decimal(digest_token(token));
    AccessTokenHash::new_with_expires_in(hash.as_str(), expires_in)
}

/// A user id read from the identity source's answer, if it is a number.
pub fn identity_of(me: &MeResponse) -> (r: Option<u64>)
    ensures
        r matches Some(v) ==> parse_unsigned(me.id@, u64::MAX as nat) == Some(v as nat),
        r is None ==> parse_unsigned(me.id@, u64::MAX as nat) is None,
{
    parse_bounded(me.id.as_str(), u64::MAX)
}

/// The user id in an answer of the identity source: none for a failed call or an id
/// that is not a number.
pub open spec fn identity_in(me: Result<MeResponse, ServiceError>) -> Option<nat> {
    match me {
        Ok(m) => parse_unsigned(m.id@, u64::MAX as nat),
        Err(_) => None,
    }
}

/// Whether `guilds` lets a request for the guild written `param` through: the text reads
/// as a number and a guild with exactly that id is listed.
pub open spec fn permits(guilds: Seq<Guild>, param: Seq<char>) -> bool {
    &&& parse_unsigned(param, u64::MAX as nat) is Some
    &&& exists|i: int| 0 <= i < guilds.len() && (#[trigger] guilds[i]).id@ == param
}

/// An authorized request: the guild it is for, and the credential it presented.
pub struct ValidationInfo {
    pub guild_id: u64,
    pub access_token: String,
}

/// The membership check: a request for the guild written `guild_param` passes when
/// that guild is among `guilds`, and is denied with `GuildNotPermitted` otherwise.
pub fn check_membership(guilds: &Vec<Guild>, guild_param: &str, access_token: String) -> (r: Result<ValidationInfo, ServiceError>)
    ensures
        r is Ok <==> permits(guilds@, guild_param@),
        r matches Ok(info) ==> parse_unsigned(guild_param@, u64::MAX as nat) == Some(info.guild_id as nat)
            && info.access_token == access_token,
        r matches Err(e) ==> e is GuildNotPermitted,
{
    let id = match parse_bounded(guild_param, u64::MAX) {
        Some(id) => id,
        None => return Err(ServiceError::GuildNotPermitted),
    };
    let mut i: usize = 0;
    while i < guilds.len()
        invariant
            i <= guilds@.len(),
            parse_unsigned(guild_param@, u64::MAX as nat) == Some(id as nat),
            forall|j: int| 0 <= j < i ==> (#[trigger] guilds@[j]).id@ != guild_param@,
        decreases guilds.len() - i,
    {
        if same_text(guilds[i].id.as_str(), guild_param) {
            return Ok(ValidationInfo { guild_id: id, access_token });
        }
        i = i + 1;
    }
    Err(ServiceError::GuildNotPermitted)
}

/// Where a resolution of a credential's allowed guilds stands.
#[derive(PartialEq, Eq, Structural, Clone, Copy, Debug)]
pub enum ValidationPhase {
    /// Read the cached user id under the token's key.
    ReadUserId,
    /// Ask the identity source who holds the token.
    FetchIdentity,
    /// Cache the user id under the token's key.
    WriteUserId,
    /// Resolve the allowed guilds of the user id, cache-aside.
    ResolveGuilds,
    /// Over, with an error.
    Failed,
}

/// The phase after the cached user id was read: a hit goes on to the guilds, a miss
/// asks the identity source.
pub open spec fn after_user_id_read(hit: bool) -> ValidationPhase {
    if hit { ValidationPhase::ResolveGuilds } else { ValidationPhase::FetchIdentity }
}

/// One resolution of a credential to its user id and its allowed guilds. The caller
/// performs what `phase` names (and, in `ResolveGuilds`, what `guilds.phase` names),
/// and reports each outcome through the matching `on_` method.
pub struct Validation {
    pub phase: ValidationPhase,
    pub access_token: String,
    pub token_hash: String,
    pub user_id: u64,
    pub guilds: CacheAside<Guild>,
    pub error: Option<ServiceError>,
}

impl Validation {
    pub open spec fn user_id_key_view(&self) -> Seq<char> {
        full_key("access_token_hash:"@ + self.token_hash@, UserIdCache::namespace())
    }

    /// A resolution of `access_token`, starting at the cached user id.
    pub fn start(access_token: String) -> (r: Self)
        ensures
            r.phase == ValidationPhase::ReadUserId,
            r.access_token == access_token,
            r.token_hash@ == token_hash_text(access_token@),
            r.error is None,
    {
        let hash = to_decimal(digest_token(access_token.as_str()));
        Validation {
            phase: ValidationPhase::ReadUserId,
            access_token,
            token_hash: hash,
            user_id: 0,
            guilds: CacheAside::new(),
            error: None,
        }
    }

    /// The key under which the user id of this credential is cached.
    pub fn user_id_key(&self) -> (r: AccessTokenHash)
        ensures
            r.hash@ == self.token_hash@,
            r.expires_in is None,
            full_key(r.key_view(), UserIdCache::namespace()) == self.user_id_key_view(),
    {
        AccessTokenHash::new(self.token_hash.as_str())
    }

    /// The options of the allowed-guild lookup: the user id and the user's credential.
    pub fn guild_options(&self) -> (r: GuildRepositoryOptions)
        ensures
            r.0 == self.user_id,
            r.1 == AccessToken::Bearer(self.access_token),
    {
        GuildRepositoryOptions(self.user_id, AccessToken::Bearer(self.access_token.clone()))
    }

    /// The cached user id read gave `cached`.
    pub fn on_user_id_cached(&mut self, cached: Option<u64>)
        requires
            old(self).phase == ValidationPhase::ReadUserId,
        ensures
            final(self).phase == after_user_id_read(cached is Some),
            cached matches Some(id) ==> final(self).user_id == id && final(self).guilds.phase == AsidePhase::ReadCache,
            final(self).access_token == old(self).access_token,
            final(self).token_hash == old(self).token_hash,
            final(self).error == old(self).error,
    {
        match cached {
            Some(id) => {
                self.user_id = id;
                self.guilds = CacheAside::new();
                self.phase = ValidationPhase::ResolveGuilds;
            },
            None => {
                self.phase = ValidationPhase::FetchIdentity;
            },
        }
    }

    /// The identity source answered `me`. An id that reads as a number is cached next;
    /// a failed call or any other id ends with `IdentityResolutionFailed`.
    pub fn on_identity(&mut self, me: Result<MeResponse, ServiceError>)
        requires
            old(self).phase == ValidationPhase::FetchIdentity,
        ensures
            identity_in(me) matches Some(id) ==> final(self).phase == ValidationPhase::WriteUserId
                && final(self).user_id as nat == id && final(self).error == old(self).error,
            identity_in(me) is None ==> final(self).phase == ValidationPhase::Failed
                    && final(self).error == Some(ServiceError::IdentityResolutionFailed),
            final(self).access_token == old(self).access_token,
            final(self).token_hash == old(self).token_hash,
    {
        let parsed = match &me {
            Ok(m) => identity_of(m),
            Err(_) => None,
        };
        match parsed {
            Some(id) => {
                self.user_id = id;
                self.phase = ValidationPhase::WriteUserId;
            },
            None => {
                self.error = Some(ServiceError::IdentityResolutionFailed);
                self.phase = ValidationPhase::Failed;
            },
        }
    }

    /// The user id was written to the cache, or not: either way the guilds come next.
    pub fn on_user_id_written(&mut self, written: bool)
        requires
            old(self).phase == ValidationPhase::WriteUserId,
        ensures
            final(self).phase == ValidationPhase::ResolveGuilds,
            final(self).guilds.phase == AsidePhase::ReadCache,
            final(self).user_id == old(self).user_id,
            final(self).access_token == old(self).access_token,
            final(self).token_hash == old(self).token_hash,
            final(self).error == old(self).error,
    {
        self.guilds = CacheAside::new();
        self.phase = ValidationPhase::ResolveGuilds;
    }

    pub open spec fn is_over(&self) -> bool {
        ||| self.phase == ValidationPhase::Failed && self.error is Some
        ||| self.phase == ValidationPhase::ResolveGuilds && self.guilds.phase == AsidePhase::Done
        ||| self.phase == ValidationPhase::ResolveGuilds && self.guilds.phase == AsidePhase::Failed
            && self.guilds.error is Some
    }

    /// The allowed guilds of the credential, or why they could not be had.
    pub fn allowed_guilds(self) -> (r: Result<Vec<Guild>, ServiceError>)
        requires
            self.is_over(),
        ensures
            self.phase == ValidationPhase::Failed ==> r == Err::<Vec<Guild>, ServiceError>(self.error->0),
            self.phase == ValidationPhase::ResolveGuilds && self.guilds.phase == AsidePhase::Done
                ==> r is Ok && r->Ok_0@ == self.guilds.values@,
            self.phase == ValidationPhase::ResolveGuilds && self.guilds.phase == AsidePhase::Failed
                ==> r == Err::<Vec<Guild>, ServiceError>(self.guilds.error->0),
    {
        if self.phase == ValidationPhase::Failed {
            match self.error {
                Some(e) => Err(e),
                None => Err(ServiceError::IdentityResolutionFailed),
            }
        } else {
            self.guilds.finish()
        }
    }

    /// The decision on a request for the guild written `guild_param`: the resolution's
    /// error if it failed, `GuildNotPermitted` without a guild or for one outside the
    /// allowed guilds, and the authorized guild id and credential otherwise.
    pub fn authorize(self, guild_param: Option<&str>) -> (r: Result<ValidationInfo, ServiceError>)
        requires
            self.is_over(),
        ensures
            self.phase == ValidationPhase::Failed ==> r == Err::<ValidationInfo, ServiceError>(self.error->0),
            self.phase == ValidationPhase::ResolveGuilds && self.guilds.phase == AsidePhase::Failed
                ==> r == Err::<ValidationInfo, ServiceError>(self.guilds.error->0),
            self.phase == ValidationPhase::ResolveGuilds && self.guilds.phase == AsidePhase::Done ==> {
                &&& r is Ok <==> (guild_param matches Some(p) && permits(self.guilds.values@, p@))
                &&& r matches Ok(info) ==> info.access_token == self.access_token
                    && parse_unsigned(guild_param->0@, u64::MAX as nat) == Some(info.guild_id as nat)
                &&& r matches Err(e) ==> e is GuildNotPermitted
            },
    {
        let token = self.access_token.clone();
        let guilds = match self.allowed_guilds() {
            Ok(g) => g,
            Err(e) => return Err(e),
        };
        match guild_param {
            Some(p) => check_membership(&guilds, p, token),
            None => Err(ServiceError::GuildNotPermitted),
        }
    }
}

/// The access resolver: it turns a request's credential into a resolution.
pub struct Validator;

impl Validator {
    pub fn new() -> (r: Self) {
        Validator
    }

    /// Starts resolving the credential of the `Authorization` header value, if any;
    /// without one the request is `Unauthenticated`.
    pub fn validate(&self, authorization: Option<&str>) -> (r: Result<Validation, ServiceError>)
        ensures
            authorization is None ==> (r matches Err(ServiceError::Unauthenticated)),
            authorization matches Some(h) ==> (r matches Ok(v) && v.phase == ValidationPhase::ReadUserId
                && v.access_token@ == last_segment(h@)
                && v.token_hash@ == token_hash_text(last_segment(h@))
                && v.error is None),
    {
        match parse_access_token(authorization) {
            Some(token) => Ok(Validation::start(token)),
            None => Err(ServiceError::Unauthenticated),
        }
    }
}

/// Re-resolution: two resolutions of one credential look the user id up under the same
/// key. Once the first has cached the user id there (the key of `token_key` carries no
/// expiry) and the allowed guilds under the user's key (with their expiry), the second,
/// within that expiry, reads both back: a hit on each, so neither the identity source nor
/// the guild lists are asked again, and the same user id and guilds come out.
pub proof fn lemma_re_resolution(
    first: &Validation,
    second: &Validation,
    ids: Map<Seq<char>, Stored<u64>>,
    lists: Map<Seq<char>, Stored<Vec<Guild>>>,
    user_id: u64,
    guilds: Vec<Guild>,
    now: int,
    later: int,
)
    requires
        first.access_token@ == second.access_token@,
        first.token_hash@ == token_hash_text(first.access_token@),
        second.token_hash@ == token_hash_text(second.access_token@),
        now <= later < now + GUILD_DATA_TTL,
    ensures
        first.user_id_key_view() == second.user_id_key_view(),
        first.user_id_key_view() == user_id_store_key(first.access_token@),
        ({
            let ids_after = store_set(ids, first.user_id_key_view(), user_id, None, now);
            let lists_after = store_set(lists, guilds_store_key(user_id), guilds, GuildsCache::expiry(&UserId(user_id)), now);
            &&& store_get(ids_after, second.user_id_key_view(), later) == Some(user_id)
            &&& after_user_id_read(true) == ValidationPhase::ResolveGuilds
            &&& store_get(lists_after, guilds_store_key(user_id), later) == Some(guilds)
            &&& after_read(true) == AsidePhase::Done
        }),
{
}

} // verus!
