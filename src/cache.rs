use vstd::prelude::*;
use crate::models::Channel;
use crate::models::Guild;
use crate::models::Member;
use crate::models::Role;
use crate::text::decimal;
use crate::text::lemma_decimal_injective;
use crate::text::push_decimal;

verus! {

/// A semantic cache key: it writes itself as a base key string.
pub trait CacheKey {
    spec fn key_view(&self) -> Seq<char>;

    fn get_key(&self) -> (r: String)
        ensures
            r@ == self.key_view(),
    ;
}

/// The key under which a cache with an optional sub-namespace stores `base`:
/// `base`, or `base:namespace`.
pub open spec fn full_key(base: Seq<char>, namespace: Option<Seq<char>>) -> Seq<char> {
    match namespace {
        Some(ns) => base + ":"@ + ns,
        None => base,
    }
}

/// A typed cache: its keys, its values, the sub-namespace that keeps it apart from other
/// caches over the same keys, and its expiry policy, a function of the key alone.
pub trait Cache<D: CacheKey, T> {
    spec fn namespace() -> Option<Seq<char>>;

    spec fn expiry(key: &D) -> Option<usize>;

    /// Seconds after which an entry written under `key` expires; `None` keeps it.
    fn get_expire(key: &D) -> (r: Option<usize>)
        ensures
            r == Self::expiry(key),
    ;

    fn get_additional_namespace() -> (r: Option<String>)
        ensures
            r is Some <==> Self::namespace() is Some,
            r matches Some(s) ==> Self::namespace() == Some(s@),
    ;

    /// The store key of `key` in this cache.
    fn get_full_key(key: &D) -> (r: String)
        ensures
            r@ == full_key(key.key_view(), Self::namespace()),
    {
        let mut k = key.get_key();
        match Self::get_additional_namespace() {
            Some(ns) => {
                k.append(":");
                k.append(ns.as_str());
                k
            },
            None => k,
        }
    }
}

/// A digest of an access token, with the token's remaining lifetime where it is known.
#[derive(Debug)]
pub struct AccessTokenHash {
    pub hash: String,
    pub expires_in: Option<usize>,
}

impl AccessTokenHash {
    pub fn new(hash: &str) -> (r: Self)
        ensures
            r.hash@ == hash@,
            r.expires_in is None,
    {
        AccessTokenHash { hash: String::from_str(hash), expires_in: None }
    }

    pub fn new_with_expires_in(hash: &str, expires_in: usize) -> (r: Self)
        ensures
            r.hash@ == hash@,
            r.expires_in == Some(expires_in),
    {
        AccessTokenHash { hash: String::from_str(hash), expires_in: Some(expires_in) }
    }
}

impl CacheKey for AccessTokenHash {
    open spec fn key_view(&self) -> Seq<char> {
        "access_token_hash:"@ + self.hash@
    }

    fn get_key(&self) -> (r: String) {
        let mut k = String::from_str("access_token_hash:");
        k.append(self.hash.as_str());
        k
    }
}

/// A user id, as a key.
#[derive(Debug)]
pub struct UserId(pub u64);

impl CacheKey for UserId {
    open spec fn key_view(&self) -> Seq<char> {
        "users:"@ + decimal(self.0 as nat)
    }

    fn get_key(&self) -> (r: String) {
        let mut k = String::from_str("users:");
        push_decimal(&mut k, self.0);
        k
    }
}

/// A guild id, as a key.
#[derive(Debug)]
pub struct GuildId(pub u64);

impl CacheKey for GuildId {
    open spec fn key_view(&self) -> Seq<char> {
        "guilds:"@ + decimal(self.0 as nat)
    }

    fn get_key(&self) -> (r: String) {
        let mut k = String::from_str("guilds:");
        push_decimal(&mut k, self.0);
        k
    }
}

/// The expiry of every guild-scoped list and of the allowed-guild list, in seconds.
pub const GUILD_DATA_TTL: usize = 1800;

/// The user id that a token digest resolves to; kept for the token's lifetime when known.
pub struct UserIdCache;

impl Cache<AccessTokenHash, u64> for UserIdCache {
    open spec fn namespace() -> Option<Seq<char>> {
        None
    }

    open spec fn expiry(key: &AccessTokenHash) -> Option<usize> {
        key.expires_in
    }

    fn get_expire(key: &AccessTokenHash) -> (r: Option<usize>) {
        key.expires_in
    }

    fn get_additional_namespace() -> (r: Option<String>) {
        None
    }
}

/// The guilds that a user shares with the service.
pub struct GuildsCache;

impl Cache<UserId, Vec<Guild>> for GuildsCache {
    open spec fn namespace() -> Option<Seq<char>> {
        Some("guilds"@)
    }

    open spec fn expiry(key: &UserId) -> Option<usize> {
        Some(GUILD_DATA_TTL)
    }

    fn get_expire(key: &UserId) -> (r: Option<usize>) {
        Some(GUILD_DATA_TTL)
    }

    fn get_additional_namespace() -> (r: Option<String>) {
        Some(String::from_str("guilds"))
    }
}

/// The channels of a guild.
pub struct ChannelsCache;

impl Cache<GuildId, Vec<Channel>> for ChannelsCache {
    open spec fn namespace() -> Option<Seq<char>> {
        Some("channels"@)
    }

    open spec fn expiry(key: &GuildId) -> Option<usize> {
        Some(GUILD_DATA_TTL)
    }

    fn get_expire(key: &GuildId) -> (r: Option<usize>) {
        Some(GUILD_DATA_TTL)
    }

    fn get_additional_namespace() -> (r: Option<String>) {
        Some(String::from_str("channels"))
    }
}

/// The roles of a guild.
pub struct RolesCache;

impl Cache<GuildId, Vec<Role>> for RolesCache {
    open spec fn namespace() -> Option<Seq<char>> {
        Some("roles"@)
    }

    open spec fn expiry(key: &GuildId) -> Option<usize> {
        Some(GUILD_DATA_TTL)
    }

    fn get_expire(key: &GuildId) -> (r: Option<usize>) {
        Some(GUILD_DATA_TTL)
    }

    fn get_additional_namespace() -> (r: Option<String>) {
        Some(String::from_str("roles"))
    }
}

/// The members of a guild.
pub struct MembersCache;

impl Cache<GuildId, Vec<Member>> for MembersCache {
    open spec fn namespace() -> Option<Seq<char>> {
        Some("members"@)
    }

    open spec fn expiry(key: &GuildId) -> Option<usize> {
        Some(GUILD_DATA_TTL)
    }

    fn get_expire(key: &GuildId) -> (r: Option<usize>) {
        Some(GUILD_DATA_TTL)
    }

    fn get_additional_namespace() -> (r: Option<String>) {
        Some(String::from_str("members"))
    }
}

/// Distinct kinds of entries never share a store key: the channel, role and member
/// lists of one guild, the allowed guilds of a user and a user id cached for a token.
pub proof fn lemma_keys_apart(guild: GuildId, user: UserId, token: AccessTokenHash)
    ensures
        full_key(guild.key_view(), ChannelsCache::namespace()) != full_key(guild.key_view(), RolesCache::namespace()),
        full_key(guild.key_view(), ChannelsCache::namespace()) != full_key(guild.key_view(), MembersCache::namespace()),
        full_key(guild.key_view(), RolesCache::namespace()) != full_key(guild.key_view(), MembersCache::namespace()),
        full_key(user.key_view(), GuildsCache::namespace()) != full_key(guild.key_view(), ChannelsCache::namespace()),
        full_key(user.key_view(), GuildsCache::namespace()) != full_key(guild.key_view(), RolesCache::namespace()),
        full_key(user.key_view(), GuildsCache::namespace()) != full_key(guild.key_view(), MembersCache::namespace()),
        full_key(user.key_view(), GuildsCache::namespace()) != full_key(token.key_view(), UserIdCache::namespace()),
        full_key(guild.key_view(), ChannelsCache::namespace()) != full_key(token.key_view(), UserIdCache::namespace()),
        full_key(guild.key_view(), RolesCache::namespace()) != full_key(token.key_view(), UserIdCache::namespace()),
        full_key(guild.key_view(), MembersCache::namespace()) != full_key(token.key_view(), UserIdCache::namespace()),
{
    reveal_strlit(":");
    reveal_strlit("channels");
    reveal_strlit("roles");
    reveal_strlit("members");
    reveal_strlit("guilds:");
    reveal_strlit("users:");
    reveal_strlit("access_token_hash:");
    let g = guild.key_view();
    let u = full_key(user.key_view(), GuildsCache::namespace());
    let t = full_key(token.key_view(), UserIdCache::namespace());
    assert(u[0] == 'u');
    assert(t[0] == 'a');
    assert(full_key(g, ChannelsCache::namespace())[0] == 'g');
    assert(full_key(g, RolesCache::namespace())[0] == 'g');
    assert(full_key(g, MembersCache::namespace())[0] == 'g');
    assert(full_key(g, ChannelsCache::namespace()).len() == g.len() + 9);
    assert(full_key(g, RolesCache::namespace()).len() == g.len() + 6);
    assert(full_key(g, MembersCache::namespace()).len() == g.len() + 8);
}

/// Within one cache, distinct guilds, and distinct users, have distinct store keys.
pub proof fn lemma_ids_apart(a: GuildId, b: GuildId, c: UserId, d: UserId, namespace: Option<Seq<char>>)
    ensures
        a.0 != b.0 ==> full_key(a.key_view(), namespace) != full_key(b.key_view(), namespace),
        c.0 != d.0 ==> full_key(c.key_view(), namespace) != full_key(d.key_view(), namespace),
{
    reveal_strlit("guilds:");
    reveal_strlit("users:");
    if full_key(a.key_view(), namespace) == full_key(b.key_view(), namespace) {
        lemma_base_apart(a.key_view(), b.key_view(), namespace);
        assert(a.key_view().subrange(7, a.key_view().len() as int) =~= decimal(a.0 as nat));
        assert(b.key_view().subrange(7, b.key_view().len() as int) =~= decimal(b.0 as nat));
        lemma_decimal_injective(a.0 as nat, b.0 as nat);
    }
    if full_key(c.key_view(), namespace) == full_key(d.key_view(), namespace) {
        lemma_base_apart(c.key_view(), d.key_view(), namespace);
        assert(c.key_view().subrange(6, c.key_view().len() as int) =~= decimal(c.0 as nat));
        assert(d.key_view().subrange(6, d.key_view().len() as int) =~= decimal(d.0 as nat));
        lemma_decimal_injective(c.0 as nat, d.0 as nat);
    }
}

proof fn lemma_base_apart(x: Seq<char>, y: Seq<char>, namespace: Option<Seq<char>>)
    requires
        full_key(x, namespace) == full_key(y, namespace),
    ensures
        x == y,
{
    if let Some(ns) = namespace {
        let tail = ":"@ + ns;
        assert(full_key(x, namespace) =~= x + tail);
        assert(full_key(y, namespace) =~= y + tail);
        assert(x =~= (x + tail).subrange(0, x.len() as int));
        assert(y =~= (y + tail).subrange(0, y.len() as int));
    }
}

} // verus!
