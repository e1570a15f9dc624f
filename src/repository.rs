use vstd::prelude::*;
use crate::api::AccessToken;
use crate::cache::Cache;
use crate::cache::CacheKey;
use crate::cache::ChannelsCache;
use crate::cache::GuildId;
use crate::cache::GuildsCache;
use crate::cache::MembersCache;
use crate::cache::RolesCache;
use crate::cache::UserId;
use crate::cache::full_key;
use crate::models::Channel;
use crate::models::ChannelKind;
use crate::models::ChannelResponse;
use crate::models::ChannelsResponse;
use crate::models::Guild;
use crate::models::GuildResponse;
use crate::models::GuildsResponse;
use crate::models::Member;
use crate::models::MemberResponse;
use crate::models::MembersResponse;
use crate::models::Role;
use crate::models::RoleResponse;
use crate::models::RolesResponse;
use crate::text::parse_bounded;
use crate::text::parse_unsigned;
use crate::text::same_text;

verus! {

/// Why a request could not be served.
#[derive(Debug)]
pub enum ServiceError {
    /// No credential was presented.
    Unauthenticated,
    /// The identity source failed or gave an id that is not a number.
    IdentityResolutionFailed,
    /// The requested guild is not among the user's allowed guilds.
    GuildNotPermitted,
    /// A call to the directory failed.
    UpstreamFetchFailed(String),
    /// The directory's answer could not be read.
    MalformedResponse,
}

/// What scopes a repository call, and the cache key it is stored under.
pub trait RepositoryOptions<D: CacheKey> {
    spec fn cache_key(&self) -> D;

    fn get_cache_key(&self) -> (r: D)
        ensures
            r == self.cache_key(),
    ;
}

/// The channels of a guild, of one kind.
pub struct ChannelRepositoryOptions(pub u64, pub ChannelKind);

impl RepositoryOptions<GuildId> for ChannelRepositoryOptions {
    open spec fn cache_key(&self) -> GuildId {
        GuildId(self.0)
    }

    fn get_cache_key(&self) -> (r: GuildId) {
        GuildId(self.0)
    }
}

/// A guild, for the role and member lists.
pub struct SharedRepositoryOptions(pub u64);

impl RepositoryOptions<GuildId> for SharedRepositoryOptions {
    open spec fn cache_key(&self) -> GuildId {
        GuildId(self.0)
    }

    fn get_cache_key(&self) -> (r: GuildId) {
        GuildId(self.0)
    }
}

/// A user id, which keys the cache, and that user's credential, which fetches.
pub struct GuildRepositoryOptions(pub u64, pub AccessToken);

impl RepositoryOptions<UserId> for GuildRepositoryOptions {
    open spec fn cache_key(&self) -> UserId {
        UserId(self.0)
    }

    fn get_cache_key(&self) -> (r: UserId) {
        UserId(self.0)
    }
}

/// A guild-scoped collection served cache-aside: what a cache hit serves for given
/// options, and where the collection is cached.
pub trait Repository<D, F> {
    spec fn served(f: &F, cached: Seq<D>) -> Seq<D>;

    spec fn store_key(f: &F) -> Seq<char>;

    spec fn store_expiry(f: &F) -> Option<usize>;

    /// What a cache hit holding `cached` serves.
    fn get_cached(f: &F, cached: Vec<D>) -> (r: Vec<D>)
        ensures
            r@ == Self::served(f, cached@),
    ;

    /// The store key that the collection for `f` is cached under.
    fn cache_key(f: &F) -> (r: String)
        ensures
            r@ == Self::store_key(f),
    ;

    /// The expiry that a write of the collection for `f` applies.
    fn cache_expiry(f: &F) -> (r: Option<usize>)
        ensures
            r == Self::store_expiry(f),
    ;
}

pub open spec fn channel_of(c: ChannelResponse) -> Channel {
    Channel { id: c.id, name: c.name, kind: c.kind }
}

/// The channels of `kind` among `s`, in order.
pub open spec fn channels_of_kind(s: Seq<ChannelResponse>, kind: ChannelKind) -> Seq<Channel> {
    s.filter_map(|c: ChannelResponse| if c.kind == kind { Some(channel_of(c)) } else { None })
}

/// The channels of `kind` among `s`, in order.
pub open spec fn kept_channels(s: Seq<Channel>, kind: ChannelKind) -> Seq<Channel> {
    s.filter(|c: Channel| c.kind == kind)
}

pub open spec fn role_of(r: RoleResponse) -> Role {
    Role { id: r.id, name: r.name }
}

/// A member record with its discriminator read as a number below 2^16, if it reads.
pub open spec fn member_of(m: MemberResponse) -> Option<Member> {
    match parse_unsigned(m.user.discriminator@, 0xffff) {
        Some(d) => Some(Member { id: m.user.id, username: m.user.username, discriminator: d as u16 }),
        None => None,
    }
}

pub open spec fn guild_of(g: GuildResponse) -> Guild {
    Guild { id: g.id, name: g.name }
}

/// Whether a guild with id `id` is listed in `s`.
pub open spec fn lists_guild(s: Seq<GuildResponse>, id: Seq<char>) -> bool {
    exists|j: int| 0 <= j < s.len() && (#[trigger] s[j]).id@ == id
}

/// The guilds of `user` that `service` lists too, by id, in the order of `user`.
pub open spec fn mutual_guilds(user: Seq<GuildResponse>, service: Seq<GuildResponse>) -> Seq<Guild> {
    user.filter_map(|g: GuildResponse| if lists_guild(service, g.id@) { Some(guild_of(g)) } else { None })
}

pub struct ChannelRepository;

impl ChannelRepository {
    /// The channels of the options' kind in a directory answer, in its order.
    pub fn get_uncached(options: &ChannelRepositoryOptions, response: &ChannelsResponse) -> (r: Vec<Channel>)
        ensures
            r@ == channels_of_kind(response.channels@, options.1),
    {
        let s = &response.channels;
        let mut out: Vec<Channel> = Vec::new();
        let mut i: usize = 0;
        while i < s.len()
            invariant
                i <= s@.len(),
                out@ == channels_of_kind(s@.subrange(0, i as int), options.1),
            decreases s.len() - i,
        {
            let c = &s[i];
            assert(s@.subrange(0, i as int + 1).drop_last() =~= s@.subrange(0, i as int));
            if c.kind == options.1 {
                out.push(Channel { id: c.id.clone(), name: c.name.clone(), kind: c.kind });
            }
            i = i + 1;
        }
        assert(s@.subrange(0, s.len() as int) =~= s@);
        out
    }
}

impl Repository<Channel, ChannelRepositoryOptions> for ChannelRepository {
    open spec fn served(f: &ChannelRepositoryOptions, cached: Seq<Channel>) -> Seq<Channel> {
        kept_channels(cached, f.1)
    }

    open spec fn store_key(f: &ChannelRepositoryOptions) -> Seq<char> {
        full_key(f.cache_key().key_view(), ChannelsCache::namespace())
    }

    open spec fn store_expiry(f: &ChannelRepositoryOptions) -> Option<usize> {
        ChannelsCache::expiry(&f.cache_key())
    }

    fn get_cached(f: &ChannelRepositoryOptions, cached: Vec<Channel>) -> (r: Vec<Channel>) {
        let mut out: Vec<Channel> = Vec::new();
        let mut i: usize = 0;
        while i < cached.len()
            invariant
                i <= cached@.len(),
                out@ == kept_channels(cached@.subrange(0, i as int), f.1),
            decreases cached.len() - i,
        {
            proof {
                reveal(Seq::filter);
            }
            let ghost next = cached@.subrange(0, i as int + 1);
            assert(next.drop_last() =~= cached@.subrange(0, i as int));
            assert(next.last() == cached@[i as int]);
            if cached[i].kind == f.1 {
                out.push(cached[i].duplicate());
                assert(kept_channels(next, f.1) == kept_channels(cached@.subrange(0, i as int), f.1).push(cached@[i as int]));
            } else {
                assert(kept_channels(next, f.1) == kept_channels(cached@.subrange(0, i as int), f.1));
            }
            i = i + 1;
        }
        assert(cached@.subrange(0, cached.len() as int) =~= cached@);
        out
    }

    fn cache_key(f: &ChannelRepositoryOptions) -> (r: String) {
        ChannelsCache::get_full_key(&f.get_cache_key())
    }

    fn cache_expiry(f: &ChannelRepositoryOptions) -> (r: Option<usize>) {
        ChannelsCache::get_expire(&f.get_cache_key())
    }
}

pub struct RoleRepository;

impl RoleRepository {
    /// The roles of a directory answer, in its order.
    pub fn get_uncached(options: &SharedRepositoryOptions, response: &RolesResponse) -> (r: Vec<Role>)
        ensures
            r@ == response.roles@.map_values(|x: RoleResponse| role_of(x)),
    {
        let s = &response.roles;
        let mut out: Vec<Role> = Vec::new();
        let mut i: usize = 0;
        while i < s.len()
            invariant
                i <= s@.len(),
                out@ == s@.subrange(0, i as int).map_values(|x: RoleResponse| role_of(x)),
            decreases s.len() - i,
        {
            out.push(Role { id: s[i].id.clone(), name: s[i].name.clone() });
            i = i + 1;
            assert(out@ =~= s@.subrange(0, i as int).map_values(|x: RoleResponse| role_of(x)));
        }
        assert(s@.subrange(0, s.len() as int) =~= s@);
        out
    }
}

impl Repository<Role, SharedRepositoryOptions> for RoleRepository {
    open spec fn served(f: &SharedRepositoryOptions, cached: Seq<Role>) -> Seq<Role> {
        cached
    }

    open spec fn store_key(f: &SharedRepositoryOptions) -> Seq<char> {
        full_key(f.cache_key().key_view(), RolesCache::namespace())
    }

    open spec fn store_expiry(f: &SharedRepositoryOptions) -> Option<usize> {
        RolesCache::expiry(&f.cache_key())
    }

    fn get_cached(f: &SharedRepositoryOptions, cached: Vec<Role>) -> (r: Vec<Role>) {
        cached
    }

    fn cache_key(f: &SharedRepositoryOptions) -> (r: String) {
        RolesCache::get_full_key(&f.get_cache_key())
    }

    fn cache_expiry(f: &SharedRepositoryOptions) -> (r: Option<usize>) {
        RolesCache::get_expire(&f.get_cache_key())
    }
}

pub struct MemberRepository;

impl MemberRepository {
    /// The members of a directory answer, in its order; fails with `MalformedResponse`
    /// when a discriminator is not a number below 2^16.
    pub fn get_uncached(options: &SharedRepositoryOptions, response: &MembersResponse) -> (r: Result<Vec<Member>, ServiceError>)
        ensures
            r is Ok <==> forall|i: int| 0 <= i < response.members@.len() ==> (#[trigger] member_of(response.members@[i])) is Some,
            r matches Ok(v) ==> v@ == response.members@.map_values(|m: MemberResponse| member_of(m)->0),
            r matches Err(e) ==> e is MalformedResponse,
    {
        let s = &response.members;
        let mut out: Vec<Member> = Vec::new();
        let mut i: usize = 0;
        while i < s.len()
            invariant
                i <= s@.len(),
                s@ == response.members@,
                forall|j: int| 0 <= j < i ==> (#[trigger] member_of(s@[j])) is Some,
                out@ == s@.subrange(0, i as int).map_values(|m: MemberResponse| member_of(m)->0),
            decreases s.len() - i,
        {
            let u = &s[i].user;
            match parse_bounded(u.discriminator.as_str(), 0xffff) {
                Some(d) => {
                    out.push(Member { id: u.id.clone(), username: u.username.clone(), discriminator: d as u16 });
                },
                None => {
                    assert(member_of(response.members@[i as int]) is None);
                    return Err(ServiceError::MalformedResponse);
                },
            }
            i = i + 1;
            assert(out@ =~= s@.subrange(0, i as int).map_values(|m: MemberResponse| member_of(m)->0));
        }
        assert(s@.subrange(0, s.len() as int) =~= s@);
        Ok(out)
    }
}

impl Repository<Member, SharedRepositoryOptions> for MemberRepository {
    open spec fn served(f: &SharedRepositoryOptions, cached: Seq<Member>) -> Seq<Member> {
        cached
    }

    open spec fn store_key(f: &SharedRepositoryOptions) -> Seq<char> {
        full_key(f.cache_key().key_view(), MembersCache::namespace())
    }

    open spec fn store_expiry(f: &SharedRepositoryOptions) -> Option<usize> {
        MembersCache::expiry(&f.cache_key())
    }

    fn get_cached(f: &SharedRepositoryOptions, cached: Vec<Member>) -> (r: Vec<Member>) {
        cached
    }

    fn cache_key(f: &SharedRepositoryOptions) -> (r: String) {
        MembersCache::get_full_key(&f.get_cache_key())
    }

    fn cache_expiry(f: &SharedRepositoryOptions) -> (r: Option<usize>) {
        MembersCache::get_expire(&f.get_cache_key())
    }
}

pub struct MutualGuildRepository;

impl MutualGuildRepository {
    /// The guilds that both lists hold, by id, in the order of the user's list.
    pub fn intersect(user: &Vec<GuildResponse>, service: &Vec<GuildResponse>) -> (r: Vec<Guild>)
        ensures
            r@ == mutual_guilds(user@, service@),
    {
        let mut out: Vec<Guild> = Vec::new();
        let mut i: usize = 0;
        while i < user.len()
            invariant
                i <= user@.len(),
                out@ == mutual_guilds(user@.subrange(0, i as int), service@),
            decreases user.len() - i,
        {
            let g = &user[i];
            let mut found = false;
            let mut k: usize = 0;
            while k < service.len() && !found
                invariant
                    k <= service@.len(),
                    found ==> lists_guild(service@, g.id@),
                    !found ==> forall|j: int| 0 <= j < k ==> (#[trigger] service@[j]).id@ != g.id@,
                decreases service.len() - k,
            {
                if same_text(service[k].id.as_str(), g.id.as_str()) {
                    found = true;
                }
                k = k + 1;
            }
            assert(user@.subrange(0, i as int + 1).drop_last() =~= user@.subrange(0, i as int));
            if found {
                out.push(Guild { id: g.id.clone(), name: g.name.clone() });
            }
            i = i + 1;
        }
        assert(user@.subrange(0, user.len() as int) =~= user@);
        out
    }

    /// The mutual guilds of the two directory answers: the user's guild list and the
    /// service's; the first failure of the two, in that order, where one failed.
    pub fn get_uncached(
        options: &GuildRepositoryOptions,
        user: Result<GuildsResponse, ServiceError>,
        service: Result<GuildsResponse, ServiceError>,
    ) -> (r: Result<Vec<Guild>, ServiceError>)
        ensures
            user matches Err(e) ==> r == Err::<Vec<Guild>, ServiceError>(e),
            user is Ok ==> (service matches Err(e) ==> r == Err::<Vec<Guild>, ServiceError>(e)),
            user is Ok && service is Ok ==> r is Ok && r->Ok_0@ == mutual_guilds(user->Ok_0.guilds@, service->Ok_0.guilds@),
    {
        let u = match user {
            Ok(u) => u,
            Err(e) => return Err(e),
        };
        let b = match service {
            Ok(b) => b,
            Err(e) => return Err(e),
        };
        Ok(Self::intersect(&u.guilds, &b.guilds))
    }
}

impl Repository<Guild, GuildRepositoryOptions> for MutualGuildRepository {
    open spec fn served(f: &GuildRepositoryOptions, cached: Seq<Guild>) -> Seq<Guild> {
        cached
    }

    open spec fn store_key(f: &GuildRepositoryOptions) -> Seq<char> {
        full_key(f.cache_key().key_view(), GuildsCache::namespace())
    }

    open spec fn store_expiry(f: &GuildRepositoryOptions) -> Option<usize> {
        GuildsCache::expiry(&f.cache_key())
    }

    fn get_cached(f: &GuildRepositoryOptions, cached: Vec<Guild>) -> (r: Vec<Guild>) {
        cached
    }

    fn cache_key(f: &GuildRepositoryOptions) -> (r: String) {
        GuildsCache::get_full_key(&f.get_cache_key())
    }

    fn cache_expiry(f: &GuildRepositoryOptions) -> (r: Option<usize>) {
        GuildsCache::get_expire(&f.get_cache_key())
    }
}

proof fn lemma_fetched_of_kind(s: Seq<ChannelResponse>, kind: ChannelKind)
    ensures
        forall|i: int| 0 <= i < channels_of_kind(s, kind).len() ==> (#[trigger] channels_of_kind(s, kind)[i]).kind == kind,
    decreases s.len(),
{
    if s.len() > 0 {
        lemma_fetched_of_kind(s.drop_last(), kind);
    }
}

proof fn lemma_filter_keeps_all(s: Seq<Channel>, kind: ChannelKind)
    requires
        forall|i: int| 0 <= i < s.len() ==> (#[trigger] s[i]).kind == kind,
    ensures
        kept_channels(s, kind) == s,
    decreases s.len(),
{
    reveal(Seq::filter);
    if s.len() > 0 {
        lemma_filter_keeps_all(s.drop_last(), kind);
        assert(s.drop_last().push(s.last()) =~= s);
    }
}

/// Channels fetched for some options and cached are served back unchanged to the same
/// options: the filter by kind that a hit applies keeps every fetched channel.
pub proof fn lemma_cached_channels_served_unchanged(options: &ChannelRepositoryOptions, response: Seq<ChannelResponse>)
    ensures
        ChannelRepository::served(options, channels_of_kind(response, options.1)) == channels_of_kind(response, options.1),
{
    lemma_fetched_of_kind(response, options.1);
    lemma_filter_keeps_all(channels_of_kind(response, options.1), options.1);
}

} // verus!
