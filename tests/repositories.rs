use std::collections::HashMap;

use guild_gate::cache_aside::AsidePhase;
use guild_gate::cache_aside::CacheAside;
use guild_gate::models::Channel;
use guild_gate::models::ChannelKind;
use guild_gate::models::ChannelResponse;
use guild_gate::models::ChannelsResponse;
use guild_gate::models::Guild;
use guild_gate::models::GuildResponse;
use guild_gate::models::GuildsResponse;
use guild_gate::models::MemberResponse;
use guild_gate::models::MembersResponse;
use guild_gate::models::RoleResponse;
use guild_gate::models::RolesResponse;
use guild_gate::models::UserResponse;
use guild_gate::repository::ChannelRepository;
use guild_gate::repository::ChannelRepositoryOptions;
use guild_gate::repository::GuildRepositoryOptions;
use guild_gate::repository::MemberRepository;
use guild_gate::repository::MutualGuildRepository;
use guild_gate::repository::Repository;
use guild_gate::repository::RepositoryOptions;
use guild_gate::repository::RoleRepository;
use guild_gate::repository::ServiceError;
use guild_gate::repository::SharedRepositoryOptions;
use guild_gate::api::AccessToken;

fn channel(id: &str, name: &str, kind: ChannelKind) -> ChannelResponse {
    ChannelResponse { id: id.to_string(), name: name.to_string(), kind }
}

fn guild(id: &str) -> GuildResponse {
    GuildResponse { id: id.to_string(), name: format!("name {}", id) }
}

fn guild_ids(v: &[Guild]) -> Vec<String> {
    v.iter().map(|g| g.id.clone()).collect()
}

fn upstream_channels() -> ChannelsResponse {
    ChannelsResponse {
        channels: vec![
            channel("c1", "general", ChannelKind::GuildText),
            channel("c2", "voice", ChannelKind::GuildVoice),
            channel("c3", "news", ChannelKind::GuildText),
        ],
    }
}

/// Runs one cache-aside read of a guild's text channels against `store`, counting fetches.
fn read_channels(store: &mut HashMap<String, Vec<Channel>>, options: &ChannelRepositoryOptions, fetches: &mut u32) -> Result<Vec<Channel>, ServiceError> {
    let key = ChannelRepository::cache_key(options);
    let mut run: CacheAside<Channel> = CacheAside::new();
    loop {
        match run.phase {
            AsidePhase::ReadCache => {
                let cached = store.get(&key).map(|v| v.iter().map(|c| c.duplicate()).collect());
                run.on_cached(cached.map(|v| ChannelRepository::get_cached(options, v)));
            }
            AsidePhase::Fetch => {
                *fetches += 1;
                run.on_fetched(Ok(ChannelRepository::get_uncached(options, &upstream_channels())));
            }
            AsidePhase::WriteBack => {
                store.insert(key.clone(), run.values.iter().map(|c| c.duplicate()).collect());
                run.on_written(true);
            }
            AsidePhase::Done | AsidePhase::Failed => return run.finish(),
        }
    }
}

#[test]
fn channels_are_filtered_by_kind() {
    let options = ChannelRepositoryOptions(9, ChannelKind::GuildText);
    let v = ChannelRepository::get_uncached(&options, &upstream_channels());
    assert_eq!(v.len(), 2);
    assert_eq!(v[0].id, "c1");
    assert_eq!(v[0].name, "general");
    assert_eq!(v[0].kind, ChannelKind::GuildText);
    assert_eq!(v[1].id, "c3");
    let voice = ChannelRepository::get_uncached(&ChannelRepositoryOptions(9, ChannelKind::GuildVoice), &upstream_channels());
    assert_eq!(voice.len(), 1);
    assert_eq!(voice[0].id, "c2");
}

#[test]
fn cached_channels_are_filtered_too() {
    let cached = vec![
        Channel { id: "a".to_string(), name: "x".to_string(), kind: ChannelKind::GuildNews },
        Channel { id: "b".to_string(), name: "y".to_string(), kind: ChannelKind::GuildText },
    ];
    let v = ChannelRepository::get_cached(&ChannelRepositoryOptions(1, ChannelKind::GuildText), cached);
    assert_eq!(v.len(), 1);
    assert_eq!(v[0].id, "b");
    let none = ChannelRepository::get_cached(&ChannelRepositoryOptions(1, ChannelKind::Dm), vec![]);
    assert!(none.is_empty());
}

#[test]
fn repository_keys_and_expiry() {
    let options = ChannelRepositoryOptions(123456789, ChannelKind::GuildText);
    assert_eq!(options.get_cache_key().0, 123456789);
    assert_eq!(ChannelRepository::cache_key(&options), "guilds:123456789:channels");
    assert_eq!(ChannelRepository::cache_expiry(&options), Some(1800));
    assert_eq!(RoleRepository::cache_key(&SharedRepositoryOptions(5)), "guilds:5:roles");
    assert_eq!(MemberRepository::cache_key(&SharedRepositoryOptions(5)), "guilds:5:members");
    let g = GuildRepositoryOptions(42, AccessToken::Bearer("abc".to_string()));
    assert_eq!(MutualGuildRepository::cache_key(&g), "users:42:guilds");
    assert_eq!(MutualGuildRepository::cache_expiry(&g), Some(1800));
}

#[test]
fn roles_are_normalized_in_order() {
    let response = RolesResponse {
        roles: vec![
            RoleResponse { id: "r1".to_string(), name: "admin".to_string() },
            RoleResponse { id: "r2".to_string(), name: "member".to_string() },
        ],
    };
    let v = RoleRepository::get_uncached(&SharedRepositoryOptions(1), &response);
    assert_eq!(v.len(), 2);
    assert_eq!(v[0].id, "r1");
    assert_eq!(v[0].name, "admin");
    assert_eq!(v[1].id, "r2");
}

fn member(id: &str, discriminator: &str) -> MemberResponse {
    MemberResponse {
        user: UserResponse { id: id.to_string(), username: format!("user {}", id), discriminator: discriminator.to_string() },
    }
}

#[test]
fn members_read_their_discriminator() {
    let response = MembersResponse { members: vec![member("u1", "0420"), member("u2", "65535")] };
    let v = MemberRepository::get_uncached(&SharedRepositoryOptions(1), &response).unwrap();
    assert_eq!(v.len(), 2);
    assert_eq!(v[0].id, "u1");
    assert_eq!(v[0].username, "user u1");
    assert_eq!(v[0].discriminator, 420);
    assert_eq!(v[1].discriminator, 65535);
}

#[test]
fn unreadable_discriminator_is_malformed() {
    let response = MembersResponse { members: vec![member("u1", "1"), member("u2", "x12")] };
    let r = MemberRepository::get_uncached(&SharedRepositoryOptions(1), &response);
    assert!(matches!(r, Err(ServiceError::MalformedResponse)));
    let too_big = MembersResponse { members: vec![member("u1", "65536")] };
    assert!(matches!(MemberRepository::get_uncached(&SharedRepositoryOptions(1), &too_big), Err(ServiceError::MalformedResponse)));
}

#[test]
fn mutual_guild_law() {
    let user = vec![guild("G1"), guild("G2"), guild("G3")];
    let service = vec![guild("G2"), guild("G3"), guild("G4")];
    let v = MutualGuildRepository::intersect(&user, &service);
    assert_eq!(guild_ids(&v), vec!["G2".to_string(), "G3".to_string()]);
    assert_eq!(v[0].name, "name G2");
}

#[test]
fn mutual_guilds_follow_the_user_order() {
    let user = vec![guild("3"), guild("1"), guild("2")];
    let service = vec![guild("1"), guild("2"), guild("3")];
    let v = MutualGuildRepository::intersect(&user, &service);
    assert_eq!(guild_ids(&v), vec!["3".to_string(), "1".to_string(), "2".to_string()]);
    assert!(MutualGuildRepository::intersect(&vec![], &service).is_empty());
    assert!(MutualGuildRepository::intersect(&user, &vec![]).is_empty());
}

#[test]
fn mutual_guilds_need_both_lists() {
    let options = GuildRepositoryOptions(1, AccessToken::Bearer("t".to_string()));
    let ok = || Ok(GuildsResponse { guilds: vec![guild("1")] });
    let r = MutualGuildRepository::get_uncached(&options, Err(ServiceError::UpstreamFetchFailed("user".to_string())), ok());
    assert!(matches!(r, Err(ServiceError::UpstreamFetchFailed(m)) if m == "user"));
    let r = MutualGuildRepository::get_uncached(&options, ok(), Err(ServiceError::UpstreamFetchFailed("bot".to_string())));
    assert!(matches!(r, Err(ServiceError::UpstreamFetchFailed(m)) if m == "bot"));
    let r = MutualGuildRepository::get_uncached(&options, ok(), ok()).unwrap();
    assert_eq!(guild_ids(&r), vec!["1".to_string()]);
}

#[test]
fn cache_aside_fetches_once_then_hits() {
    let mut store = HashMap::new();
    let mut fetches = 0;
    let options = ChannelRepositoryOptions(7, ChannelKind::GuildText);
    let first = read_channels(&mut store, &options, &mut fetches).unwrap();
    assert_eq!(fetches, 1);
    assert!(store.contains_key("guilds:7:channels"));
    let second = read_channels(&mut store, &options, &mut fetches).unwrap();
    assert_eq!(fetches, 1);
    assert_eq!(first.len(), 2);
    assert_eq!(second.len(), 2);
    assert_eq!(second[1].id, "c3");
}

#[test]
fn cache_hit_never_fetches_even_when_empty() {
    let mut store = HashMap::new();
    store.insert("guilds:7:channels".to_string(), Vec::new());
    let mut fetches = 0;
    let v = read_channels(&mut store, &ChannelRepositoryOptions(7, ChannelKind::GuildText), &mut fetches).unwrap();
    assert!(v.is_empty());
    assert_eq!(fetches, 0);
}

#[test]
fn fetch_failure_ends_the_read() {
    let mut run: CacheAside<Channel> = CacheAside::new();
    assert_eq!(run.phase, AsidePhase::ReadCache);
    run.on_cached(None);
    assert_eq!(run.phase, AsidePhase::Fetch);
    run.on_fetched(Err(ServiceError::UpstreamFetchFailed("down".to_string())));
    assert_eq!(run.phase, AsidePhase::Failed);
    assert!(matches!(run.finish(), Err(ServiceError::UpstreamFetchFailed(m)) if m == "down"));
}

#[test]
fn failed_write_back_still_serves() {
    let mut run: CacheAside<Channel> = CacheAside::new();
    run.on_cached(None);
    run.on_fetched(Ok(vec![Channel { id: "c".to_string(), name: "n".to_string(), kind: ChannelKind::GuildText }]));
    assert_eq!(run.phase, AsidePhase::WriteBack);
    run.on_written(false);
    assert_eq!(run.phase, AsidePhase::Done);
    let v = run.finish().unwrap();
    assert_eq!(v.len(), 1);
    assert_eq!(v[0].id, "c");
}
