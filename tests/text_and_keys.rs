use guild_gate::api::AccessToken;
use guild_gate::api::DiscordCall;
use guild_gate::api::Endpoint;
use guild_gate::api::GetChannels;
use guild_gate::api::GetGuilds;
use guild_gate::api::GetMe;
use guild_gate::api::GetMembers;
use guild_gate::api::GetRoles;
use guild_gate::cache::AccessTokenHash;
use guild_gate::cache::Cache;
use guild_gate::cache::CacheKey;
use guild_gate::cache::ChannelsCache;
use guild_gate::cache::GuildId;
use guild_gate::cache::GuildsCache;
use guild_gate::cache::MembersCache;
use guild_gate::cache::RolesCache;
use guild_gate::cache::UserId;
use guild_gate::cache::UserIdCache;
use guild_gate::text::last_word;
use guild_gate::text::parse_bounded;
use guild_gate::text::same_text;
use guild_gate::text::to_decimal;

#[test]
fn decimal_writing() {
    assert_eq!(to_decimal(0), "0");
    assert_eq!(to_decimal(7), "7");
    assert_eq!(to_decimal(10), "10");
    assert_eq!(to_decimal(123456789), "123456789");
    assert_eq!(to_decimal(u64::MAX), "18446744073709551615");
}

#[test]
fn unsigned_parsing() {
    assert_eq!(parse_bounded("42", u64::MAX), Some(42));
    assert_eq!(parse_bounded("+7", u64::MAX), Some(7));
    assert_eq!(parse_bounded("007", u64::MAX), Some(7));
    assert_eq!(parse_bounded("18446744073709551615", u64::MAX), Some(u64::MAX));
    assert_eq!(parse_bounded("18446744073709551616", u64::MAX), None);
    assert_eq!(parse_bounded("", u64::MAX), None);
    assert_eq!(parse_bounded("+", u64::MAX), None);
    assert_eq!(parse_bounded("-1", u64::MAX), None);
    assert_eq!(parse_bounded("4a", u64::MAX), None);
    assert_eq!(parse_bounded(" 4", u64::MAX), None);
    assert_eq!(parse_bounded("65535", 65535), Some(65535));
    assert_eq!(parse_bounded("65536", 65535), None);
}

#[test]
fn last_word_of_header() {
    assert_eq!(last_word("Bearer abc"), "abc");
    assert_eq!(last_word("abc"), "abc");
    assert_eq!(last_word("a b c"), "c");
    assert_eq!(last_word("Bearer "), "");
    assert_eq!(last_word(""), "");
}

#[test]
fn text_comparison() {
    assert!(same_text("123", "123"));
    assert!(!same_text("123", "12"));
    assert!(!same_text("123", "124"));
    assert!(same_text("", ""));
}

#[test]
fn guild_scoped_keys_carry_their_kind() {
    assert_eq!(GuildId(123456789).get_key(), "guilds:123456789");
    assert_eq!(ChannelsCache::get_full_key(&GuildId(123456789)), "guilds:123456789:channels");
    assert_eq!(RolesCache::get_full_key(&GuildId(123456789)), "guilds:123456789:roles");
    assert_eq!(MembersCache::get_full_key(&GuildId(123456789)), "guilds:123456789:members");
}

#[test]
fn user_keys() {
    assert_eq!(UserId(42).get_key(), "users:42");
    assert_eq!(GuildsCache::get_full_key(&UserId(42)), "users:42:guilds");
    assert_eq!(UserIdCache::get_full_key(&AccessTokenHash::new("99")), "access_token_hash:99");
    assert_eq!(UserIdCache::get_additional_namespace(), None);
    assert_eq!(GuildsCache::get_additional_namespace(), Some("guilds".to_string()));
}

#[test]
fn expiry_policies() {
    assert_eq!(UserIdCache::get_expire(&AccessTokenHash::new("h")), None);
    assert_eq!(UserIdCache::get_expire(&AccessTokenHash::new_with_expires_in("h", 600)), Some(600));
    assert_eq!(GuildsCache::get_expire(&UserId(1)), Some(1800));
    assert_eq!(ChannelsCache::get_expire(&GuildId(1)), Some(1800));
    assert_eq!(RolesCache::get_expire(&GuildId(1)), Some(1800));
    assert_eq!(MembersCache::get_expire(&GuildId(1)), Some(1800));
}

#[test]
fn token_hash_constructors() {
    let k = AccessTokenHash::new("abc");
    assert_eq!(k.hash, "abc");
    assert_eq!(k.expires_in, None);
    let k = AccessTokenHash::new_with_expires_in("abc", 3600);
    assert_eq!(k.hash, "abc");
    assert_eq!(k.expires_in, Some(3600));
}

#[test]
fn endpoint_paths() {
    assert_eq!(GetMe.get_endpoint(), "/users/@me");
    assert_eq!(GetGuilds.get_endpoint(), "/users/@me/guilds");
    assert_eq!(GetChannels { guild_id: 5 }.get_endpoint(), "/guilds/5/channels");
    assert_eq!(GetRoles { guild_id: 6 }.get_endpoint(), "/guilds/6/roles");
    assert_eq!(GetMembers { guild_id: 7 }.get_endpoint(), "/guilds/7/members");
}

#[test]
fn call_address_and_header() {
    let bot = DiscordCall::new(AccessToken::Bot("s3".to_string()));
    assert_eq!(bot.uri(&GetGuilds), "https://discord.com/api/users/@me/guilds");
    assert_eq!(bot.authorization(), "Bot s3");
    let user = DiscordCall::new(AccessToken::Bearer("abc".to_string()));
    assert_eq!(user.authorization(), "Bearer abc");
    assert_eq!(user.uri(&GetChannels { guild_id: 12 }), "https://discord.com/api/guilds/12/channels");
}
