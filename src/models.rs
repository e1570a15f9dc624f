use vstd::prelude::*;

verus! {

/// The kind of a channel, as the directory reports it.
#[derive(PartialEq, Eq, Structural, Clone, Copy, Debug)]
pub enum ChannelKind {
    GuildText,
    Dm,
    GuildVoice,
    GroupDm,
    GuildCategory,
    GuildNews,
    GuildStore,
    GuildNewsThread,
    GuildPublicThread,
    GuildPrivateThread,
    GuildStageVoice,
}

/// A channel of a guild, as the dashboard serves it.
#[derive(Debug)]
pub struct Channel {
    pub id: String,
    pub name: String,
    pub kind: ChannelKind,
}

/// A member of a guild, as the dashboard serves it.
#[derive(Debug)]
pub struct Member {
    pub id: String,
    pub username: String,
    pub discriminator: u16,
}

/// A role of a guild, as the dashboard serves it.
#[derive(Debug)]
pub struct Role {
    pub id: String,
    pub name: String,
}

/// A guild, as the dashboard serves it.
#[derive(Debug)]
pub struct Guild {
    pub id: String,
    pub name: String,
}

/// The identity source's answer: the id of the credential's owner, as text.
#[derive(Debug)]
pub struct MeResponse {
    pub id: String,
}

/// One record of a guild list.
#[derive(Debug)]
pub struct GuildResponse {
    pub id: String,
    pub name: String,
}

/// A guild list, in the order the directory gave it.
#[derive(Debug)]
pub struct GuildsResponse {
    pub guilds: Vec<GuildResponse>,
}

/// One record of a guild's channel list.
#[derive(Debug)]
pub struct ChannelResponse {
    pub id: String,
    pub name: String,
    pub kind: ChannelKind,
}

#[derive(Debug)]
pub struct ChannelsResponse {
    pub channels: Vec<ChannelResponse>,
}

/// One record of a guild's role list.
#[derive(Debug)]
pub struct RoleResponse {
    pub id: String,
    pub name: String,
}

#[derive(Debug)]
pub struct RolesResponse {
    pub roles: Vec<RoleResponse>,
}

/// The user part of a member record; the discriminator comes as text.
#[derive(Debug)]
pub struct UserResponse {
    pub id: String,
    pub username: String,
    pub discriminator: String,
}

#[derive(Debug)]
pub struct MemberResponse {
    pub user: UserResponse,
}

#[derive(Debug)]
pub struct MembersResponse {
    pub members: Vec<MemberResponse>,
}

impl Channel {
    /// A copy of this channel.
    pub fn duplicate(&self) -> (r: Channel)
        ensures
            r == *self,
    {
        Channel { id: self.id.clone(), name: self.name.clone(), kind: self.kind }
    }
}

impl Guild {
    /// A copy of this guild.
    pub fn duplicate(&self) -> (r: Guild)
        ensures
            r == *self,
    {
        Guild { id: self.id.clone(), name: self.name.clone() }
    }
}

} // verus!
