use vstd::prelude::*;

verus! {

/// One answer of a poll.
#[derive(Debug)]
pub struct PollOption {
    pub positive: bool,
    pub value: String,
}

/// A poll as the dashboard submits it.
#[derive(Debug)]
pub struct Poll {
    pub id: i32,
    pub question: String,
    pub channel_id: u64,
    pub result_channel_id: Option<u64>,
    pub pin: bool,
    pub mention_role: bool,
    pub delete_after_results: bool,
    pub custom: bool,
    pub role_id_needed: Option<u64>,
    pub vote_percentage_needed_to_pass: i16,
    pub max_votes_per_user: i16,
    pub options: Vec<PollOption>,
}

/// Where polls may run and which changes they may carry.
#[derive(Debug)]
pub struct PollSettings {
    pub allowed_channels: Vec<String>,
    pub allowed_changes: Vec<String>,
}

/// What a change is keyed by.
#[derive(PartialEq, Eq, Structural, Clone, Copy, Debug)]
pub enum ChangeKeyKind {
    Member,
    Channel,
    String,
    Role,
}

/// What a change takes as its value.
#[derive(PartialEq, Eq, Structural, Clone, Copy, Debug)]
pub enum ChangeValueKind {
    Member,
    String,
    NoValue,
    Role,
}

/// A change's machine name and its display name.
#[derive(Debug)]
pub struct ChangeIdentifier {
    pub value: String,
    pub name: String,
}

/// A change that a poll can carry out.
#[derive(Debug)]
pub struct ChangeInfo {
    pub identifier: ChangeIdentifier,
    pub key_kind: ChangeKeyKind,
    pub value_kind: ChangeValueKind,
}

pub open spec fn change_view(c: ChangeInfo) -> (Seq<char>, Seq<char>, ChangeKeyKind, ChangeValueKind) {
    (c.identifier.value@, c.identifier.name@, c.key_kind, c.value_kind)
}

fn change(value: &str, name: &str, key_kind: ChangeKeyKind, value_kind: ChangeValueKind) -> (r: ChangeInfo)
    ensures
        change_view(r) == (value@, name@, key_kind, value_kind),
{
    ChangeInfo {
        identifier: ChangeIdentifier { value: String::from_str(value), name: String::from_str(name) },
        key_kind,
        value_kind,
    }
}

/// The changes that polls can carry out: creating a channel (keyed by a name), deleting
/// a channel, and assigning a role to a member.
pub fn available_poll_changes() -> (r: Vec<ChangeInfo>)
    ensures
        r@.map_values(|c: ChangeInfo| change_view(c)) == seq![
            ("create_channel"@, "Create channel"@, ChangeKeyKind::String, ChangeValueKind::NoValue),
            ("delete_channel"@, "Delete channel"@, ChangeKeyKind::Channel, ChangeValueKind::NoValue),
            ("assign_role"@, "Assign role"@, ChangeKeyKind::Role, ChangeValueKind::Member),
        ],
{
    let mut v: Vec<ChangeInfo> = Vec::new();
    v.push(change("create_channel", "Create channel", ChangeKeyKind::String, ChangeValueKind::NoValue));
    v.push(change("delete_channel", "Delete channel", ChangeKeyKind::Channel, ChangeValueKind::NoValue));
    v.push(change("assign_role", "Assign role", ChangeKeyKind::Role, ChangeValueKind::Member));
    assert(v@.map_values(|c: ChangeInfo| change_view(c)) =~= seq![
        ("create_channel"@, "Create channel"@, ChangeKeyKind::String, ChangeValueKind::NoValue),
        ("delete_channel"@, "Delete channel"@, ChangeKeyKind::Channel, ChangeValueKind::NoValue),
        ("assign_role"@, "Assign role"@, ChangeKeyKind::Role, ChangeValueKind::Member),
    ]);
    v
}

/// The poll settings served to an authorized request.
pub fn poll_settings() -> (r: PollSettings)
    ensures
        r.allowed_channels@.map_values(|s: String| s@) == seq![
            "906898585302499369"@,
            "912721488187117578"@,
            "906898600162906162"@,
        ],
        r.allowed_changes@.map_values(|s: String| s@) == seq!["create_channel"@, "delete_channel"@, "assign_role"@],
{
    let mut channels: Vec<String> = Vec::new();
    channels.push(String::from_str("906898585302499369"));
    channels.push(String::from_str("912721488187117578"));
    channels.push(String::from_str("906898600162906162"));
    let mut changes: Vec<String> = Vec::new();
    changes.push(String::from_str("create_channel"));
    changes.push(String::from_str("delete_channel"));
    changes.push(String::from_str("assign_role"));
    assert(channels@.map_values(|s: String| s@) =~= seq![
        "906898585302499369"@,
        "912721488187117578"@,
        "906898600162906162"@,
    ]);
    assert(changes@.map_values(|s: String| s@) =~= seq!["create_channel"@, "delete_channel"@, "assign_role"@]);
    PollSettings { allowed_channels: channels, allowed_changes: changes }
}

} // verus!
