use vstd::prelude::*;
use crate::cache::players::{keys_lowercased, PlayerSplitsData, Players};
use crate::cache::split::Split;
use crate::utils::text::{chars_of, contains, contains_in, decimal, lowercase};

verus! {

/// serenity's identifier of a channel. The library hands it on and never
/// looks inside.
#[verifier::external_type_specification]
#[verifier::external_body]
pub struct ExChannelId(serenity::model::id::ChannelId);

/// What the rules read of a role of the chat platform: the identifier that a
/// tag is made of, and the display name.
#[derive(Debug, Clone, PartialEq, Eq)]
pub struct GuildRole {
    pub id: u64,
    pub name: String,
}

/// The text that tags the role with this identifier in a message, so that
/// the chat platform notifies its members.
pub open spec fn role_tag(id: u64) -> Seq<char> {
    "<@&"@ + decimal(id as nat) + ">"@
}

/// serenity's `Mentionable::mention` on a `RoleId`, rendered through the
/// `Display` of the `Mention` it returns: the characters `<@&`, the
/// identifier in decimal, and `>`.
#[verifier::external_body]
fn role_mention(id: u64) -> (tag: String)
    ensures
        tag@ == role_tag(id),
{
    serenity::model::mention::Mentionable::mention(&serenity::model::id::RoleId(id)).to_string()
}

impl GuildRole {
    /// The text that tags this role in a message.
    pub fn mention(&self) -> (tag: String)
        ensures
            tag@ == role_tag(self.id),
            tag@.len() > 0,
    {
        proof {
            crate::utils::text::lemma_decimal_nonempty(self.id as nat);
        }
        role_mention(self.id)
    }
}

/// The three kinds of subscriber group, told apart by the role's name.
#[derive(Debug, Clone, Copy, PartialEq, Eq, Structural)]
pub enum RoleKind {
    /// Notified when a registered runner is ahead of the personal best.
    PersonalBest,
    /// Notified when one named runner is at or under a threshold.
    Runner,
    /// Notified when any runner is at or under a threshold.
    General,
}

/// The kind of a group whose role has this name: a name with `PB` in it is
/// a personal-best group, any other name with `+` in it a group for one
/// runner, every other name a general group.
pub open spec fn role_kind(name: Seq<char>) -> RoleKind {
    if contains(name, "PB"@) {
        RoleKind::PersonalBest
    } else if contains(name, "+"@) {
        RoleKind::Runner
    } else {
        RoleKind::General
    }
}

/// One subscriber group: a role, the milestone it is about, the runner it
/// is restricted to (empty for every runner) and the threshold.
#[derive(Debug, Clone, PartialEq, Eq)]
pub struct RoleConfig {
    pub guild_role: GuildRole,
    pub split: Split,
    pub runner: String,
    pub minutes: u64,
    pub seconds: u64,
}

impl RoleConfig {
    /// The kind of this group.
    pub fn kind(&self) -> (k: RoleKind)
        ensures
            k == role_kind(self.guild_role.name@),
    {
        let name = chars_of(self.guild_role.name.as_str());
        if contains_in(&name, &chars_of("PB")) {
            RoleKind::PersonalBest
        } else if contains_in(&name, &chars_of("+")) {
            RoleKind::Runner
        } else {
            RoleKind::General
        }
    }
}

/// The state of one community: where its notifications go, whether it is
/// restricted to registered runners, the runners and the subscriber groups.
#[derive(Debug)]
pub struct GuildData {
    pub name: String,
    pub pace_channel: serenity::model::id::ChannelId,
    pub is_private: bool,
    pub players: Players,
    pub roles: Vec<RoleConfig>,
}

impl GuildData {
    /// The record of the runner with this nickname. A runner that an open
    /// community sees for the first time is entered with an empty record; a
    /// restricted community knows only the runners that were registered, and
    /// is left as it was.
    pub fn player_data(&mut self, nickname: &str) -> (r: Option<PlayerSplitsData>)
        ensures
            final(self).name == old(self).name,
            final(self).pace_channel == old(self).pace_channel,
            final(self).is_private == old(self).is_private,
            final(self).roles == old(self).roles,
            final(self).players@ == players_after(old(self).players@, old(self).is_private, nickname@),
            r == player_record(old(self).players@, old(self).is_private, nickname@),
            keys_lowercased(old(self).players@) ==> keys_lowercased(final(self).players@),
    {
        match self.players.get(nickname) {
            Some(data) => Some(data),
            None => {
                if self.is_private {
                    return None;
                }
                let data = PlayerSplitsData::default();
                self.players.insert(nickname, data);
                Some(data)
            },
        }
    }
}

/// The runners of a community after it has seen an event of `nickname`: an
/// open community enters a runner that it did not know.
pub open spec fn players_after(
    players: Map<Seq<char>, PlayerSplitsData>,
    is_private: bool,
    nickname: Seq<char>,
) -> Map<Seq<char>, PlayerSplitsData> {
    if players.contains_key(lowercase(nickname)) || is_private {
        players
    } else {
        players.insert(lowercase(nickname), PlayerSplitsData::unknown())
    }
}

/// The record that an event of `nickname` is judged by, if the community
/// takes events of that runner at all.
pub open spec fn player_record(
    players: Map<Seq<char>, PlayerSplitsData>,
    is_private: bool,
    nickname: Seq<char>,
) -> Option<PlayerSplitsData> {
    if players.contains_key(lowercase(nickname)) {
        Some(players[lowercase(nickname)])
    } else if is_private {
        None
    } else {
        Some(PlayerSplitsData::unknown())
    }
}

} // verus!
