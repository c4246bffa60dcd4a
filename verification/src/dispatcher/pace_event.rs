//! What one event of the feed means for one community.

use vstd::prelude::*;
use crate::cache::guild_data::{player_record, players_after, GuildData, RoleConfig};
use crate::cache::players::{keys_lowercased, PlayerSplitsData};
use crate::cache::split::{split_desc, split_emoji, Split};
use crate::dispatcher::compose::{
    compose_fields, embed_fields, metadata, metadata_text, ping_content, ping_text,
};
use crate::dispatcher::get_run_info::{get_run_info, run_info_of};
use crate::dispatcher::notification::{Notification, NotificationText, Stage};
use crate::dispatcher::qualify::{kind_qualifies, qualifying_tags};
use crate::dispatcher::run_info::RunInfo;
use crate::utils::millis_to_mins_secs::{millis_to_mins_secs, mins_secs};
use crate::utils::text::{lemma_decimal_nonempty, lowercase, texts_of};
use crate::ws::response::{Event, Response};

verus! {

/// What came of an event in one community.
#[derive(Debug)]
pub enum PaceEventOutcome {
    /// The marker of the event is not in the reference table.
    UnknownEvent,
    /// The community is restricted to registered runners, and the runner is
    /// not one of them.
    PlayerNotRegistered,
    /// The milestone has no description or no icon for the structure of
    /// the event.
    MissingSplitInfo,
    /// No subscriber group is notified of the event.
    NoRolesToPing,
    /// The event is to be announced with this notification.
    Notify(Notification),
}

/// The texts and values of an outcome.
pub enum OutcomeText {
    UnknownEvent,
    PlayerNotRegistered,
    MissingSplitInfo,
    NoRolesToPing,
    Notify(NotificationText),
}

/// How an outcome is reported.
#[derive(Debug, Clone, Copy, PartialEq, Eq, Structural)]
pub enum OutcomeClass {
    /// Reference data is missing for the event: an error, which ends the
    /// handling of this event for this community and nothing else.
    UnresolvedData,
    /// The rules of the community pass the event over: worth a note, and
    /// no error.
    PolicySkip,
    /// A notification is due.
    Notification,
}

impl OutcomeText {
    /// How the outcome is reported.
    pub open spec fn class(self) -> OutcomeClass {
        match self {
            OutcomeText::UnknownEvent | OutcomeText::MissingSplitInfo => {
                OutcomeClass::UnresolvedData
            },
            OutcomeText::PlayerNotRegistered | OutcomeText::NoRolesToPing => {
                OutcomeClass::PolicySkip
            },
            OutcomeText::Notify(_) => OutcomeClass::Notification,
        }
    }
}

impl PaceEventOutcome {
    /// How the outcome is reported: as an error, as a note, or by the
    /// notification that it holds.
    pub fn class(&self) -> (c: OutcomeClass)
        ensures
            c == self@.class(),
    {
        match self {
            PaceEventOutcome::UnknownEvent | PaceEventOutcome::MissingSplitInfo => {
                OutcomeClass::UnresolvedData
            },
            PaceEventOutcome::PlayerNotRegistered | PaceEventOutcome::NoRolesToPing => {
                OutcomeClass::PolicySkip
            },
            PaceEventOutcome::Notify(_) => OutcomeClass::Notification,
        }
    }
}

impl View for PaceEventOutcome {
    type V = OutcomeText;

    open spec fn view(&self) -> OutcomeText {
        match self {
            PaceEventOutcome::UnknownEvent => OutcomeText::UnknownEvent,
            PaceEventOutcome::PlayerNotRegistered => OutcomeText::PlayerNotRegistered,
            PaceEventOutcome::MissingSplitInfo => OutcomeText::MissingSplitInfo,
            PaceEventOutcome::NoRolesToPing => OutcomeText::NoRolesToPing,
            PaceEventOutcome::Notify(n) => OutcomeText::Notify(n@),
        }
    }
}

/// The notification of an event of which at least one group is notified.
pub open spec fn composed(
    response: Response,
    live_link: Seq<char>,
    stats_link: Seq<char>,
    author: serenity::builder::CreateEmbedAuthor,
    last_event: Event,
    guild: GuildData,
    info: RunInfo,
    desc: Seq<char>,
    emoji: Seq<char>,
    tags: Seq<Seq<char>>,
) -> NotificationText {
    let text = metadata_text(
        response.user.live_account is Some,
        last_event.igt as nat,
        desc,
        response.nickname@,
    );
    NotificationText {
        channel: guild.pace_channel,
        author,
        content: ping_text(text, tags),
        fields: embed_fields(
            response,
            live_link,
            stats_link,
            last_event.igt as nat,
            info,
            desc,
            emoji,
        ),
        metadata: text,
        tags,
        stage: Stage::Composed,
    }
}

/// What comes of an event whose marker was resolved to `info`, by the state
/// that the community was in when the event arrived.
pub open spec fn resolved_outcome(
    info: RunInfo,
    response: Response,
    live_link: Seq<char>,
    stats_link: Seq<char>,
    author: serenity::builder::CreateEmbedAuthor,
    last_event: Event,
    guild: GuildData,
) -> OutcomeText {
    match player_record(guild.players@, guild.is_private, response.nickname@) {
        None => OutcomeText::PlayerNotRegistered,
        Some(record) => match (
            split_desc(info.split, info.structure),
            split_emoji(info.split, info.structure),
        ) {
            (Some(desc), Some(emoji)) => {
                let tags = qualifying_tags(
                    guild.roles@,
                    guild.is_private,
                    info.split,
                    response.nickname@,
                    record,
                    last_event.igt as nat,
                );
                if tags.len() == 0 {
                    OutcomeText::NoRolesToPing
                } else {
                    OutcomeText::Notify(
                        composed(
                            response,
                            live_link,
                            stats_link,
                            author,
                            last_event,
                            guild,
                            info,
                            desc,
                            emoji,
                            tags,
                        ),
                    )
                }
            },
            _ => OutcomeText::MissingSplitInfo,
        },
    }
}

/// What comes of an event in a community, by the state that the community
/// was in when the event arrived.
pub open spec fn pace_outcome(
    response: Response,
    live_link: Seq<char>,
    stats_link: Seq<char>,
    author: serenity::builder::CreateEmbedAuthor,
    last_event: Event,
    guild: GuildData,
) -> OutcomeText {
    match run_info_of(last_event.event_id@) {
        None => OutcomeText::UnknownEvent,
        Some(info) => resolved_outcome(
            info,
            response,
            live_link,
            stats_link,
            author,
            last_event,
            guild,
        ),
    }
}

/// The runners of a community after an event: an event with a known marker
/// enters the runner in an open community that did not know the runner, and
/// nothing else changes.
pub open spec fn players_after_event(
    response: Response,
    last_event: Event,
    guild: GuildData,
) -> Map<Seq<char>, PlayerSplitsData> {
    match run_info_of(last_event.event_id@) {
        None => guild.players@,
        Some(_) => players_after(guild.players@, guild.is_private, response.nickname@),
    }
}

/// No tag of a group is empty.
pub proof fn lemma_qualifying_tags_nonempty(
    roles: Seq<RoleConfig>,
    is_private: bool,
    split: Split,
    nickname: Seq<char>,
    record: PlayerSplitsData,
    igt: nat,
)
    ensures
        forall|i: int|
            0 <= i < qualifying_tags(roles, is_private, split, nickname, record, igt).len() ==> (
            #[trigger] qualifying_tags(roles, is_private, split, nickname, record, igt)[i]).len()
                > 0,
    decreases roles.len(),
{
    let tags = qualifying_tags(roles, is_private, split, nickname, record, igt);
    if roles.len() > 0 {
        let before = qualifying_tags(roles.drop_last(), is_private, split, nickname, record, igt);
        lemma_qualifying_tags_nonempty(
            roles.drop_last(),
            is_private,
            split,
            nickname,
            record,
            igt,
        );
        lemma_decimal_nonempty(roles.last().guild_role.id as nat);
        assert forall|i: int| 0 <= i < tags.len() implies (#[trigger] tags[i]).len() > 0 by {
            if i < before.len() {
                assert(tags[i] == before[i]);
            } else {
                assert(tags[i] == crate::cache::guild_data::role_tag(roles.last().guild_role.id));
            }
        }
    }
}

/// The tags of the groups of a community that are notified of an event, in
/// the order of the groups.
pub fn roles_to_ping(
    roles: &Vec<RoleConfig>,
    is_private: bool,
    split: Split,
    nickname: &str,
    record: &PlayerSplitsData,
    igt: u64,
) -> (tags: Vec<String>)
    ensures
        texts_of(tags@) == qualifying_tags(
            roles@,
            is_private,
            split,
            nickname@,
            *record,
            igt as nat,
        ),
{
    let (minutes, seconds) = millis_to_mins_secs(igt);
    let nickname_key = nickname.to_lowercase();
    let mut tags: Vec<String> = Vec::new();
    let mut i: usize = 0;
    while i < roles.len()
        invariant
            i <= roles.len(),
            nickname_key@ == lowercase(nickname@),
            (minutes as nat, seconds as nat) == mins_secs(igt as nat),
            texts_of(tags@) == qualifying_tags(
                roles@.take(i as int),
                is_private,
                split,
                nickname@,
                *record,
                igt as nat,
            ),
        decreases roles.len() - i,
    {
        proof {
            assert(roles@.take(i + 1).drop_last() == roles@.take(i as int));
            assert(roles@.take(i + 1).last() == roles@[i as int]);
        }
        let ghost before = texts_of(tags@);
        let role = &roles[i];
        let runner_key = role.runner.as_str().to_lowercase();
        if kind_qualifies(
            role.kind(),
            role,
            &runner_key,
            is_private,
            split,
            &nickname_key,
            record,
            minutes,
            seconds,
        ) {
            let tag = role.guild_role.mention();
            tags.push(tag);
            proof {
                assert(texts_of(tags@) =~= before.push(tag@));
            }
        }
        i = i + 1;
    }
    proof {
        assert(roles@.take(roles.len() as int) == roles@);
    }
    tags
}

/// Decides what an event whose marker was resolved to `run_info` means for
/// one community, and composes the notification where one is due.
///
/// The runner is looked up first: an open community enters a runner that it
/// sees for the first time, a restricted one passes over a runner that was
/// not registered. Then come the description and the icon of the milestone,
/// and the groups that are notified; without any of these no notification
/// is made.
pub fn handle_run_info(
    run_info: RunInfo,
    response: &Response,
    live_link: String,
    stats_link: String,
    author: serenity::builder::CreateEmbedAuthor,
    last_event: &Event,
    guild_data: &mut GuildData,
) -> (outcome: PaceEventOutcome)
    ensures
        outcome@ == resolved_outcome(
            run_info,
            *response,
            live_link@,
            stats_link@,
            author,
            *last_event,
            *old(guild_data),
        ),
        outcome matches PaceEventOutcome::Notify(n) ==> n@.tags_nonempty() && n@.tags.len() > 0,
        final(guild_data).players@ == players_after(
            old(guild_data).players@,
            old(guild_data).is_private,
            response.nickname@,
        ),
        final(guild_data).name == old(guild_data).name,
        final(guild_data).pace_channel == old(guild_data).pace_channel,
        final(guild_data).is_private == old(guild_data).is_private,
        final(guild_data).roles == old(guild_data).roles,
        keys_lowercased(old(guild_data).players@) ==> keys_lowercased(final(guild_data).players@),
{
    let record = match guild_data.player_data(response.nickname.as_str()) {
        Some(record) => record,
        None => {
            return PaceEventOutcome::PlayerNotRegistered;
        },
    };
    let (desc, emoji) = match (
        run_info.split.desc(&run_info.structure),
        run_info.split.get_emoji(&run_info.structure),
    ) {
        (Some(desc), Some(emoji)) => (desc, emoji),
        _ => {
            return PaceEventOutcome::MissingSplitInfo;
        },
    };
    let tags = roles_to_ping(
        &guild_data.roles,
        guild_data.is_private,
        run_info.split,
        response.nickname.as_str(),
        &record,
        last_event.igt,
    );
    if tags.len() == 0 {
        return PaceEventOutcome::NoRolesToPing;
    }
    proof {
        lemma_qualifying_tags_nonempty(
            guild_data.roles@,
            guild_data.is_private,
            run_info.split,
            response.nickname@,
            record,
            last_event.igt as nat,
        );
    }
    let text = metadata(
        response.user.live_account.is_some(),
        last_event.igt,
        desc,
        response.nickname.as_str(),
    );
    let content = ping_content(text.as_str(), &tags);
    let fields = compose_fields(
        response,
        live_link.as_str(),
        stats_link.as_str(),
        last_event.igt,
        &run_info,
        desc,
        emoji,
    );
    PaceEventOutcome::Notify(
        Notification {
            channel: guild_data.pace_channel,
            author,
            content,
            fields,
            metadata: text,
            tags,
            stage: Stage::Composed,
        },
    )
}

/// Decides what an event means for one community, and composes the
/// notification where one is due.
///
/// The marker of the event is resolved first. An unknown marker ends the
/// matter: nothing is to be sent, and the community is left as it was. A
/// known one is handled as `handle_run_info` says.
pub fn handle_pace_event(
    response: &Response,
    live_link: String,
    stats_link: String,
    author: serenity::builder::CreateEmbedAuthor,
    last_event: &Event,
    guild_data: &mut GuildData,
) -> (outcome: PaceEventOutcome)
    ensures
        outcome@ == pace_outcome(
            *response,
            live_link@,
            stats_link@,
            author,
            *last_event,
            *old(guild_data),
        ),
        run_info_of(last_event.event_id@) is None ==> outcome@ == OutcomeText::UnknownEvent
            && final(guild_data).players@ == old(guild_data).players@,
        outcome matches PaceEventOutcome::Notify(n) ==> n@.tags_nonempty() && n@.tags.len() > 0,
        final(guild_data).players@ == players_after_event(
            *response,
            *last_event,
            *old(guild_data),
        ),
        final(guild_data).name == old(guild_data).name,
        final(guild_data).pace_channel == old(guild_data).pace_channel,
        final(guild_data).is_private == old(guild_data).is_private,
        final(guild_data).roles == old(guild_data).roles,
        keys_lowercased(old(guild_data).players@) ==> keys_lowercased(final(guild_data).players@),
{
    match get_run_info(last_event) {
        Some(run_info) => handle_run_info(
            run_info,
            response,
            live_link,
            stats_link,
            author,
            last_event,
            guild_data,
        ),
        None => PaceEventOutcome::UnknownEvent,
    }
}

} // verus!
