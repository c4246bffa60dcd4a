//! Which subscriber groups an event qualifies for.

use vstd::prelude::*;
use crate::cache::guild_data::{role_kind, role_tag, RoleConfig, RoleKind};
use crate::cache::players::PlayerSplitsData;
use crate::cache::split::Split;
use crate::utils::millis_to_mins_secs::{
    lemma_mins_secs_monotonic, millis_to_mins_secs, mins_secs,
};
use crate::utils::text::lowercase;

verus! {

/// A time of `minutes` and `seconds` is at or under the threshold of the
/// role.
pub open spec fn at_or_under(role: RoleConfig, minutes: nat, seconds: nat) -> bool {
    role.minutes > minutes || (role.minutes == minutes && role.seconds >= seconds)
}

/// Whether a group is notified of an event: `split` is the milestone that
/// the event reached, `nickname` the runner, `record` what the community
/// knows of the runner, and `igt` the in-game time in milliseconds.
///
/// A personal-best group is notified only in a restricted community, of its
/// own milestone, while the recorded best has more minutes than the event.
/// A group for one runner is notified of its own milestone and its own
/// runner, whatever the case of the name, at or under its threshold. A
/// general group is notified of its own milestone at or under its threshold.
pub open spec fn qualifies(
    role: RoleConfig,
    is_private: bool,
    split: Split,
    nickname: Seq<char>,
    record: PlayerSplitsData,
    igt: nat,
) -> bool {
    let minutes = mins_secs(igt).0;
    let seconds = mins_secs(igt).1;
    match role_kind(role.guild_role.name@) {
        RoleKind::PersonalBest => is_private && role.split == split && record.best(
            role.split,
        ).minutes > minutes,
        RoleKind::Runner => role.split == split && lowercase(role.runner@) == lowercase(nickname)
            && at_or_under(role, minutes, seconds),
        RoleKind::General => role.split == split && at_or_under(role, minutes, seconds),
    }
}

/// The tags of the groups that are notified of an event, in the order of
/// the groups.
pub open spec fn qualifying_tags(
    roles: Seq<RoleConfig>,
    is_private: bool,
    split: Split,
    nickname: Seq<char>,
    record: PlayerSplitsData,
    igt: nat,
) -> Seq<Seq<char>>
    decreases roles.len(),
{
    if roles.len() == 0 {
        Seq::empty()
    } else {
        let before = qualifying_tags(roles.drop_last(), is_private, split, nickname, record, igt);
        if qualifies(roles.last(), is_private, split, nickname, record, igt) {
            before.push(role_tag(roles.last().guild_role.id))
        } else {
            before
        }
    }
}

/// Whether a group is notified of an event, by what was worked out of the
/// group and of the event: `kind` is the kind of the group, `runner_key` the
/// lowercase form of the runner it is restricted to, `nickname_key` the
/// lowercase form of the nickname of the event, `minutes` and `seconds` the
/// in-game time of the event.
pub fn kind_qualifies(
    kind: RoleKind,
    role: &RoleConfig,
    runner_key: &String,
    is_private: bool,
    split: Split,
    nickname_key: &String,
    record: &PlayerSplitsData,
    minutes: u64,
    seconds: u64,
) -> (r: bool)
    ensures
        r == match kind {
            RoleKind::PersonalBest => is_private && role.split == split && record.best(
                role.split,
            ).minutes > minutes,
            RoleKind::Runner => role.split == split && runner_key@ == nickname_key@ && at_or_under(
                *role,
                minutes as nat,
                seconds as nat,
            ),
            RoleKind::General => role.split == split && at_or_under(
                *role,
                minutes as nat,
                seconds as nat,
            ),
        },
{
    let under = role.minutes > minutes || (role.minutes == minutes && role.seconds >= seconds);
    match kind {
        RoleKind::PersonalBest => {
            is_private && role.split == split && record.get(&role.split).minutes > minutes
        },
        RoleKind::Runner => role.split == split && *runner_key == *nickname_key && under,
        RoleKind::General => role.split == split && under,
    }
}

/// Whether the group is notified of an event of the runner `nickname` that
/// reached `split` at the in-game time `igt`, in milliseconds.
pub fn role_qualifies(
    role: &RoleConfig,
    is_private: bool,
    split: Split,
    nickname: &str,
    record: &PlayerSplitsData,
    igt: u64,
) -> (r: bool)
    ensures
        r == qualifies(*role, is_private, split, nickname@, *record, igt as nat),
{
    let (minutes, seconds) = millis_to_mins_secs(igt);
    let runner_key = role.runner.as_str().to_lowercase();
    let nickname_key = nickname.to_lowercase();
    kind_qualifies(
        role.kind(),
        role,
        &runner_key,
        is_private,
        split,
        &nickname_key,
        record,
        minutes,
        seconds,
    )
}

/// A group of the personal-best kind is never notified in a community that
/// is open to every runner, whatever the community knows of the runner.
pub proof fn lemma_personal_best_needs_private(
    role: RoleConfig,
    split: Split,
    nickname: Seq<char>,
    record: PlayerSplitsData,
    igt: nat,
)
    requires
        role_kind(role.guild_role.name@) == RoleKind::PersonalBest,
    ensures
        !qualifies(role, false, split, nickname, record, igt),
{
}

/// A group that is not of the personal-best kind keeps nothing in mind:
/// whether it is notified of an event depends neither on what the community
/// knows of the runner nor on whether the community is restricted.
pub proof fn lemma_threshold_groups_stateless(
    role: RoleConfig,
    split: Split,
    nickname: Seq<char>,
    igt: nat,
    is_private: bool,
    record: PlayerSplitsData,
    other_private: bool,
    other_record: PlayerSplitsData,
)
    requires
        role_kind(role.guild_role.name@) != RoleKind::PersonalBest,
    ensures
        qualifies(role, is_private, split, nickname, record, igt) == qualifies(
            role,
            other_private,
            split,
            nickname,
            other_record,
            igt,
        ),
{
}

/// For a group that is not of the personal-best kind, with its threshold
/// held fixed: an earlier time keeps every match of a later one, and a
/// later time adds none to those of an earlier one.
pub proof fn lemma_threshold_monotonic(
    role: RoleConfig,
    is_private: bool,
    split: Split,
    nickname: Seq<char>,
    record: PlayerSplitsData,
    earlier: nat,
    later: nat,
)
    requires
        role_kind(role.guild_role.name@) != RoleKind::PersonalBest,
        earlier <= later,
    ensures
        qualifies(role, is_private, split, nickname, record, later) ==> qualifies(
            role,
            is_private,
            split,
            nickname,
            record,
            earlier,
        ),
        !qualifies(role, is_private, split, nickname, record, earlier) ==> !qualifies(
            role,
            is_private,
            split,
            nickname,
            record,
            later,
        ),
{
    lemma_mins_secs_monotonic(earlier, later);
}

} // verus!
