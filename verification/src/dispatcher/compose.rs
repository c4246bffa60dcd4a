//! The texts of a notification.

use vstd::prelude::*;
use vstd::string::StringExecFns;
use crate::cache::split::{Split, Structure};
use crate::dispatcher::consts::{
    LIVE_INDICATOR, OFFLINE_EMOJI, OFFLINE_INDICATOR, PEARL_EMOJI, ROD_EMOJI, SPECIAL_UNDERSCORE,
    TWITCH_EMOJI,
};
use crate::dispatcher::run_info::{RunInfo, RunType};
use crate::utils::format_time::{format_time, time_text};
use crate::utils::text::{chars_of, decimal, push_decimal, texts_of};
use crate::ws::response::{count_of, Item, ItemData, Response};

verus! {

/// One field of a structured message.
#[derive(Debug, Clone, PartialEq, Eq)]
pub struct EmbedField {
    pub name: String,
    pub value: String,
    pub inline: bool,
}

/// The texts of a field.
pub struct FieldText {
    pub name: Seq<char>,
    pub value: Seq<char>,
    pub inline: bool,
}

impl View for EmbedField {
    type V = FieldText;

    open spec fn view(&self) -> FieldText {
        FieldText { name: self.name@, value: self.value@, inline: self.inline }
    }
}

/// The texts of a list of fields.
pub open spec fn fields_text(fields: Seq<EmbedField>) -> Seq<FieldText> {
    fields.map_values(|f: EmbedField| f@)
}

/// A nickname as it is shown: every underscore gives way to the
/// substitute that the chat platform does not read as markup.
pub open spec fn display_name(nickname: Seq<char>) -> Seq<char>
    decreases nickname.len(),
{
    if nickname.len() == 0 {
        Seq::empty()
    } else if nickname.last() == '_' {
        display_name(nickname.drop_last()) + SPECIAL_UNDERSCORE@
    } else {
        display_name(nickname.drop_last()).push(nickname.last())
    }
}

/// The texts joined by single spaces.
pub open spec fn joined(texts: Seq<Seq<char>>) -> Seq<char>
    decreases texts.len(),
{
    if texts.len() == 0 {
        Seq::empty()
    } else if texts.len() == 1 {
        texts[0]
    } else {
        joined(texts.drop_last()) + " "@ + texts.last()
    }
}

/// The count that is shown for a kind of item: what the snapshot says, and
/// zero where there is no snapshot or the snapshot has no such entry.
pub open spec fn shown_count(item_data: Option<ItemData>, item: Item) -> u64 {
    match item_data {
        Some(data) => match count_of(data.estimated_counts@, item) {
            Some(count) => count,
            None => 0,
        },
        None => 0,
    }
}

/// Whether a count of zero blaze rods is known to be too low: at the second
/// structure of a run, when that structure is a bastion, the runner has
/// been through a fortress before.
pub open spec fn rods_undercounted(info: RunInfo) -> bool {
    info.structure == Some(Structure::Bastion) && info.split == Split::SecondStructure
}

/// The count of blaze rods as it is shown.
pub open spec fn rod_text(item_data: Option<ItemData>, info: RunInfo) -> Seq<char> {
    if item_data is Some && shown_count(item_data, Item::MinecraftBlazeRod) == 0
        && rods_undercounted(info) {
        "1+"@
    } else {
        decimal(shown_count(item_data, Item::MinecraftBlazeRod) as nat)
    }
}

/// A snapshot that counts no blaze rods shows `1+` at the second structure
/// when that structure is a bastion, and `0` everywhere else.
pub proof fn lemma_rod_text_of_no_rods(item_data: Option<ItemData>, info: RunInfo)
    requires
        item_data is Some,
        shown_count(item_data, Item::MinecraftBlazeRod) == 0,
    ensures
        rod_text(item_data, info) == if info.structure == Some(Structure::Bastion) && info.split
            == Split::SecondStructure {
            "1+"@
        } else {
            seq!['0']
        },
{
}

/// The summary of the tracked items: blaze rods, then ender pearls.
pub open spec fn items_text(item_data: Option<ItemData>, info: RunInfo) -> Seq<char> {
    ROD_EMOJI@ + " "@ + rod_text(item_data, info) + "  "@ + PEARL_EMOJI@ + " "@ + decimal(
        shown_count(item_data, Item::MinecraftEnderPearl) as nat,
    )
}

/// The line that sums an event up: whether the runner is live, the time,
/// the milestone and the runner.
pub open spec fn metadata_text(live: bool, igt: nat, desc: Seq<char>, nickname: Seq<char>) -> Seq<
    char,
> {
    (if live {
        LIVE_INDICATOR@
    } else {
        OFFLINE_INDICATOR@
    }) + " "@ + time_text(igt) + " - "@ + desc + " "@ + display_name(nickname)
}

/// The metadata line as it stands in a message, with the line break that
/// ends it.
pub open spec fn metadata_line(metadata: Seq<char>) -> Seq<char> {
    metadata + "\n"@
}

/// The content that notifies: the metadata line, and below it the tags.
pub open spec fn ping_text(metadata: Seq<char>, tags: Seq<Seq<char>>) -> Seq<char> {
    metadata_line(metadata) + joined(tags)
}

/// The title of a notification: the icon of the milestone, the time and the
/// milestone.
pub open spec fn pace_text(emoji: Seq<char>, igt: nat, desc: Seq<char>) -> Seq<char> {
    emoji + "  "@ + time_text(igt) + " - "@ + desc
}

/// The fields of a notification: the title, the live broadcast or its
/// absence, the link to the statistics, the time of the sample, the items,
/// and, for a run without a bastion, a note that says so.
pub open spec fn embed_fields(
    response: Response,
    live_link: Seq<char>,
    stats_link: Seq<char>,
    igt: nat,
    info: RunInfo,
    desc: Seq<char>,
    emoji: Seq<char>,
) -> Seq<FieldText> {
    let fields = seq![
        FieldText { name: pace_text(emoji, igt, desc), value: Seq::empty(), inline: false },
        FieldText {
            name: if response.user.live_account is Some {
                TWITCH_EMOJI@ + " "@ + live_link
            } else {
                OFFLINE_EMOJI@ + "  Offline"@
            },
            value: Seq::empty(),
            inline: false,
        },
        FieldText { name: "Splits"@, value: "[Link]("@ + stats_link + ")"@, inline: true },
        FieldText {
            name: "Time"@,
            value: "<t:"@ + decimal((response.last_updated / 1000) as nat) + ":R>"@,
            inline: true,
        },
        FieldText { name: "Items"@, value: items_text(response.item_data, info), inline: true },
    ];
    if info.run_type == RunType::Bastionless {
        fields.push(FieldText { name: "Bastionless"@, value: "Yes"@, inline: true })
    } else {
        fields
    }
}

/// The nickname with every underscore replaced by its substitute.
pub fn display_safe(nickname: &str) -> (r: String)
    ensures
        r@ == display_name(nickname@),
{
    let chars = chars_of(nickname);
    let mut r = String::new();
    let mut i: usize = 0;
    while i < chars.len()
        invariant
            i <= chars.len(),
            chars@ == nickname@,
            r@ == display_name(chars@.take(i as int)),
        decreases chars.len() - i,
    {
        proof {
            assert(chars@.take(i + 1).drop_last() == chars@.take(i as int));
        }
        if chars[i] == '_' {
            r.append(SPECIAL_UNDERSCORE);
        } else {
            r.push(chars[i]);
        }
        i = i + 1;
    }
    proof {
        assert(chars@.take(chars.len() as int) == chars@);
    }
    r
}

/// The tags joined by single spaces.
pub fn join_tags(tags: &Vec<String>) -> (r: String)
    ensures
        r@ == joined(texts_of(tags@)),
{
    let ghost texts = texts_of(tags@);
    let mut r = String::new();
    let mut i: usize = 0;
    while i < tags.len()
        invariant
            i <= tags.len(),
            texts == texts_of(tags@),
            r@ == joined(texts.take(i as int)),
        decreases tags.len() - i,
    {
        proof {
            assert(texts.take(i + 1).drop_last() == texts.take(i as int));
            assert(texts.take(i + 1).last() == tags@[i as int]@);
        }
        if i > 0 {
            r.append(" ");
        }
        r.append(tags[i].as_str());
        proof {
            if i == 0 {
                assert(r@ =~= tags@[0]@);
                assert(texts.take(1)[0] == tags@[0]@);
            }
        }
        i = i + 1;
    }
    proof {
        assert(texts.take(tags.len() as int) == texts);
    }
    r
}

/// The summary of the tracked items.
pub fn item_summary(item_data: &Option<ItemData>, info: &RunInfo) -> (r: String)
    ensures
        r@ == items_text(*item_data, *info),
{
    let mut rods: u64 = 0;
    let mut pearls: u64 = 0;
    let mut undercount = false;
    match item_data {
        Some(data) => {
            match data.get(Item::MinecraftBlazeRod) {
                Some(count) => {
                    rods = count;
                },
                None => {},
            }
            match data.get(Item::MinecraftEnderPearl) {
                Some(count) => {
                    pearls = count;
                },
                None => {},
            }
            let at_bastion = match info.structure {
                Some(Structure::Bastion) => true,
                _ => false,
            };
            undercount = rods == 0 && at_bastion && info.split == Split::SecondStructure;
        },
        None => {},
    }
    let mut r = String::from_str(ROD_EMOJI);
    r.append(" ");
    if undercount {
        r.append("1+");
    } else {
        push_decimal(&mut r, rods);
    }
    r.append("  ");
    r.append(PEARL_EMOJI);
    r.append(" ");
    push_decimal(&mut r, pearls);
    proof {
        assert(r@ =~= items_text(*item_data, *info));
    }
    r
}

/// The metadata line of an event, without the line break.
pub fn metadata(live: bool, igt: u64, desc: &str, nickname: &str) -> (r: String)
    ensures
        r@ == metadata_text(live, igt as nat, desc@, nickname@),
{
    let mut r = String::from_str(
        if live {
            LIVE_INDICATOR
        } else {
            OFFLINE_INDICATOR
        },
    );
    r.append(" ");
    r.append(format_time(igt).as_str());
    r.append(" - ");
    r.append(desc);
    r.append(" ");
    r.append(display_safe(nickname).as_str());
    proof {
        assert(r@ =~= metadata_text(live, igt as nat, desc@, nickname@));
    }
    r
}

/// The content that notifies.
pub fn ping_content(metadata: &str, tags: &Vec<String>) -> (r: String)
    ensures
        r@ == ping_text(metadata@, texts_of(tags@)),
{
    let mut r = String::from_str(metadata);
    r.append("\n");
    r.append(join_tags(tags).as_str());
    r
}

/// The fields of a notification.
pub fn compose_fields(
    response: &Response,
    live_link: &str,
    stats_link: &str,
    igt: u64,
    info: &RunInfo,
    desc: &str,
    emoji: &str,
) -> (fields: Vec<EmbedField>)
    ensures
        fields_text(fields@) == embed_fields(
            *response,
            live_link@,
            stats_link@,
            igt as nat,
            *info,
            desc@,
            emoji@,
        ),
{
    let mut title = String::from_str(emoji);
    title.append("  ");
    title.append(format_time(igt).as_str());
    title.append(" - ");
    title.append(desc);
    proof {
        assert(title@ =~= pace_text(emoji@, igt as nat, desc@));
    }

    let mut broadcast = String::new();
    if response.user.live_account.is_some() {
        broadcast.append(TWITCH_EMOJI);
        broadcast.append(" ");
        broadcast.append(live_link);
        proof {
            assert(broadcast@ =~= TWITCH_EMOJI@ + " "@ + live_link@);
        }
    } else {
        broadcast.append(OFFLINE_EMOJI);
        broadcast.append("  Offline");
        proof {
            assert(broadcast@ =~= OFFLINE_EMOJI@ + "  Offline"@);
        }
    }

    let mut link = String::from_str("[Link](");
    link.append(stats_link);
    link.append(")");

    let mut time = String::from_str("<t:");
    push_decimal(&mut time, response.last_updated / 1000);
    time.append(":R>");

    let mut fields: Vec<EmbedField> = Vec::new();
    fields.push(EmbedField { name: title, value: String::new(), inline: false });
    fields.push(EmbedField { name: broadcast, value: String::new(), inline: false });
    fields.push(EmbedField { name: String::from_str("Splits"), value: link, inline: true });
    fields.push(EmbedField { name: String::from_str("Time"), value: time, inline: true });
    fields.push(
        EmbedField {
            name: String::from_str("Items"),
            value: item_summary(&response.item_data, info),
            inline: true,
        },
    );
    match info.run_type {
        RunType::Bastionless => {
            fields.push(
                EmbedField {
                    name: String::from_str("Bastionless"),
                    value: String::from_str("Yes"),
                    inline: true,
                },
            );
        },
        RunType::Modern => {},
    }
    proof {
        assert(fields_text(fields@) =~= embed_fields(
            *response,
            live_link@,
            stats_link@,
            igt as nat,
            *info,
            desc@,
            emoji@,
        ));
    }
    fields
}

} // verus!
