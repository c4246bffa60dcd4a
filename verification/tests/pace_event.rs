use pace_ping::cache::guild_data::{GuildData, GuildRole, RoleConfig, RoleKind};
use pace_ping::cache::players::{PlayerSplitsData, Players};
use pace_ping::cache::split::{Split, Structure};
use pace_ping::dispatcher::get_run_info::get_run_info;
use pace_ping::dispatcher::notification::{DeliveryAction, DeliveryEvent, Notification, Stage};
use pace_ping::dispatcher::pace_event::{
    handle_pace_event, handle_run_info, roles_to_ping, OutcomeClass, PaceEventOutcome,
};
use pace_ping::dispatcher::run_info::{RunInfo, RunType};
use pace_ping::ws::response::{Event, Item, ItemCount, ItemData, Response, User};
use serenity::builder::CreateEmbedAuthor;
use serenity::model::id::ChannelId;

const LIVE: &str = "https://live.example/alex";
const STATS: &str = "https://stats.example/alex";

fn event(marker: &str, igt: u64) -> Event {
    Event { event_id: marker.to_string(), igt }
}

fn response(nickname: &str, live: bool, item_data: Option<ItemData>) -> Response {
    Response {
        nickname: nickname.to_string(),
        user: User { live_account: if live { Some("alex_live".to_string()) } else { None } },
        event_list: Vec::new(),
        item_data,
        last_updated: 1_700_000_123_456,
    }
}

fn role(id: u64, name: &str, split: Split, runner: &str, minutes: u64, seconds: u64) -> RoleConfig {
    RoleConfig {
        guild_role: GuildRole { id, name: name.to_string() },
        split,
        runner: runner.to_string(),
        minutes,
        seconds,
    }
}

fn guild(is_private: bool, roles: Vec<RoleConfig>) -> GuildData {
    GuildData {
        name: "Pacers".to_string(),
        pace_channel: ChannelId(77),
        is_private,
        players: Players::new(),
        roles,
    }
}

fn handle(
    response: &Response,
    last_event: &Event,
    guild_data: &mut GuildData,
) -> PaceEventOutcome {
    handle_pace_event(
        response,
        LIVE.to_string(),
        STATS.to_string(),
        CreateEmbedAuthor::default(),
        last_event,
        guild_data,
    )
}

fn notification(outcome: PaceEventOutcome) -> Notification {
    match outcome {
        PaceEventOutcome::Notify(n) => n,
        other => panic!("no notification: {:?}", other),
    }
}

fn rods(count: u64) -> Option<ItemData> {
    Some(ItemData {
        estimated_counts: vec![ItemCount { item: Item::MinecraftBlazeRod, count }],
    })
}

fn items_field(n: &Notification) -> String {
    n.fields[4].value.clone()
}

#[test]
fn unknown_marker_makes_no_notification() {
    let mut g = guild(false, vec![role(1, "SS 3:00", Split::SecondStructure, "", 3, 0)]);
    let outcome = handle(&response("Alex", false, None), &event("rsg.unheard_of", 1000), &mut g);
    assert!(matches!(outcome, PaceEventOutcome::UnknownEvent));
    assert!(g.players.get("Alex").is_none());
    assert_eq!(g.roles.len(), 1);
    assert!(get_run_info(&event("rsg.unheard_of", 1000)).is_none());
}

#[test]
fn unknown_markers_resolve_to_nothing() {
    for marker in [
        "",
        "rsg",
        "rsg.first_portal.",
        "rsg.first_portal.modern",
        "RSG.FIRST_PORTAL",
        " rsg.enter_end",
        "rsg.enter_end ",
        "rsg.second_structure",
        "rsg.credits",
    ] {
        assert_eq!(get_run_info(&event(marker, 0)), None);
    }
}

#[test]
fn known_markers_resolve_as_the_table_says() {
    let rows = [
        ("rsg.first_structure.bastion", Split::FirstStructure, Some(Structure::Bastion), RunType::Modern),
        ("rsg.first_structure.fortress", Split::FirstStructure, Some(Structure::Fortress), RunType::Modern),
        ("rsg.second_structure.bastion", Split::SecondStructure, Some(Structure::Bastion), RunType::Modern),
        ("rsg.second_structure.fortress", Split::SecondStructure, Some(Structure::Fortress), RunType::Modern),
        ("rsg.first_portal", Split::Blind, None, RunType::Modern),
        ("rsg.first_portal.bastionless", Split::Blind, None, RunType::Bastionless),
        ("rsg.enter_stronghold", Split::EyeSpy, None, RunType::Modern),
        ("rsg.enter_stronghold.bastionless", Split::EyeSpy, None, RunType::Bastionless),
        ("rsg.enter_end", Split::EndEnter, None, RunType::Modern),
        ("rsg.enter_end.bastionless", Split::EndEnter, None, RunType::Bastionless),
    ];
    for (marker, split, structure, run_type) in rows {
        assert_eq!(
            get_run_info(&event(marker, 7)),
            Some(RunInfo { split, structure, run_type })
        );
    }
}

#[test]
fn no_group_at_or_under_the_time_means_no_notification() {
    let mut g = guild(
        false,
        vec![
            role(10, "SS 2:04", Split::SecondStructure, "", 2, 4),
            role(11, "SS 1:59", Split::SecondStructure, "", 1, 59),
            role(12, "FS 9:00", Split::FirstStructure, "", 9, 0),
        ],
    );
    let outcome = handle(&response("Alex", false, None), &event("rsg.second_structure.bastion", 125_000), &mut g);
    assert!(matches!(outcome, PaceEventOutcome::NoRolesToPing));
}

#[test]
fn no_groups_at_all_means_no_notification() {
    let mut g = guild(false, Vec::new());
    let outcome = handle(&response("Alex", false, None), &event("rsg.second_structure.bastion", 125_000), &mut g);
    assert!(matches!(outcome, PaceEventOutcome::NoRolesToPing));
}

#[test]
fn general_group_is_pinged_then_cleaned() {
    let mut g = guild(false, vec![role(4242, "SS 2:10", Split::SecondStructure, "", 2, 10)]);
    let outcome = handle(&response("Alex", false, None), &event("rsg.second_structure.bastion", 125_000), &mut g);
    let mut n = notification(outcome);
    assert_eq!(n.stage, Stage::Composed);
    assert_eq!(n.channel, ChannelId(77));
    assert_eq!(n.tags, vec!["<@&4242>".to_string()]);
    assert_eq!(n.metadata, "\u{26AA} 2:05 - Enter Bastion Alex");
    assert_eq!(n.content, "\u{26AA} 2:05 - Enter Bastion Alex\n<@&4242>");
    let fields_before = n.fields.clone();

    assert_eq!(n.advance(DeliveryEvent::PostSucceeded), DeliveryAction::Edit);
    assert_eq!(n.stage, Stage::Posted);
    assert_eq!(n.content, "");
    assert_eq!(n.fields, fields_before);

    assert_eq!(n.advance(DeliveryEvent::EditSucceeded), DeliveryAction::Finish);
    assert_eq!(n.stage, Stage::Cleaned);
    assert_eq!(n.content, "");
    assert!(!n.content.contains("<@&4242>"));
    assert!(!n.content.contains("2:05"));
    assert_eq!(n.fields, fields_before);
}

#[test]
fn threshold_equal_to_the_time_qualifies() {
    let mut g = guild(false, vec![role(5, "SS 2:05", Split::SecondStructure, "", 2, 5)]);
    let outcome = handle(&response("Alex", false, None), &event("rsg.second_structure.bastion", 125_999), &mut g);
    assert_eq!(notification(outcome).tags, vec!["<@&5>".to_string()]);
}

#[test]
fn threshold_one_second_under_the_time_does_not_qualify() {
    let mut g = guild(false, vec![role(5, "SS 2:05", Split::SecondStructure, "", 2, 5)]);
    let outcome = handle(&response("Alex", false, None), &event("rsg.second_structure.bastion", 126_000), &mut g);
    assert!(matches!(outcome, PaceEventOutcome::NoRolesToPing));
}

#[test]
fn more_minutes_in_threshold_qualify_whatever_the_seconds() {
    let mut g = guild(false, vec![role(5, "SS 3:00", Split::SecondStructure, "", 3, 0)]);
    let outcome = handle(&response("Alex", false, None), &event("rsg.second_structure.bastion", 179_000), &mut g);
    assert_eq!(notification(outcome).tags.len(), 1);
}

#[test]
fn fields_of_an_offline_runner() {
    let mut g = guild(false, vec![role(4242, "SS 2:10", Split::SecondStructure, "", 2, 10)]);
    let outcome = handle(&response("Alex", false, None), &event("rsg.second_structure.bastion", 125_000), &mut g);
    let n = notification(outcome);
    assert_eq!(n.fields.len(), 5);
    assert_eq!(n.fields[0].name, "\u{1F3F0}  2:05 - Enter Bastion");
    assert_eq!(n.fields[0].value, "");
    assert!(!n.fields[0].inline);
    assert_eq!(n.fields[1].name, "\u{1F4A4}  Offline");
    assert_eq!(n.fields[1].value, "");
    assert!(!n.fields[1].inline);
    assert_eq!(n.fields[2].name, "Splits");
    assert_eq!(n.fields[2].value, "[Link](https://stats.example/alex)");
    assert!(n.fields[2].inline);
    assert_eq!(n.fields[3].name, "Time");
    assert_eq!(n.fields[3].value, "<t:1700000123:R>");
    assert!(n.fields[3].inline);
    assert_eq!(n.fields[4].name, "Items");
    assert_eq!(n.fields[4].value, "\u{1F525} 0  \u{1F52E} 0");
    assert!(n.fields[4].inline);
}

#[test]
fn fields_of_a_live_bastionless_runner() {
    let mut g = guild(false, vec![role(3, "Blind 4:00", Split::Blind, "", 4, 0)]);
    let items = Some(ItemData {
        estimated_counts: vec![
            ItemCount { item: Item::MinecraftObsidian, count: 10 },
            ItemCount { item: Item::MinecraftEnderPearl, count: 12 },
            ItemCount { item: Item::MinecraftBlazeRod, count: 7 },
            ItemCount { item: Item::MinecraftBlazeRod, count: 9 },
        ],
    });
    let outcome =
        handle(&response("Alex", true, items), &event("rsg.first_portal.bastionless", 200_000), &mut g);
    let n = notification(outcome);
    assert_eq!(n.metadata, "\u{1F534} 3:20 - First Portal Alex");
    assert_eq!(n.fields.len(), 6);
    assert_eq!(n.fields[0].name, "\u{1F300}  3:20 - First Portal");
    assert_eq!(n.fields[1].name, "\u{1F4FA} https://live.example/alex");
    assert_eq!(n.fields[4].value, "\u{1F525} 7  \u{1F52E} 12");
    assert_eq!(n.fields[5].name, "Bastionless");
    assert_eq!(n.fields[5].value, "Yes");
    assert!(n.fields[5].inline);
}

#[test]
fn zero_rods_at_second_structure_bastion_show_as_one_or_more() {
    let mut g = guild(false, vec![role(1, "SS", Split::SecondStructure, "", 9, 0)]);
    let outcome =
        handle(&response("Alex", false, rods(0)), &event("rsg.second_structure.bastion", 125_000), &mut g);
    assert_eq!(items_field(&notification(outcome)), "\u{1F525} 1+  \u{1F52E} 0");
}

#[test]
fn zero_rods_at_any_other_split_show_as_zero() {
    let roles = vec![
        role(1, "FS", Split::FirstStructure, "", 9, 0),
        role(2, "Blind", Split::Blind, "", 9, 0),
        role(3, "Stronghold", Split::EyeSpy, "", 9, 0),
        role(4, "End", Split::EndEnter, "", 9, 0),
    ];
    for marker in ["rsg.first_structure.bastion", "rsg.first_portal", "rsg.enter_stronghold", "rsg.enter_end"] {
        let mut g = guild(false, roles.clone());
        let outcome = handle(&response("Alex", false, rods(0)), &event(marker, 125_000), &mut g);
        assert_eq!(items_field(&notification(outcome)), "\u{1F525} 0  \u{1F52E} 0");
    }
}

#[test]
fn zero_rods_at_second_structure_fortress_show_as_zero() {
    let mut g = guild(false, vec![role(1, "SS", Split::SecondStructure, "", 9, 0)]);
    let outcome =
        handle(&response("Alex", false, rods(0)), &event("rsg.second_structure.fortress", 125_000), &mut g);
    assert_eq!(items_field(&notification(outcome)), "\u{1F525} 0  \u{1F52E} 0");
}

#[test]
fn some_rods_at_second_structure_bastion_show_as_counted() {
    let mut g = guild(false, vec![role(1, "SS", Split::SecondStructure, "", 9, 0)]);
    let outcome =
        handle(&response("Alex", false, rods(3)), &event("rsg.second_structure.bastion", 125_000), &mut g);
    assert_eq!(items_field(&notification(outcome)), "\u{1F525} 3  \u{1F52E} 0");
}

#[test]
fn snapshot_without_rods_at_second_structure_bastion_shows_one_or_more() {
    let mut g = guild(false, vec![role(1, "SS", Split::SecondStructure, "", 9, 0)]);
    let items = Some(ItemData {
        estimated_counts: vec![ItemCount { item: Item::MinecraftEnderPearl, count: 2 }],
    });
    let outcome = handle(&response("Alex", false, items), &event("rsg.second_structure.bastion", 125_000), &mut g);
    assert_eq!(items_field(&notification(outcome)), "\u{1F525} 1+  \u{1F52E} 2");
}

#[test]
fn no_snapshot_at_second_structure_bastion_shows_zero() {
    let mut g = guild(false, vec![role(1, "SS", Split::SecondStructure, "", 9, 0)]);
    let outcome = handle(&response("Alex", false, None), &event("rsg.second_structure.bastion", 125_000), &mut g);
    assert_eq!(items_field(&notification(outcome)), "\u{1F525} 0  \u{1F52E} 0");
}

#[test]
fn nickname_is_stored_under_its_lowercase_form() {
    let mut g = guild(false, vec![role(8, "+Foo", Split::Blind, "FOO_BAR", 5, 0)]);
    let outcome = handle(&response("Foo_Bar", false, None), &event("rsg.first_portal", 100_000), &mut g);
    let n = notification(outcome);
    assert_eq!(n.tags, vec!["<@&8>".to_string()]);
    assert_eq!(n.metadata, "\u{26AA} 1:40 - First Portal Foo\\_Bar");
    assert_eq!(g.players.get("foo_bar"), Some(PlayerSplitsData::default()));
    assert_eq!(g.players.get("FOO_BAR"), Some(PlayerSplitsData::default()));
    assert_eq!(g.players.get("Foo_Bar"), Some(PlayerSplitsData::default()));
    assert_eq!(g.players.get("foo-bar"), None);
}

#[test]
fn runner_group_passes_over_other_runners() {
    let mut g = guild(false, vec![role(8, "+Foo", Split::Blind, "FOO_BAR", 5, 0)]);
    let outcome = handle(&response("Foo_Baz", false, None), &event("rsg.first_portal", 100_000), &mut g);
    assert!(matches!(outcome, PaceEventOutcome::NoRolesToPing));
}

#[test]
fn open_community_enters_a_new_runner_even_without_a_group() {
    let mut g = guild(false, Vec::new());
    assert_eq!(g.players.get("alex"), None);
    let outcome = handle(&response("Alex", false, None), &event("rsg.first_portal", 100_000), &mut g);
    assert!(matches!(outcome, PaceEventOutcome::NoRolesToPing));
    assert_eq!(g.players.get("alex"), Some(PlayerSplitsData::default()));
}

#[test]
fn known_runner_keeps_the_record() {
    let mut g = guild(false, Vec::new());
    let mut record = PlayerSplitsData::default();
    record.set(Split::Blind, 4, 30);
    g.players.insert("ALEX", record);
    let outcome = handle(&response("Alex", false, None), &event("rsg.first_portal", 100_000), &mut g);
    assert!(matches!(outcome, PaceEventOutcome::NoRolesToPing));
    assert_eq!(g.players.get("alex"), Some(record));
}

#[test]
fn restricted_community_passes_over_an_unregistered_runner() {
    let mut g = guild(true, vec![role(1, "Blind 9:00", Split::Blind, "", 9, 0)]);
    let outcome = handle(&response("Alex", false, None), &event("rsg.first_portal", 100_000), &mut g);
    assert!(matches!(outcome, PaceEventOutcome::PlayerNotRegistered));
    assert_eq!(g.players.get("alex"), None);
}

#[test]
fn restricted_community_takes_a_registered_runner() {
    let mut g = guild(true, vec![role(1, "Blind 9:00", Split::Blind, "", 9, 0)]);
    g.players.insert("alex", PlayerSplitsData::default());
    let outcome = handle(&response("ALEX", false, None), &event("rsg.first_portal", 100_000), &mut g);
    assert_eq!(notification(outcome).tags, vec!["<@&1>".to_string()]);
}

#[test]
fn structure_milestone_without_structure_has_no_description() {
    for split in [Split::FirstStructure, Split::SecondStructure] {
        let mut g = guild(false, vec![role(1, "any", split, "", 9, 0)]);
        let outcome = handle_run_info(
            RunInfo { split, structure: None, run_type: RunType::Modern },
            &response("Alex", false, None),
            LIVE.to_string(),
            STATS.to_string(),
            CreateEmbedAuthor::default(),
            &event("rsg.first_portal", 1000),
            &mut g,
        );
        assert!(matches!(outcome, PaceEventOutcome::MissingSplitInfo));
        assert_eq!(g.players.get("alex"), Some(PlayerSplitsData::default()));
    }
}

#[test]
fn resolved_event_is_handled_by_its_run_info() {
    let mut g = guild(false, vec![role(1, "EE", Split::EndEnter, "", 9, 0)]);
    let outcome = handle_run_info(
        RunInfo { split: Split::EndEnter, structure: None, run_type: RunType::Bastionless },
        &response("Alex", false, None),
        LIVE.to_string(),
        STATS.to_string(),
        CreateEmbedAuthor::default(),
        &event("whatever", 61_000),
        &mut g,
    );
    let n = notification(outcome);
    assert_eq!(n.content, "\u{26AA} 1:01 - Enter End Alex\n<@&1>");
    assert_eq!(n.fields.len(), 6);
}

#[test]
fn personal_best_group_never_matches_in_an_open_community() {
    let mut g = guild(false, vec![role(1, "PB Blind", Split::Blind, "", 0, 0)]);
    let mut record = PlayerSplitsData::default();
    record.set(Split::Blind, 10, 0);
    g.players.insert("alex", record);
    let outcome = handle(&response("Alex", false, None), &event("rsg.first_portal", 100_000), &mut g);
    assert!(matches!(outcome, PaceEventOutcome::NoRolesToPing));
}

#[test]
fn personal_best_group_matches_ahead_of_the_best_in_a_restricted_community() {
    let mut g = guild(true, vec![role(1, "PB Blind", Split::Blind, "", 0, 0)]);
    let mut record = PlayerSplitsData::default();
    record.set(Split::Blind, 2, 0);
    g.players.insert("alex", record);
    let outcome = handle(&response("Alex", false, None), &event("rsg.first_portal", 100_000), &mut g);
    assert_eq!(notification(outcome).tags, vec!["<@&1>".to_string()]);
}

#[test]
fn personal_best_group_compares_minutes_only() {
    let mut g = guild(true, vec![role(1, "PB Blind", Split::Blind, "", 0, 0)]);
    let mut record = PlayerSplitsData::default();
    record.set(Split::Blind, 1, 59);
    g.players.insert("alex", record);
    let outcome = handle(&response("Alex", false, None), &event("rsg.first_portal", 100_000), &mut g);
    assert!(matches!(outcome, PaceEventOutcome::NoRolesToPing));
}

#[test]
fn personal_best_group_is_about_its_own_milestone() {
    let mut g = guild(true, vec![role(1, "PB End", Split::EndEnter, "", 0, 0)]);
    let mut record = PlayerSplitsData::default();
    record.set(Split::Blind, 9, 0);
    record.set(Split::EndEnter, 9, 0);
    g.players.insert("alex", record);
    let outcome = handle(&response("Alex", false, None), &event("rsg.first_portal", 100_000), &mut g);
    assert!(matches!(outcome, PaceEventOutcome::NoRolesToPing));
}

#[test]
fn role_kinds_go_by_the_name() {
    assert_eq!(role(1, "PB Blind", Split::Blind, "", 0, 0).kind(), RoleKind::PersonalBest);
    assert_eq!(role(1, "+PB", Split::Blind, "", 0, 0).kind(), RoleKind::PersonalBest);
    assert_eq!(role(1, "Blind+Alex", Split::Blind, "", 0, 0).kind(), RoleKind::Runner);
    assert_eq!(role(1, "+", Split::Blind, "", 0, 0).kind(), RoleKind::Runner);
    assert_eq!(role(1, "Blind 3:00", Split::Blind, "", 0, 0).kind(), RoleKind::General);
    assert_eq!(role(1, "", Split::Blind, "", 0, 0).kind(), RoleKind::General);
    assert_eq!(role(1, "P B", Split::Blind, "", 0, 0).kind(), RoleKind::General);
    assert_eq!(role(1, "pb", Split::Blind, "", 0, 0).kind(), RoleKind::General);
}

#[test]
fn tags_follow_the_order_of_the_groups() {
    let roles = vec![
        role(30, "Blind 5:00", Split::Blind, "", 5, 0),
        role(10, "Blind 1:00", Split::Blind, "", 1, 0),
        role(20, "Blind+Alex", Split::Blind, "alex", 2, 0),
        role(40, "End 9:00", Split::EndEnter, "", 9, 0),
        role(18446744073709551615, "Blind 1:40", Split::Blind, "", 1, 40),
    ];
    let tags = roles_to_ping(
        &roles,
        false,
        Split::Blind,
        "Alex",
        &PlayerSplitsData::default(),
        100_000,
    );
    assert_eq!(
        tags,
        vec![
            "<@&30>".to_string(),
            "<@&20>".to_string(),
            "<@&18446744073709551615>".to_string()
        ]
    );
    let mut g = guild(false, roles);
    let n = notification(handle(
        &response("Alex", false, None),
        &event("rsg.first_portal", 100_000),
        &mut g,
    ));
    assert_eq!(
        n.content,
        "\u{26AA} 1:40 - First Portal Alex\n<@&30> <@&20> <@&18446744073709551615>"
    );
}

#[test]
fn earlier_time_keeps_every_match() {
    let roles = vec![
        role(1, "Blind 3:30", Split::Blind, "", 3, 30),
        role(2, "Blind+Alex", Split::Blind, "ALEX", 3, 0),
        role(3, "Blind 2:59", Split::Blind, "", 2, 59),
    ];
    let record = PlayerSplitsData::default();
    let mut before = 3;
    for igt in [0u64, 59_999, 179_000, 179_999, 180_000, 180_999, 181_000, 210_999, 211_000] {
        let tags = roles_to_ping(&roles, false, Split::Blind, "alex", &record, igt);
        assert!(tags.len() <= before);
        before = tags.len();
    }
    assert_eq!(before, 0);
    assert_eq!(roles_to_ping(&roles, false, Split::Blind, "alex", &record, 179_999).len(), 3);
    assert_eq!(roles_to_ping(&roles, false, Split::Blind, "alex", &record, 180_999).len(), 2);
    assert_eq!(roles_to_ping(&roles, false, Split::Blind, "alex", &record, 210_999).len(), 1);
}

#[test]
fn cleaning_takes_tags_out_of_the_metadata_too() {
    let mut g = guild(
        false,
        vec![role(1, "Blind", Split::Blind, "", 9, 0), role(2, "Blind too", Split::Blind, "", 9, 0)],
    );
    let outcome =
        handle(&response("<@&<@&2>1>", false, None), &event("rsg.first_portal", 100_000), &mut g);
    let mut n = notification(outcome);
    assert_eq!(n.content, "\u{26AA} 1:40 - First Portal <@&<@&2>1>\n<@&1> <@&2>");
    let line = format!("{}\n", n.metadata);
    assert_eq!(n.advance(DeliveryEvent::PostSucceeded), DeliveryAction::Edit);
    assert_eq!(n.advance(DeliveryEvent::EditSucceeded), DeliveryAction::Finish);
    assert!(!n.content.contains("<@&1>"));
    assert!(!n.content.contains("<@&2>"));
    assert!(!n.content.contains(&line));
    assert_eq!(n.content, "\u{26AA} 1:40 - First Portal \n ");
}

#[test]
fn cleaning_leaves_the_spaces_between_the_tags() {
    let mut g = guild(
        false,
        vec![
            role(1, "Blind", Split::Blind, "", 9, 0),
            role(2, "Blind too", Split::Blind, "", 9, 0),
            role(1, "Blind again", Split::Blind, "", 9, 0),
        ],
    );
    let n = notification(handle(&response("Al_ex", true, None), &event("rsg.first_portal", 100_000), &mut g));
    assert_eq!(n.content, "\u{1F534} 1:40 - First Portal Al\\_ex\n<@&1> <@&2> <@&1>");
    assert_eq!(n.cleaned_content(), "  ");
}

#[test]
fn failed_post_is_reported_and_changes_nothing() {
    let mut g = guild(false, vec![role(1, "Blind", Split::Blind, "", 9, 0)]);
    let mut n = notification(handle(&response("Alex", false, None), &event("rsg.first_portal", 1), &mut g));
    let content = n.content.clone();
    assert_eq!(n.advance(DeliveryEvent::PostFailed), DeliveryAction::ReportPostFailure);
    assert_eq!(n.stage, Stage::Composed);
    assert_eq!(n.content, content);
}

#[test]
fn failed_edit_is_reported_and_changes_nothing() {
    let mut g = guild(false, vec![role(1, "Blind", Split::Blind, "", 9, 0)]);
    let mut n = notification(handle(&response("Alex", false, None), &event("rsg.first_portal", 1), &mut g));
    assert_eq!(n.advance(DeliveryEvent::PostSucceeded), DeliveryAction::Edit);
    let content = n.content.clone();
    assert_eq!(n.advance(DeliveryEvent::EditFailed), DeliveryAction::ReportEditFailure);
    assert_eq!(n.stage, Stage::Posted);
    assert_eq!(n.content, content);
}

#[test]
fn answers_out_of_turn_are_ignored() {
    let mut g = guild(false, vec![role(1, "Blind", Split::Blind, "", 9, 0)]);
    let mut n = notification(handle(&response("Alex", false, None), &event("rsg.first_portal", 1), &mut g));
    let content = n.content.clone();
    assert_eq!(n.advance(DeliveryEvent::EditSucceeded), DeliveryAction::Ignore);
    assert_eq!(n.advance(DeliveryEvent::EditFailed), DeliveryAction::Ignore);
    assert_eq!(n.stage, Stage::Composed);
    assert_eq!(n.content, content);
    assert_eq!(n.advance(DeliveryEvent::PostSucceeded), DeliveryAction::Edit);
    assert_eq!(n.advance(DeliveryEvent::PostSucceeded), DeliveryAction::Ignore);
    assert_eq!(n.advance(DeliveryEvent::PostFailed), DeliveryAction::Ignore);
    assert_eq!(n.stage, Stage::Posted);
    assert_eq!(n.advance(DeliveryEvent::EditSucceeded), DeliveryAction::Finish);
    for event in [
        DeliveryEvent::PostSucceeded,
        DeliveryEvent::PostFailed,
        DeliveryEvent::EditSucceeded,
        DeliveryEvent::EditFailed,
    ] {
        assert_eq!(n.advance(event), DeliveryAction::Ignore);
        assert_eq!(n.stage, Stage::Cleaned);
    }
}

#[test]
fn outcomes_are_errors_notes_or_notifications() {
    assert_eq!(PaceEventOutcome::UnknownEvent.class(), OutcomeClass::UnresolvedData);
    assert_eq!(PaceEventOutcome::MissingSplitInfo.class(), OutcomeClass::UnresolvedData);
    assert_eq!(PaceEventOutcome::PlayerNotRegistered.class(), OutcomeClass::PolicySkip);
    assert_eq!(PaceEventOutcome::NoRolesToPing.class(), OutcomeClass::PolicySkip);
    let mut g = guild(false, vec![role(1, "Blind", Split::Blind, "", 9, 0)]);
    let outcome = handle(&response("Alex", false, None), &event("rsg.first_portal", 1), &mut g);
    assert_eq!(outcome.class(), OutcomeClass::Notification);
    let unknown = handle(&response("Alex", false, None), &event("rsg.credits", 1), &mut g);
    assert_eq!(unknown.class(), OutcomeClass::UnresolvedData);
}
