//! The reference table from the markers of the feed to what they say of a
//! run.
//!
//! | marker                             | milestone        | structure | run type    |
//! |------------------------------------|------------------|-----------|-------------|
//! | `rsg.first_structure.bastion`      | first structure  | bastion   | modern      |
//! | `rsg.first_structure.fortress`     | first structure  | fortress  | modern      |
//! | `rsg.second_structure.bastion`     | second structure | bastion   | modern      |
//! | `rsg.second_structure.fortress`    | second structure | fortress  | modern      |
//! | `rsg.first_portal`                 | blind            |           | modern      |
//! | `rsg.first_portal.bastionless`     | blind            |           | bastionless |
//! | `rsg.enter_stronghold`             | eye spy          |           | modern      |
//! | `rsg.enter_stronghold.bastionless` | eye spy          |           | bastionless |
//! | `rsg.enter_end`                    | end enter        |           | modern      |
//! | `rsg.enter_end.bastionless`        | end enter        |           | bastionless |

use vstd::prelude::*;
use crate::cache::split::{Split, Structure};
use crate::dispatcher::run_info::{RunInfo, RunType};
use crate::utils::text::{chars_of, same_text};
use crate::ws::response::Event;

verus! {

/// What a marker says of a run. A marker that the table does not hold says
/// nothing.
pub open spec fn run_info_of(event_id: Seq<char>) -> Option<RunInfo> {
    if event_id == "rsg.first_structure.bastion"@ {
        Some(
            RunInfo {
                split: Split::FirstStructure,
                structure: Some(Structure::Bastion),
                run_type: RunType::Modern,
            },
        )
    } else if event_id == "rsg.first_structure.fortress"@ {
        Some(
            RunInfo {
                split: Split::FirstStructure,
                structure: Some(Structure::Fortress),
                run_type: RunType::Modern,
            },
        )
    } else if event_id == "rsg.second_structure.bastion"@ {
        Some(
            RunInfo {
                split: Split::SecondStructure,
                structure: Some(Structure::Bastion),
                run_type: RunType::Modern,
            },
        )
    } else if event_id == "rsg.second_structure.fortress"@ {
        Some(
            RunInfo {
                split: Split::SecondStructure,
                structure: Some(Structure::Fortress),
                run_type: RunType::Modern,
            },
        )
    } else if event_id == "rsg.first_portal"@ {
        Some(RunInfo { split: Split::Blind, structure: None, run_type: RunType::Modern })
    } else if event_id == "rsg.first_portal.bastionless"@ {
        Some(RunInfo { split: Split::Blind, structure: None, run_type: RunType::Bastionless })
    } else if event_id == "rsg.enter_stronghold"@ {
        Some(RunInfo { split: Split::EyeSpy, structure: None, run_type: RunType::Modern })
    } else if event_id == "rsg.enter_stronghold.bastionless"@ {
        Some(RunInfo { split: Split::EyeSpy, structure: None, run_type: RunType::Bastionless })
    } else if event_id == "rsg.enter_end"@ {
        Some(RunInfo { split: Split::EndEnter, structure: None, run_type: RunType::Modern })
    } else if event_id == "rsg.enter_end.bastionless"@ {
        Some(RunInfo { split: Split::EndEnter, structure: None, run_type: RunType::Bastionless })
    } else {
        None
    }
}

/// Resolves the marker of an event. An unknown marker resolves to nothing.
pub fn get_run_info(last_event: &Event) -> (r: Option<RunInfo>)
    ensures
        r == run_info_of(last_event.event_id@),
{
    let id = chars_of(last_event.event_id.as_str());
    if same_text(&id, "rsg.first_structure.bastion") {
        Some(
            RunInfo {
                split: Split::FirstStructure,
                structure: Some(Structure::Bastion),
                run_type: RunType::Modern,
            },
        )
    } else if same_text(&id, "rsg.first_structure.fortress") {
        Some(
            RunInfo {
                split: Split::FirstStructure,
                structure: Some(Structure::Fortress),
                run_type: RunType::Modern,
            },
        )
    } else if same_text(&id, "rsg.second_structure.bastion") {
        Some(
            RunInfo {
                split: Split::SecondStructure,
                structure: Some(Structure::Bastion),
                run_type: RunType::Modern,
            },
        )
    } else if same_text(&id, "rsg.second_structure.fortress") {
        Some(
            RunInfo {
                split: Split::SecondStructure,
                structure: Some(Structure::Fortress),
                run_type: RunType::Modern,
            },
        )
    } else if same_text(&id, "rsg.first_portal") {
        Some(RunInfo { split: Split::Blind, structure: None, run_type: RunType::Modern })
    } else if same_text(&id, "rsg.first_portal.bastionless") {
        Some(RunInfo { split: Split::Blind, structure: None, run_type: RunType::Bastionless })
    } else if same_text(&id, "rsg.enter_stronghold") {
        Some(RunInfo { split: Split::EyeSpy, structure: None, run_type: RunType::Modern })
    } else if same_text(&id, "rsg.enter_stronghold.bastionless") {
        Some(RunInfo { split: Split::EyeSpy, structure: None, run_type: RunType::Bastionless })
    } else if same_text(&id, "rsg.enter_end") {
        Some(RunInfo { split: Split::EndEnter, structure: None, run_type: RunType::Modern })
    } else if same_text(&id, "rsg.enter_end.bastionless") {
        Some(RunInfo { split: Split::EndEnter, structure: None, run_type: RunType::Bastionless })
    } else {
        None
    }
}

} // verus!
