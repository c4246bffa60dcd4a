use vstd::prelude::*;

verus! {

/// Shown before the runner's time while the runner broadcasts live.
pub const LIVE_INDICATOR: &'static str = "\u{1F534}";

/// Shown before the runner's time while the runner does not broadcast.
pub const OFFLINE_INDICATOR: &'static str = "\u{26AA}";

/// Shown before the link to the live broadcast.
pub const TWITCH_EMOJI: &'static str = "\u{1F4FA}";

/// Shown where there is no live broadcast.
pub const OFFLINE_EMOJI: &'static str = "\u{1F4A4}";

/// Shown before the count of blaze rods.
pub const ROD_EMOJI: &'static str = "\u{1F525}";

/// Shown before the count of ender pearls.
pub const PEARL_EMOJI: &'static str = "\u{1F52E}";

/// What an underscore of a nickname is shown as, so that the chat platform
/// does not read it as markup.
pub const SPECIAL_UNDERSCORE: &'static str = "\\_";

} // verus!
