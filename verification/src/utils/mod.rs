pub mod format_time;
pub mod millis_to_mins_secs;
pub mod name_map;
pub mod text;
