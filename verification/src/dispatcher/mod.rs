pub mod compose;
pub mod consts;
pub mod get_run_info;
pub mod notification;
pub mod pace_event;
pub mod qualify;
pub mod run_info;
