pub mod consts;
pub mod response;
