pub mod guild_data;
pub mod players;
pub mod split;
