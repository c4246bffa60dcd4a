pub mod ready;
