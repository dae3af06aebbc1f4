pub mod plugin;
pub mod sources;
pub mod heart_beat;
pub mod system_load;
pub mod user_idle;
