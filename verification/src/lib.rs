pub mod audio;
pub mod controls;
pub mod display;
pub mod meter;
pub mod notes;
pub mod pitch;
pub mod tone;
pub mod tuning;
