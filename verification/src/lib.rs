//! The decisions behind a dictation heads-up display: which phase it shows,
//! when it leaves the screen, and how its window and display link are kept alive.
pub mod event;
pub mod event_laws;
pub mod frame;
pub mod frame_laws;
pub mod indicator;
pub mod jobs;
pub mod laws;
pub mod meter;
pub mod phase;
pub mod renderer;
pub mod scalar;
pub mod scalar_laws;
pub mod screen;
pub mod screen_laws;
pub mod shared;
pub mod spring;
pub mod time;
pub mod ui;
pub mod upkeep;
pub mod upkeep_laws;
