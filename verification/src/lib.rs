//! Navigation and data engine of a personal time tracker.
//!
//! Hours and comments are booked per timecode and weekday, in weeks that are
//! materialised on first visit. A cursor with a bounded scrolling window walks
//! over them. The engine does no input or output: a host hands it keys and
//! what it found on disk, and draws and stores what the engine holds.
//!
//! - [`data`] is the store: years of weeks of timecodes of days.
//! - [`config`] holds the starred timecodes and the language.
//! - [`app`] is the cursor with its window and mode stack, and the edits.
//! - [`handlers`] say what each key does, [`event`] names the keys.
//! - [`screen`], [`calendar`] and [`i18n`] give the host what it draws.
//! - [`store_laws`] and [`cursor_laws`] state what holds of every visit of a
//!   week and of every move and edit.
//! - [`text`] is what is taken on trust about `String`.
//!
//! Every type has a mathematical model (its view), and every operation says
//! in its contract what it does to that model. Time is kept in whole minutes.
pub mod app;
pub mod calendar;
pub mod config;
pub mod cursor_laws;
pub mod data;
pub mod event;
pub mod handlers;
pub mod i18n;
pub mod screen;
pub mod store_laws;
pub mod text;
