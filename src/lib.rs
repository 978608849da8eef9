//! A fixed-point simulation engine for an arcade survival game: a player
//! dodges and collects falling objects while a heat and score economy and a
//! ramping difficulty curve push the run toward a crash.
//!
//! All quantities are integers:
//! - lengths are in thousandths of a play-field unit,
//! - durations are in microseconds,
//! - the difficulty level is in billionths,
//! - the time scale, the screen-shake intensity and the fade alpha are in
//!   millionths,
//! - heat is in thousandths of a percentage point.

pub mod units;
pub mod timer;
pub mod difficulty;
pub mod economy;
pub mod feedback;
pub mod entity;
pub mod game;
pub mod random;
pub mod hud;
