//! Backend logic of a desktop widget that shows the time, raises a notification
//! on every five-minute mark and displays a regional weather forecast.

pub mod clock;
pub mod codes;
pub mod error;
pub mod json;
pub mod scheduler;
pub mod state;
pub mod text;
pub mod weather;
