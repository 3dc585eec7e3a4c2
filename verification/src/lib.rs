//! Setting the desktop wallpaper of chosen displays: which display an
//! identifier names, which requests are fit to go to the desktop shell, and
//! the course of a run from the command line to the exit code. The calls
//! into the system are left to the caller, who reports their results as
//! events.

pub mod color;
pub mod decimal;
pub mod display;
pub mod error;
pub mod request;
pub mod scaling;
pub mod session;
