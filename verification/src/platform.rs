//! What differs between the platforms that the host runs on: how the
//! performance counter is read into ticks, and how a change of the game
//! module is noticed.

pub mod linux;
pub mod osx;
pub mod win32;
