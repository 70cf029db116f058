//! Shows in a window's title the file that the window was asked to open,
//! whether it came on the command line or from the desktop's request to open
//! files, and decides when the event loop ends.

pub mod control;
pub mod file_open;
pub mod startup;
pub mod title;
