//! A game library's core: tracking the play time of a launched game (which
//! process to watch, the session monitor state machine and its events), and
//! the rules around it: cleaning of entered data, the user's settings record,
//! the order of executables found by a folder scan, the command line of an
//! elevated launch, and the database's connection string.

pub mod db_path;
pub mod dto;
pub mod launch;
pub mod monitor;
pub mod process;
pub mod scan;
pub mod selector;
pub mod settings;
pub mod text;
