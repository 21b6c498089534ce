//! The decision logic of the Vortex AIS launcher, its web view and its helper bot:
//! script composition, the in-app file protocol, release checks, the launch flow,
//! the launcher's console state, update archives and bot commands.

pub mod script;
pub mod text;
pub mod release;
pub mod launch;
pub mod console;
pub mod protocol;
pub mod bot;
pub mod users;
pub mod archive;
pub mod update;
