//! Update orchestration for a handheld-console firmware distribution: release and
//! tag matching, selective archive extraction, download progress, the self-update
//! protocol and the shared operation state read by the presentation shell.

pub mod archive;
pub mod client;
pub mod device;
pub mod extract;
pub mod firmware;
pub mod github;
pub mod matcher;
pub mod selfupdate;
pub mod state;
pub mod text;
pub mod version;
