//! Start-up logic of a desktop shell that runs a local Memos server: where its
//! files live, how its configuration heals, when its database is backed up and
//! migrated, which port it gets, where its binary is found and how logging
//! repairs its own configuration.
pub mod num;
pub mod text;
pub mod url;
pub mod webview;
pub mod config;
pub mod locate;
pub mod homedir;
pub mod logging;
pub mod memos;
pub mod migrate;
pub mod paths;
pub mod port;
