//! Persistence and deduplication core of a guild chat bot: a versioned
//! schema-migration runner, read-or-default entity repositories for guilds,
//! users and members, and a cooldown-gated shout-out guard that decides
//! whether a "user started streaming" event may be announced again.

pub mod database;
pub mod migration;
pub mod text;
pub mod title;
pub mod stream_notify;
