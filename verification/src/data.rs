//! Plain-value data model: the entities the orchestrator reasons about and
//! the tagged events that background tasks report through the mailbox.

use vstd::prelude::*;

verus! {

/// A server the logged-in user is a member of.
#[derive(Debug, Clone)]
pub struct Guild {
    pub id: u64,
    pub name: String,
}

/// A direct-message channel; `is_group` marks group conversations.
#[derive(Debug, Clone)]
pub struct DmChannel {
    pub id: u64,
    pub name: String,
    pub is_group: bool,
}

/// A channel inside a server. `is_category` marks section headers,
/// `is_text` marks channels whose message history can be downloaded.
#[derive(Debug, Clone)]
pub struct Channel {
    pub id: u64,
    pub name: String,
    pub is_category: bool,
    pub is_text: bool,
}

/// One downloaded chat message with every field the exports render.
#[derive(Debug, Clone)]
pub struct ChatMessage {
    pub id: u64,
    pub author_name: String,
    pub content: String,
    pub timestamp: String,
}

/// Result event a background task pushes into the mailbox.
/// Each variant is immutable once constructed and consumed exactly once.
#[derive(Debug, Clone)]
pub enum Event {
    LoginSucceeded { username: String },
    LoginFailed { reason: String },
    GuildsListed { guilds: Vec<Guild> },
    DmsListed { dms: Vec<DmChannel> },
    ChannelsListed { channels: Vec<Channel> },
    MessageReceived { message: ChatMessage },
    DownloadFinished,
    OperationFailed { reason: String },
}

/// The channel the user picked for download: its identifier and the name
/// shown in the download view.
#[derive(Debug, Clone)]
pub struct Selection {
    pub channel_id: u64,
    pub name: String,
}

/// User-visible notice the orchestrator surfaces; the UI shell renders the
/// text. Counts are carried as numbers so the rendering stays outside the
/// core; the logged-in name is read from the state snapshot.
#[derive(Debug, Clone)]
pub enum Notice {
    /// Login completed; the session now holds the user's display name.
    LoggedIn,
    /// The token was rejected locally as obviously malformed; nothing was
    /// spawned.
    TokenRejected,
    /// The remote rejected the login attempt.
    LoginRejected { reason: String },
    GuildsLoaded { count: u64 },
    DmsLoaded { count: u64 },
    ChannelsLoaded { count: u64 },
    /// A download ran to completion with this many messages buffered.
    DownloadDone { count: u64 },
    /// The user canceled a download; this many messages stay buffered.
    DownloadCanceled { count: u64 },
    /// A background operation failed mid-way.
    OperationError { reason: String },
}

/// Instruction the orchestrator hands back to the task supervisor shell:
/// which background operation to spawn, or which to cancel.
#[derive(Debug, Clone)]
pub enum Command {
    SpawnLogin { token: String },
    SpawnListGuilds,
    SpawnListDms,
    SpawnListChannels { guild_id: u64 },
    SpawnDownload { channel_id: u64 },
    CancelDownload,
}

} // verus!
