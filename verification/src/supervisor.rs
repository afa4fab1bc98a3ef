//! Task-supervisor decisions: the cheap local token check made before a
//! login task is spawned, and the per-item decision of the paginated
//! download task. The spawning itself (network, scheduling) happens in the
//! shell around the library, which performs each returned instruction and
//! feeds the produced events back through the mailbox.

use vstd::prelude::*;

use crate::data::{ChatMessage, Event};

verus! {

/// `s` with every leading `"Bot "` prefix removed.
pub open spec fn strip_bot_prefix(s: Seq<char>) -> Seq<char>
    decreases s.len(),
{
    if s.len() >= 4 && s.subrange(0, 4) == "Bot "@ {
        strip_bot_prefix(s.skip(4))
    } else {
        s
    }
}

/// A token is well-formed when, after any leading `"Bot "` prefixes, it
/// consists of exactly three non-empty parts separated by the period
/// character: there are exactly two periods, neither at an end nor adjacent.
pub open spec fn token_format_ok(s: Seq<char>) -> bool {
    let t = strip_bot_prefix(s);
    exists|i: int, j: int|
        #![trigger t[i], t[j]]
        {
            &&& 0 < i
            &&& i + 1 < j
            &&& j + 1 < t.len()
            &&& t[i] == '.'
            &&& t[j] == '.'
            &&& forall|k: int| 0 <= k < t.len() && k != i && k != j ==> t[k] != '.'
        }
}

/// Relies on `serenity_self::utils::validate_token` (src/utils/token.rs):
/// it accepts exactly the tokens that, after `trim_start_matches("Bot ")`,
/// split on `'.'` into three non-empty parts — the shape
/// [`token_format_ok`] states.
#[verifier::external_body]
pub(crate) fn token_has_valid_format(token: &str) -> (r: bool)
    ensures
        r == token_format_ok(token@),
{
    serenity_self::utils::validate_token(token).is_ok()
}

/// What the login task's remote authentication attempt produced.
pub enum LoginResult {
    /// Authentication succeeded and the user's display name was fetched.
    Authenticated { username: String },
    /// Building the client or fetching the current user failed; the reason
    /// is already rendered as text.
    Failed { reason: String },
}

/// The login task's report for each authentication outcome.
pub open spec fn login_step_spec(result: LoginResult) -> Event {
    match result {
        LoginResult::Authenticated { username } => Event::LoginSucceeded { username },
        LoginResult::Failed { reason } => Event::LoginFailed { reason },
    }
}

/// Decides how the login task reports its outcome: a success carries the
/// display name, a failure the reason; exactly one event either way.
pub fn login_step(result: LoginResult) -> (e: Event)
    ensures
        e == login_step_spec(result),
{
    match result {
        LoginResult::Authenticated { username } => Event::LoginSucceeded { username },
        LoginResult::Failed { reason } => Event::LoginFailed { reason },
    }
}

/// What one poll of the paginated message stream produced.
pub enum PageResult {
    /// The next message of the channel's history arrived.
    Fetched { message: ChatMessage },
    /// A page fetch failed; the reason is already rendered as text.
    Failed { reason: String },
    /// The remote signaled exhaustion: every page has been delivered.
    Exhausted,
}

/// The download task's reaction to one poll: the event to report, if any,
/// and whether the task keeps requesting further messages.
pub open spec fn download_step_spec(page: PageResult) -> (Option<Event>, bool) {
    match page {
        PageResult::Fetched { message } => (Some(Event::MessageReceived { message }), true),
        PageResult::Failed { reason } => (Some(Event::OperationFailed { reason }), false),
        PageResult::Exhausted => (Some(Event::DownloadFinished), false),
    }
}

/// Decides how the download task reacts to one poll of the message stream:
/// every message is reported as its own event and the download goes on; the
/// first error is reported and ends the task at once, with no retry; on
/// exhaustion the task reports completion and ends. Cancellation is checked
/// by the task before each poll and produces no event at all.
pub fn download_step(page: PageResult) -> (r: (Option<Event>, bool))
    ensures
        r == download_step_spec(page),
{
    match page {
        PageResult::Fetched { message } => (Some(Event::MessageReceived { message }), true),
        PageResult::Failed { reason } => (Some(Event::OperationFailed { reason }), false),
        PageResult::Exhausted => (Some(Event::DownloadFinished), false),
    }
}

} // verus!
