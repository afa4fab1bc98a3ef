//! The core state machine. It owns every piece of state the UI renders,
//! and is the single writer of all of it: background tasks communicate
//! exclusively by events through the mailbox, and the shell mutates nothing
//! directly. Intents and the per-frame drain step return [`Command`] values
//! that tell the shell which background operation to spawn or cancel.

use vstd::prelude::*;

use crate::data::{Channel, ChatMessage, Command, DmChannel, Event, Guild, Notice, Selection};
use crate::mailbox::Mailbox;
use crate::supervisor::{token_format_ok, token_has_valid_format};

verus! {

/// Mathematical snapshot of the orchestrator's state.
#[verifier::ext_equal]
pub struct StateV {
    /// Display name of the logged-in user; `None` while unauthenticated.
    pub session: Option<String>,
    /// A login task's success is only accepted while this holds: connecting
    /// raises it, and only a disconnect or an accepted success lowers it,
    /// so a stale success event arriving after a disconnect is discarded.
    pub login_pending: bool,
    /// The channel currently picked for download, if any.
    pub selection: Option<Selection>,
    pub guilds: Option<Seq<Guild>>,
    pub dms: Option<Seq<DmChannel>>,
    pub channels: Option<Seq<Channel>>,
    /// Messages received so far, in delivery order.
    pub buffer: Seq<ChatMessage>,
    /// Whether a download task is considered running; at most one ever is.
    pub download_active: bool,
    /// Notices surfaced to the user and not yet collected by the shell.
    pub notices: Seq<Notice>,
}

/// The state after one event is applied.
pub open spec fn step(s: StateV, e: Event) -> StateV {
    match e {
        Event::LoginSucceeded { username } => {
            if s.login_pending && s.session is None {
                StateV {
                    session: Some(username),
                    login_pending: false,
                    notices: s.notices.push(Notice::LoggedIn),
                    ..s
                }
            } else {
                s
            }
        },
        // A failure only surfaces a notice. The pending interest stays: it
        // is lowered only by a disconnect or by an accepted success, so a
        // failure from one login attempt cannot discard a genuine success
        // from a later one still in flight.
        Event::LoginFailed { reason } => StateV {
            notices: s.notices.push(Notice::LoginRejected { reason }),
            ..s
        },
        Event::GuildsListed { guilds } => StateV {
            guilds: Some(guilds@),
            notices: s.notices.push(Notice::GuildsLoaded { count: guilds@.len() as u64 }),
            ..s
        },
        Event::DmsListed { dms } => StateV {
            dms: Some(dms@),
            notices: s.notices.push(Notice::DmsLoaded { count: dms@.len() as u64 }),
            ..s
        },
        Event::ChannelsListed { channels } => StateV {
            channels: Some(channels@),
            notices: s.notices.push(Notice::ChannelsLoaded { count: channels@.len() as u64 }),
            ..s
        },
        Event::MessageReceived { message } => {
            if s.download_active {
                StateV { buffer: s.buffer.push(message), ..s }
            } else {
                s
            }
        },
        Event::DownloadFinished => StateV {
            download_active: false,
            notices: s.notices.push(Notice::DownloadDone { count: s.buffer.len() as u64 }),
            ..s
        },
        Event::OperationFailed { reason } => StateV {
            notices: s.notices.push(Notice::OperationError { reason }),
            ..s
        },
    }
}

/// The follow-up operations one event triggers: an accepted login fans out
/// into the two independent list fetches; no other event spawns anything.
pub open spec fn step_cmds(s: StateV, e: Event) -> Seq<Command> {
    match e {
        Event::LoginSucceeded { username } => {
            if s.login_pending && s.session is None {
                seq![Command::SpawnListGuilds, Command::SpawnListDms]
            } else {
                Seq::empty()
            }
        },
        _ => Seq::empty(),
    }
}

/// The state after a whole sequence of events is applied in order.
pub open spec fn run(s: StateV, evs: Seq<Event>) -> StateV
    decreases evs.len(),
{
    if evs.len() == 0 {
        s
    } else {
        run(step(s, evs[0]), evs.drop_first())
    }
}

/// Every follow-up operation a whole sequence of events triggers, in order.
pub open spec fn run_cmds(s: StateV, evs: Seq<Event>) -> Seq<Command>
    decreases evs.len(),
{
    if evs.len() == 0 {
        Seq::empty()
    } else {
        step_cmds(s, evs[0]) + run_cmds(step(s, evs[0]), evs.drop_first())
    }
}

/// Applying `evs` and then one more event is one step after applying `evs`.
pub proof fn lemma_run_snoc(s: StateV, evs: Seq<Event>, e: Event)
    ensures
        run(s, evs.push(e)) == step(run(s, evs), e),
        run_cmds(s, evs.push(e)) == run_cmds(s, evs) + step_cmds(run(s, evs), e),
    decreases evs.len(),
{
    let t = evs.push(e);
    if evs.len() == 0 {
        assert(t[0] == e);
        assert(t.drop_first() =~= Seq::<Event>::empty());
        assert(run(s, t) == run(step(s, e), t.drop_first()));
        assert(run(step(s, e), t.drop_first()) == step(s, e));
        assert(run(s, evs) == s);
        assert(run_cmds(s, t) == step_cmds(s, e) + run_cmds(step(s, e), t.drop_first()));
        assert(run_cmds(step(s, e), t.drop_first()) == Seq::<Command>::empty());
        assert(run_cmds(s, evs) == Seq::<Command>::empty());
        assert(run_cmds(s, t) =~= run_cmds(s, evs) + step_cmds(run(s, evs), e));
    } else {
        assert(t[0] == evs[0]);
        assert(t.drop_first() =~= evs.drop_first().push(e));
        lemma_run_snoc(step(s, evs[0]), evs.drop_first(), e);
        assert(run(s, t) == run(step(s, t[0]), t.drop_first()));
        assert(run(s, evs) == run(step(s, evs[0]), evs.drop_first()));
        assert(run_cmds(s, t) == step_cmds(s, t[0]) + run_cmds(step(s, t[0]), t.drop_first()));
        assert(run_cmds(s, evs) == step_cmds(s, evs[0]) + run_cmds(
            step(s, evs[0]),
            evs.drop_first(),
        ));
        assert(run_cmds(s, t) =~= run_cmds(s, evs) + step_cmds(run(s, evs), e));
    }
}

/// The orchestrator's concrete state; see [`StateV`] for what each field
/// means. All mutation happens in the intent methods and the drain step
/// below.
pub struct Orchestrator {
    session: Option<String>,
    login_pending: bool,
    selection: Option<Selection>,
    guilds: Option<Vec<Guild>>,
    dms: Option<Vec<DmChannel>>,
    channels: Option<Vec<Channel>>,
    buffer: Vec<ChatMessage>,
    download_active: bool,
    notices: Vec<Notice>,
}

/// The view of an optional list: present iff the list is, with the same
/// elements in the same order.
pub open spec fn opt_list_view<T>(o: Option<Vec<T>>) -> Option<Seq<T>> {
    match o {
        Some(v) => Some(v@),
        None => None,
    }
}

impl View for Orchestrator {
    type V = StateV;

    closed spec fn view(&self) -> StateV {
        StateV {
            session: self.session,
            login_pending: self.login_pending,
            selection: self.selection,
            guilds: opt_list_view(self.guilds),
            dms: opt_list_view(self.dms),
            channels: opt_list_view(self.channels),
            buffer: self.buffer@,
            download_active: self.download_active,
            notices: self.notices@,
        }
    }
}

impl Orchestrator {
    /// Fresh, unauthenticated state: nothing cached, nothing buffered,
    /// nothing running.
    pub fn new() -> (o: Orchestrator)
        ensures
            o@ == (StateV {
                session: None,
                login_pending: false,
                selection: None,
                guilds: None,
                dms: None,
                channels: None,
                buffer: Seq::empty(),
                download_active: false,
                notices: Seq::empty(),
            }),
    {
        Orchestrator {
            session: None,
            login_pending: false,
            selection: None,
            guilds: None,
            dms: None,
            channels: None,
            buffer: Vec::new(),
            download_active: false,
            notices: Vec::new(),
        }
    }

    /// Applies exactly one event's mutation, appending any follow-up
    /// operations it triggers to `cmds`.
    pub fn apply_event(&mut self, event: Event, cmds: &mut Vec<Command>)
        ensures
            final(self)@ == step(old(self)@, event),
            final(cmds)@ == old(cmds)@ + step_cmds(old(self)@, event),
    {
        match event {
            Event::LoginSucceeded { username } => {
                if self.login_pending && self.session.is_none() {
                    self.session = Some(username);
                    self.login_pending = false;
                    self.notices.push(Notice::LoggedIn);
                    cmds.push(Command::SpawnListGuilds);
                    cmds.push(Command::SpawnListDms);
                    proof {
                        assert(cmds@ =~= old(cmds)@ + seq![
                            Command::SpawnListGuilds,
                            Command::SpawnListDms,
                        ]);
                    }
                } else {
                    proof {
                        assert(cmds@ =~= old(cmds)@ + Seq::<Command>::empty());
                    }
                }
            },
            Event::LoginFailed { reason } => {
                self.notices.push(Notice::LoginRejected { reason });
                proof {
                    assert(cmds@ =~= old(cmds)@ + Seq::<Command>::empty());
                }
            },
            Event::GuildsListed { guilds } => {
                let count = guilds.len() as u64;
                self.guilds = Some(guilds);
                self.notices.push(Notice::GuildsLoaded { count });
                proof {
                    assert(cmds@ =~= old(cmds)@ + Seq::<Command>::empty());
                }
            },
            Event::DmsListed { dms } => {
                let count = dms.len() as u64;
                self.dms = Some(dms);
                self.notices.push(Notice::DmsLoaded { count });
                proof {
                    assert(cmds@ =~= old(cmds)@ + Seq::<Command>::empty());
                }
            },
            Event::ChannelsListed { channels } => {
                let count = channels.len() as u64;
                self.channels = Some(channels);
                self.notices.push(Notice::ChannelsLoaded { count });
                proof {
                    assert(cmds@ =~= old(cmds)@ + Seq::<Command>::empty());
                }
            },
            Event::MessageReceived { message } => {
                if self.download_active {
                    self.buffer.push(message);
                }
                proof {
                    assert(cmds@ =~= old(cmds)@ + Seq::<Command>::empty());
                }
            },
            Event::DownloadFinished => {
                self.download_active = false;
                let count = self.buffer.len() as u64;
                self.notices.push(Notice::DownloadDone { count });
                proof {
                    assert(cmds@ =~= old(cmds)@ + Seq::<Command>::empty());
                }
            },
            Event::OperationFailed { reason } => {
                self.notices.push(Notice::OperationError { reason });
                proof {
                    assert(cmds@ =~= old(cmds)@ + Seq::<Command>::empty());
                }
            },
        }
    }

    /// The per-frame drain step: empties the mailbox and applies every
    /// pending event in arrival order, returning the follow-up operations
    /// for the shell to spawn. Never blocks — an empty mailbox means no
    /// work and no state change.
    pub fn tick(&mut self, mailbox: &mut Mailbox) -> (cmds: Vec<Command>)
        ensures
            final(mailbox)@ == Seq::<Event>::empty(),
            final(self)@ == run(old(self)@, old(mailbox)@),
            cmds@ == run_cmds(old(self)@, old(mailbox)@),
    {
        let mut events = mailbox.try_drain_all();
        let ghost all: Seq<Event> = events@;
        let mut cmds: Vec<Command> = Vec::new();
        while events.len() > 0
            invariant
                events@.len() <= all.len(),
                events@ == all.skip(all.len() - events@.len()),
                self@ == run(old(self)@, all.take(all.len() - events@.len())),
                cmds@ == run_cmds(old(self)@, all.take(all.len() - events@.len())),
            decreases events@.len(),
        {
            let ghost i: int = all.len() - events@.len();
            let e = events.remove(0);
            proof {
                assert(e == all[i]);
            }
            self.apply_event(e, &mut cmds);
            proof {
                assert(all.take(i + 1) =~= all.take(i).push(all[i]));
                lemma_run_snoc(old(self)@, all.take(i), all[i]);
                assert(events@ =~= all.skip(i + 1));
            }
        }
        proof {
            assert(all.take(all.len() as int) =~= all);
        }
        cmds
    }

    /// The connect intent. From the unauthenticated state a well-formed
    /// token starts a login task; a malformed one is rejected on the spot
    /// with a notice and nothing is spawned. While authenticated it is a
    /// no-op.
    pub fn connect(&mut self, token: String) -> (cmd: Option<Command>)
        ensures
            old(self)@.session is Some ==> final(self)@ == old(self)@ && cmd is None,
            old(self)@.session is None && !token_format_ok(token@) ==> {
                &&& final(self)@ == (StateV {
                    notices: old(self)@.notices.push(Notice::TokenRejected),
                    ..old(self)@
                })
                &&& cmd is None
            },
            old(self)@.session is None && token_format_ok(token@) ==> {
                &&& final(self)@ == (StateV { login_pending: true, ..old(self)@ })
                &&& cmd == Some(Command::SpawnLogin { token })
            },
    {
        if self.session.is_some() {
            None
        } else if !token_has_valid_format(token.as_str()) {
            self.notices.push(Notice::TokenRejected);
            None
        } else {
            self.login_pending = true;
            Some(Command::SpawnLogin { token })
        }
    }

    /// The disconnect intent: cancels a running download first, then clears
    /// the session, the selection and the message buffer, and withdraws
    /// interest in any still-flying login result. Disconnecting twice is a
    /// no-op the second time.
    pub fn disconnect(&mut self) -> (cmd: Option<Command>)
        ensures
            final(self)@ == (StateV {
                session: None,
                login_pending: false,
                selection: None,
                buffer: Seq::empty(),
                download_active: false,
                ..old(self)@
            }),
            cmd == (if old(self)@.download_active {
                Some(Command::CancelDownload)
            } else {
                None::<Command>
            }),
    {
        let cmd = if self.download_active {
            self.download_active = false;
            Some(Command::CancelDownload)
        } else {
            None
        };
        self.session = None;
        self.login_pending = false;
        self.selection = None;
        self.buffer.clear();
        cmd
    }

    /// The channel-selection intent: clears the previous selection's state —
    /// canceling its download and emptying the buffer — before the new
    /// selection is set. A no-op while unauthenticated.
    pub fn select_channel(&mut self, channel_id: u64, name: String) -> (cmd: Option<Command>)
        ensures
            old(self)@.session is None ==> final(self)@ == old(self)@ && cmd is None,
            old(self)@.session is Some ==> {
                &&& final(self)@ == (StateV {
                    selection: Some(Selection { channel_id, name }),
                    buffer: Seq::empty(),
                    download_active: false,
                    ..old(self)@
                })
                &&& cmd == (if old(self)@.download_active {
                    Some(Command::CancelDownload)
                } else {
                    None::<Command>
                })
            },
    {
        if self.session.is_none() {
            return None;
        }
        let cmd = if self.download_active {
            self.download_active = false;
            Some(Command::CancelDownload)
        } else {
            None
        };
        self.selection = Some(Selection { channel_id, name });
        self.buffer.clear();
        cmd
    }

    /// Clearing the selection always cancels any download and always empties
    /// the message buffer.
    pub fn clear_selection(&mut self) -> (cmd: Option<Command>)
        ensures
            final(self)@ == (StateV {
                selection: None,
                buffer: Seq::empty(),
                download_active: false,
                ..old(self)@
            }),
            cmd == (if old(self)@.download_active {
                Some(Command::CancelDownload)
            } else {
                None::<Command>
            }),
    {
        let cmd = if self.download_active {
            self.download_active = false;
            Some(Command::CancelDownload)
        } else {
            None
        };
        self.selection = None;
        self.buffer.clear();
        cmd
    }

    /// The download intent: legal exactly when a channel is selected and no
    /// download is running; anything else is a no-op that changes nothing.
    /// Starting empties the buffer — a restart downloads the history from
    /// the top, so anything left from an earlier finished or canceled
    /// download would otherwise appear twice — and marks the single
    /// download slot taken, so a second start while one runs falls into the
    /// no-op case.
    pub fn start_download(&mut self) -> (cmd: Option<Command>)
        ensures
            old(self)@.selection is Some && !old(self)@.download_active ==> {
                &&& final(self)@ == (StateV {
                    buffer: Seq::empty(),
                    download_active: true,
                    ..old(self)@
                })
                &&& final(self)@.buffer == Seq::<ChatMessage>::empty()
                &&& cmd == Some(Command::SpawnDownload {
                    channel_id: old(self)@.selection.unwrap().channel_id,
                })
            },
            !(old(self)@.selection is Some && !old(self)@.download_active) ==> {
                &&& final(self)@ == old(self)@
                &&& cmd is None
            },
    {
        if self.download_active {
            return None;
        }
        let channel_id = match &self.selection {
            Some(sel) => sel.channel_id,
            None => {
                return None;
            },
        };
        self.buffer.clear();
        self.download_active = true;
        Some(Command::SpawnDownload { channel_id })
    }

    /// The cancel intent: frees the download slot and tells the shell to
    /// stop the task, but leaves every message received so far in the
    /// buffer — the partial result stays visible and savable. A no-op when
    /// nothing is running.
    pub fn cancel_download(&mut self) -> (cmd: Option<Command>)
        ensures
            old(self)@.download_active ==> {
                &&& final(self)@ == (StateV {
                    download_active: false,
                    notices: old(self)@.notices.push(Notice::DownloadCanceled {
                        count: old(self)@.buffer.len() as u64,
                    }),
                    ..old(self)@
                })
                &&& final(self)@.buffer == old(self)@.buffer
                &&& cmd == Some(Command::CancelDownload)
            },
            !old(self)@.download_active ==> final(self)@ == old(self)@ && cmd is None,
    {
        if !self.download_active {
            return None;
        }
        self.download_active = false;
        let count = self.buffer.len() as u64;
        self.notices.push(Notice::DownloadCanceled { count });
        Some(Command::CancelDownload)
    }

    /// The intent behind picking a server in the list: fetch its channels.
    /// Legal only while authenticated; the state itself never changes.
    pub fn list_channels(&self, guild_id: u64) -> (cmd: Option<Command>)
        ensures
            cmd == (if self@.session is Some {
                Some(Command::SpawnListChannels { guild_id })
            } else {
                None::<Command>
            }),
    {
        if self.session.is_some() {
            Some(Command::SpawnListChannels { guild_id })
        } else {
            None
        }
    }

    /// Whether a session exists.
    pub fn is_connected(&self) -> (r: bool)
        ensures
            r == (self@.session is Some),
    {
        self.session.is_some()
    }

    /// The logged-in user's display name, while a session exists.
    pub fn username(&self) -> (r: &Option<String>)
        ensures
            *r == self@.session,
    {
        &self.session
    }

    /// The cached server list, once a listing arrived.
    pub fn guild_list(&self) -> (r: &Option<Vec<Guild>>)
        ensures
            opt_list_view(*r) == self@.guilds,
    {
        &self.guilds
    }

    /// The cached direct-message list, once a listing arrived.
    pub fn dm_list(&self) -> (r: &Option<Vec<DmChannel>>)
        ensures
            opt_list_view(*r) == self@.dms,
    {
        &self.dms
    }

    /// The cached channel list of the last server picked.
    pub fn channel_list(&self) -> (r: &Option<Vec<Channel>>)
        ensures
            opt_list_view(*r) == self@.channels,
    {
        &self.channels
    }

    /// The messages received so far, in delivery order.
    pub fn messages(&self) -> (r: &Vec<ChatMessage>)
        ensures
            r@ == self@.buffer,
    {
        &self.buffer
    }

    /// How many messages are buffered.
    pub fn message_count(&self) -> (n: usize)
        ensures
            n == self@.buffer.len(),
    {
        self.buffer.len()
    }

    /// Whether a download task is running.
    pub fn download_active(&self) -> (r: bool)
        ensures
            r == self@.download_active,
    {
        self.download_active
    }

    /// The current channel selection.
    pub fn selection(&self) -> (r: &Option<Selection>)
        ensures
            *r == self@.selection,
    {
        &self.selection
    }

    /// Hands the accumulated notices to the shell for rendering and clears
    /// them; nothing else changes.
    pub fn take_notices(&mut self) -> (r: Vec<Notice>)
        ensures
            r@ == old(self)@.notices,
            final(self)@ == (StateV { notices: Seq::empty(), ..old(self)@ }),
    {
        let mut out: Vec<Notice> = Vec::new();
        core::mem::swap(&mut out, &mut self.notices);
        out
    }
}

/// The message payloads of a batch of events: each `MessageReceived`
/// contributes its message, in order; other events contribute nothing.
pub open spec fn message_payloads(evs: Seq<Event>) -> Seq<ChatMessage>
    decreases evs.len(),
{
    if evs.len() == 0 {
        Seq::empty()
    } else {
        match evs[0] {
            Event::MessageReceived { message } => seq![message] + message_payloads(
                evs.drop_first(),
            ),
            _ => message_payloads(evs.drop_first()),
        }
    }
}

/// Order preservation: while a download is active, draining any batch of
/// message events appends exactly their payloads to the buffer, in delivery
/// order, and the download stays active.
pub proof fn lemma_download_order_preserved(s: StateV, evs: Seq<Event>)
    requires
        s.download_active,
        forall|k: int| 0 <= k < evs.len() ==> evs[k] is MessageReceived,
    ensures
        run(s, evs).buffer == s.buffer + message_payloads(evs),
        run(s, evs).download_active,
    decreases evs.len(),
{
    if evs.len() == 0 {
        assert(s.buffer + message_payloads(evs) =~= s.buffer);
    } else {
        assert(evs[0] is MessageReceived);
        assert(forall|k: int|
            0 <= k < evs.drop_first().len() ==> evs.drop_first()[k] is MessageReceived);
        lemma_download_order_preserved(step(s, evs[0]), evs.drop_first());
        match evs[0] {
            Event::MessageReceived { message } => {
                assert(step(s, evs[0]).buffer == s.buffer.push(message));
                assert(run(s, evs).buffer =~= s.buffer + message_payloads(evs));
            },
            _ => {
                assert(false);
            },
        }
    }
}

/// Stale-result guard: while no login is pending — in particular right
/// after a disconnect, which withdraws the pending interest — no sequence
/// of arriving events can change the session, and none can raise the
/// pending interest back.
pub proof fn lemma_stale_login_never_repopulates(s: StateV, evs: Seq<Event>)
    requires
        !s.login_pending,
    ensures
        run(s, evs).session == s.session,
        !run(s, evs).login_pending,
    decreases evs.len(),
{
    if evs.len() > 0 {
        lemma_stale_login_never_repopulates(step(s, evs[0]), evs.drop_first());
    }
}

/// An empty batch is a no-op: draining an empty mailbox changes nothing and
/// spawns nothing.
pub proof fn lemma_run_empty(s: StateV)
    ensures
        run(s, Seq::<Event>::empty()) == s,
        run_cmds(s, Seq::<Event>::empty()) == Seq::<Command>::empty(),
{
}

} // verus!
