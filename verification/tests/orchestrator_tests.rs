use discord_message_downloader::data::{
    Channel, ChatMessage, Command, DmChannel, Event, Guild, Notice,
};
use discord_message_downloader::mailbox::Mailbox;
use discord_message_downloader::orchestrator::Orchestrator;
use discord_message_downloader::supervisor::{download_step, login_step, LoginResult, PageResult};

fn msg(id: u64, author: &str, content: &str, ts: &str) -> ChatMessage {
    ChatMessage {
        id,
        author_name: author.to_string(),
        content: content.to_string(),
        timestamp: ts.to_string(),
    }
}

fn logged_in_core() -> (Orchestrator, Mailbox) {
    let mut core = Orchestrator::new();
    let mut mailbox = Mailbox::new();
    let cmd = core.connect("aaa.bbbbbb.ccc".to_string());
    assert!(matches!(cmd, Some(Command::SpawnLogin { .. })));
    mailbox.send(Event::LoginSucceeded {
        username: "tester".to_string(),
    });
    core.tick(&mut mailbox);
    assert!(core.is_connected());
    core.take_notices();
    (core, mailbox)
}

fn selected_core() -> (Orchestrator, Mailbox) {
    let (mut core, mailbox) = logged_in_core();
    let cmd = core.select_channel(42, "general".to_string());
    assert!(cmd.is_none());
    (core, mailbox)
}

#[test]
fn new_starts_unauthenticated() {
    let core = Orchestrator::new();
    assert!(!core.is_connected());
    assert!(core.username().is_none());
    assert!(core.guild_list().is_none());
    assert!(core.dm_list().is_none());
    assert!(core.channel_list().is_none());
    assert_eq!(core.message_count(), 0);
    assert!(!core.download_active());
    assert!(core.selection().is_none());
}

#[test]
fn mailbox_delivers_in_fifo_order() {
    let mut mailbox = Mailbox::new();
    assert!(mailbox.is_empty());
    mailbox.send(Event::DownloadFinished);
    mailbox.send(Event::LoginFailed {
        reason: "a".to_string(),
    });
    mailbox.send(Event::OperationFailed {
        reason: "b".to_string(),
    });
    assert_eq!(mailbox.len(), 3);
    let events = mailbox.try_drain_all();
    assert!(mailbox.is_empty());
    assert_eq!(events.len(), 3);
    assert!(matches!(events[0], Event::DownloadFinished));
    assert!(matches!(events[1], Event::LoginFailed { .. }));
    assert!(matches!(events[2], Event::OperationFailed { .. }));
}

#[test]
fn tick_with_empty_mailbox_is_noop() {
    let (mut core, mut mailbox) = selected_core();
    let count_before = core.message_count();
    let cmds = core.tick(&mut mailbox);
    assert!(cmds.is_empty());
    assert!(core.is_connected());
    assert_eq!(core.message_count(), count_before);
    assert!(core.take_notices().is_empty());
}

#[test]
fn login_success_sets_session_and_fans_out() {
    let mut core = Orchestrator::new();
    let mut mailbox = Mailbox::new();
    let cmd = core.connect("aaa.bbbbbb.ccc".to_string());
    assert!(matches!(cmd, Some(Command::SpawnLogin { .. })));
    mailbox.send(Event::LoginSucceeded {
        username: "tester".to_string(),
    });
    let cmds = core.tick(&mut mailbox);
    assert_eq!(cmds.len(), 2);
    assert!(matches!(cmds[0], Command::SpawnListGuilds));
    assert!(matches!(cmds[1], Command::SpawnListDms));
    assert!(core.is_connected());
    assert_eq!(core.username().as_deref(), Some("tester"));
    let notices = core.take_notices();
    assert_eq!(notices.len(), 1);
    assert!(matches!(notices[0], Notice::LoggedIn));
}

#[test]
fn malformed_token_is_rejected_locally() {
    let mut core = Orchestrator::new();
    let cmd = core.connect("bad".to_string());
    assert!(cmd.is_none());
    assert!(!core.is_connected());
    let notices = core.take_notices();
    assert_eq!(notices.len(), 1);
    assert!(matches!(notices[0], Notice::TokenRejected));
}

#[test]
fn token_format_edge_cases() {
    let valid = ["aaa.bbbbbb.ccc", "Bot aaa.bbbbbb.ccc", "a.b.c"];
    for token in valid {
        let mut core = Orchestrator::new();
        let cmd = core.connect(token.to_string());
        assert!(
            matches!(cmd, Some(Command::SpawnLogin { .. })),
            "expected {token:?} to be accepted"
        );
    }
    let invalid = ["", "bad", "a.b", "a..c", ".b.c", "a.b.", "a.b.c.d"];
    for token in invalid {
        let mut core = Orchestrator::new();
        let cmd = core.connect(token.to_string());
        assert!(cmd.is_none(), "expected {token:?} to be rejected");
    }
}

#[test]
fn remote_login_failure_surfaces_notice() {
    let mut core = Orchestrator::new();
    let mut mailbox = Mailbox::new();
    core.connect("aaa.bbbbbb.ccc".to_string());
    mailbox.send(Event::LoginFailed {
        reason: "Cant Login".to_string(),
    });
    let cmds = core.tick(&mut mailbox);
    assert!(cmds.is_empty());
    assert!(!core.is_connected());
    let notices = core.take_notices();
    assert_eq!(notices.len(), 1);
    match &notices[0] {
        Notice::LoginRejected { reason } => assert_eq!(reason, "Cant Login"),
        other => panic!("unexpected notice: {other:?}"),
    }
}

#[test]
fn stale_login_after_disconnect_is_discarded() {
    let mut core = Orchestrator::new();
    let mut mailbox = Mailbox::new();
    core.connect("aaa.bbbbbb.ccc".to_string());
    core.disconnect();
    mailbox.send(Event::LoginSucceeded {
        username: "tester".to_string(),
    });
    let cmds = core.tick(&mut mailbox);
    assert!(cmds.is_empty());
    assert!(!core.is_connected());
    assert!(core.username().is_none());
}

#[test]
fn list_events_populate_in_either_order() {
    for flipped in [false, true] {
        let (mut core, mut mailbox) = logged_in_core();
        let guilds = Event::GuildsListed {
            guilds: vec![Guild {
                id: 1,
                name: "g".to_string(),
            }],
        };
        let dms = Event::DmsListed {
            dms: vec![
                DmChannel {
                    id: 2,
                    name: "alice".to_string(),
                    is_group: false,
                },
                DmChannel {
                    id: 3,
                    name: "bob".to_string(),
                    is_group: true,
                },
            ],
        };
        if flipped {
            mailbox.send(dms);
            mailbox.send(guilds);
        } else {
            mailbox.send(guilds);
            mailbox.send(dms);
        }
        core.tick(&mut mailbox);
        assert_eq!(core.guild_list().as_ref().map(|g| g.len()), Some(1));
        assert_eq!(core.dm_list().as_ref().map(|d| d.len()), Some(2));
        let notices = core.take_notices();
        assert_eq!(notices.len(), 2);
        assert!(notices
            .iter()
            .any(|n| matches!(n, Notice::GuildsLoaded { count: 1 })));
        assert!(notices
            .iter()
            .any(|n| matches!(n, Notice::DmsLoaded { count: 2 })));
    }
}

#[test]
fn channels_listed_replaces_cached_list() {
    let (mut core, mut mailbox) = logged_in_core();
    mailbox.send(Event::ChannelsListed {
        channels: vec![Channel {
            id: 5,
            name: "old".to_string(),
            is_category: false,
            is_text: true,
        }],
    });
    core.tick(&mut mailbox);
    mailbox.send(Event::ChannelsListed {
        channels: vec![
            Channel {
                id: 6,
                name: "new-a".to_string(),
                is_category: false,
                is_text: true,
            },
            Channel {
                id: 7,
                name: "new-b".to_string(),
                is_category: true,
                is_text: false,
            },
        ],
    });
    core.tick(&mut mailbox);
    let channels = core.channel_list().as_ref().unwrap();
    assert_eq!(channels.len(), 2);
    assert_eq!(channels[0].name, "new-a");
    assert_eq!(channels[1].name, "new-b");
}

#[test]
fn download_preserves_delivery_order() {
    let (mut core, mut mailbox) = selected_core();
    let cmd = core.start_download();
    assert!(matches!(cmd, Some(Command::SpawnDownload { channel_id: 42 })));
    for (id, content) in [(1u64, "first"), (2, "second"), (3, "third")] {
        mailbox.send(Event::MessageReceived {
            message: msg(id, "alice", content, "t"),
        });
    }
    core.tick(&mut mailbox);
    let buffered = core.messages();
    assert_eq!(buffered.len(), 3);
    assert_eq!(buffered[0].content, "first");
    assert_eq!(buffered[1].content, "second");
    assert_eq!(buffered[2].content, "third");
    assert!(core.download_active());
}

#[test]
fn download_finish_clears_handle_and_counts() {
    let (mut core, mut mailbox) = selected_core();
    core.start_download();
    for id in 1u64..=3 {
        mailbox.send(Event::MessageReceived {
            message: msg(id, "alice", "hi", "t"),
        });
    }
    mailbox.send(Event::DownloadFinished);
    core.tick(&mut mailbox);
    assert_eq!(core.message_count(), 3);
    assert!(!core.download_active());
    let notices = core.take_notices();
    assert!(notices
        .iter()
        .any(|n| matches!(n, Notice::DownloadDone { count: 3 })));
}

#[test]
fn cancel_keeps_buffer_and_late_message_is_discarded() {
    let (mut core, mut mailbox) = selected_core();
    core.start_download();
    for id in 1u64..=2 {
        mailbox.send(Event::MessageReceived {
            message: msg(id, "alice", "hi", "t"),
        });
    }
    core.tick(&mut mailbox);
    let cmd = core.cancel_download();
    assert!(matches!(cmd, Some(Command::CancelDownload)));
    assert_eq!(core.message_count(), 2);
    assert!(!core.download_active());
    let notices = core.take_notices();
    assert!(notices
        .iter()
        .any(|n| matches!(n, Notice::DownloadCanceled { count: 2 })));
    mailbox.send(Event::MessageReceived {
        message: msg(9, "late", "too late", "t"),
    });
    core.tick(&mut mailbox);
    assert_eq!(core.message_count(), 2);
}

#[test]
fn cancel_without_download_is_noop() {
    let (mut core, _mailbox) = selected_core();
    assert!(core.cancel_download().is_none());
    assert!(core.take_notices().is_empty());
}

#[test]
fn clear_selection_clears_buffer_and_cancels() {
    let (mut core, mut mailbox) = selected_core();
    core.start_download();
    mailbox.send(Event::MessageReceived {
        message: msg(1, "alice", "hi", "t"),
    });
    core.tick(&mut mailbox);
    assert_eq!(core.message_count(), 1);
    let cmd = core.clear_selection();
    assert!(matches!(cmd, Some(Command::CancelDownload)));
    assert!(core.selection().is_none());
    assert_eq!(core.message_count(), 0);
    assert!(!core.download_active());
}

#[test]
fn start_download_while_active_is_noop() {
    let (mut core, mut mailbox) = selected_core();
    let first = core.start_download();
    assert!(first.is_some());
    mailbox.send(Event::MessageReceived {
        message: msg(1, "alice", "hi", "t"),
    });
    core.tick(&mut mailbox);
    let second = core.start_download();
    assert!(second.is_none());
    assert!(core.download_active());
    assert_eq!(core.message_count(), 1);
}

#[test]
fn start_download_without_selection_is_noop() {
    let (mut core, _mailbox) = logged_in_core();
    assert!(core.start_download().is_none());
    assert!(!core.download_active());
}

#[test]
fn select_channel_cancels_previous_download() {
    let (mut core, mut mailbox) = selected_core();
    core.start_download();
    mailbox.send(Event::MessageReceived {
        message: msg(1, "alice", "hi", "t"),
    });
    core.tick(&mut mailbox);
    let cmd = core.select_channel(77, "other".to_string());
    assert!(matches!(cmd, Some(Command::CancelDownload)));
    assert_eq!(core.message_count(), 0);
    assert!(!core.download_active());
    let sel = core.selection().as_ref().unwrap();
    assert_eq!(sel.channel_id, 77);
    assert_eq!(sel.name, "other");
}

#[test]
fn select_channel_while_unauthenticated_is_noop() {
    let mut core = Orchestrator::new();
    assert!(core.select_channel(1, "x".to_string()).is_none());
    assert!(core.selection().is_none());
}

#[test]
fn disconnect_clears_state_and_cancels_download() {
    let (mut core, mut mailbox) = selected_core();
    core.start_download();
    mailbox.send(Event::MessageReceived {
        message: msg(1, "alice", "hi", "t"),
    });
    core.tick(&mut mailbox);
    let cmd = core.disconnect();
    assert!(matches!(cmd, Some(Command::CancelDownload)));
    assert!(!core.is_connected());
    assert!(core.selection().is_none());
    assert_eq!(core.message_count(), 0);
    assert!(!core.download_active());
    let again = core.disconnect();
    assert!(again.is_none());
    assert!(!core.is_connected());
}

#[test]
fn connect_while_authenticated_is_noop() {
    let (mut core, _mailbox) = logged_in_core();
    let cmd = core.connect("aaa.bbbbbb.ccc".to_string());
    assert!(cmd.is_none());
    assert!(core.take_notices().is_empty());
}

#[test]
fn list_channels_requires_session() {
    let core = Orchestrator::new();
    assert!(core.list_channels(1).is_none());
    let (connected, _mailbox) = logged_in_core();
    assert!(matches!(
        connected.list_channels(9),
        Some(Command::SpawnListChannels { guild_id: 9 })
    ));
}

#[test]
fn operation_failure_surfaces_notice_only() {
    let (mut core, mut mailbox) = selected_core();
    core.start_download();
    mailbox.send(Event::OperationFailed {
        reason: "page fetch failed".to_string(),
    });
    core.tick(&mut mailbox);
    let notices = core.take_notices();
    assert_eq!(notices.len(), 1);
    match &notices[0] {
        Notice::OperationError { reason } => assert_eq!(reason, "page fetch failed"),
        other => panic!("unexpected notice: {other:?}"),
    }
    assert!(core.download_active());
}

#[test]
fn restart_clears_leftover_buffer() {
    let (mut core, mut mailbox) = selected_core();
    core.start_download();
    for id in 1u64..=2 {
        mailbox.send(Event::MessageReceived {
            message: msg(id, "alice", "hi", "t"),
        });
    }
    mailbox.send(Event::DownloadFinished);
    core.tick(&mut mailbox);
    assert_eq!(core.message_count(), 2);
    assert!(!core.download_active());
    let cmd = core.start_download();
    assert!(matches!(cmd, Some(Command::SpawnDownload { channel_id: 42 })));
    assert_eq!(core.message_count(), 0);
    assert!(core.download_active());
}

#[test]
fn restart_after_cancel_clears_kept_buffer() {
    let (mut core, mut mailbox) = selected_core();
    core.start_download();
    mailbox.send(Event::MessageReceived {
        message: msg(1, "alice", "hi", "t"),
    });
    core.tick(&mut mailbox);
    core.cancel_download();
    assert_eq!(core.message_count(), 1);
    core.start_download();
    assert_eq!(core.message_count(), 0);
    assert!(core.download_active());
}

#[test]
fn failed_attempt_does_not_discard_later_success() {
    let mut core = Orchestrator::new();
    let mut mailbox = Mailbox::new();
    core.connect("aaa.bbbbbb.ccc".to_string());
    core.connect("ddd.eeeeee.fff".to_string());
    mailbox.send(Event::LoginFailed {
        reason: "Cant Login".to_string(),
    });
    mailbox.send(Event::LoginSucceeded {
        username: "tester".to_string(),
    });
    core.tick(&mut mailbox);
    assert!(core.is_connected());
    assert_eq!(core.username().as_deref(), Some("tester"));
}

#[test]
fn login_step_maps_each_outcome_to_one_event() {
    let success = login_step(LoginResult::Authenticated {
        username: "tester".to_string(),
    });
    match success {
        Event::LoginSucceeded { username } => assert_eq!(username, "tester"),
        other => panic!("unexpected event: {other:?}"),
    }
    let failure = login_step(LoginResult::Failed {
        reason: "Cant Login".to_string(),
    });
    match failure {
        Event::LoginFailed { reason } => assert_eq!(reason, "Cant Login"),
        other => panic!("unexpected event: {other:?}"),
    }
}

#[test]
fn download_step_reports_each_message_and_goes_on() {
    let (event, go_on) = download_step(PageResult::Fetched {
        message: msg(1, "alice", "hi", "t"),
    });
    assert!(go_on);
    match event {
        Some(Event::MessageReceived { message }) => assert_eq!(message.content, "hi"),
        other => panic!("unexpected event: {other:?}"),
    }
}

#[test]
fn download_step_stops_on_first_error() {
    let (event, go_on) = download_step(PageResult::Failed {
        reason: "boom".to_string(),
    });
    assert!(!go_on);
    match event {
        Some(Event::OperationFailed { reason }) => assert_eq!(reason, "boom"),
        other => panic!("unexpected event: {other:?}"),
    }
}

#[test]
fn download_step_reports_exhaustion() {
    let (event, go_on) = download_step(PageResult::Exhausted);
    assert!(!go_on);
    assert!(matches!(event, Some(Event::DownloadFinished)));
}
