use mailtriage::app::Action;
use mailtriage::app::App;
use mailtriage::app::ActionResult;
use mailtriage::app::ConfirmAction;
use mailtriage::app::Focus;
use mailtriage::app::Key;
use mailtriage::app::LoadRequest;
use mailtriage::app::Mailbox;
use mailtriage::app::Message;
use mailtriage::email::EmailEntry;
use mailtriage::watch::WatchOutcome;
use mailtriage::watch::WatchStep;
use mailtriage::watch::watch_step;

fn entry(subject: &str, from: &str, to: &str, body: &str, sort: &str) -> EmailEntry {
    EmailEntry {
        path: format!("/mail/{}.md", subject),
        from: from.to_string(),
        to: to.to_string(),
        cc: None,
        subject: subject.to_string(),
        status: "inbox".to_string(),
        date_display: "2025-06-01".to_string(),
        date_sort: sort.to_string(),
        body: body.to_string(),
        has_attachments: false,
    }
}

fn sample_entries() -> Vec<EmailEntry> {
    vec![
        entry("Quarterly report", "Alice <a@x>", "me@x", "See attachment.", "2025-06-03T10:00:00"),
        entry("Lunch plans", "Bob <b@x>", "me@x", "There is a zebra at the zoo.", "2025-06-02T10:00:00"),
        entry("Renewal notice", "Carol <c@x>", "me@x", "Your plan renews.", "2025-06-01T10:00:00"),
    ]
}

fn fresh_app() -> App {
    App::new(vec![None, None, None, None], vec![3, 0, 0, 0], sample_entries())
}

fn press(app: &mut App, key: Key) -> Option<Message> {
    app.update(Message::Key(key))
}

#[test]
fn new_app_shows_the_inbox() {
    let app = fresh_app();
    assert_eq!(app.active_mailbox, Mailbox::Inbox);
    assert_eq!(app.focus, Focus::List);
    assert_eq!(app.emails.len(), 3);
    assert_eq!(app.list_index, 0);
    assert!(app.pending_load.is_none());
}

#[test]
fn get_or_load_twice_returns_identical_lists_and_never_rescans() {
    let mut app = fresh_app();
    let first = app.get_or_load(Mailbox::Inbox).expect("inbox is cached");
    assert!(app.pending_load.is_none());
    let second = app.get_or_load(Mailbox::Inbox).expect("still cached");
    assert!(app.pending_load.is_none());
    assert_eq!(first.len(), second.len());
    for (a, b) in first.iter().zip(second.iter()) {
        assert_eq!(a.subject, b.subject);
        assert_eq!(a.path, b.path);
    }
}

#[test]
fn cold_mailbox_requests_one_load_then_serves_from_cache() {
    let mut app = fresh_app();
    assert!(app.get_or_load(Mailbox::Drafts).is_none());
    assert_eq!(
        app.pending_load,
        Some(LoadRequest { mailbox: Mailbox::Drafts, refresh_counts: false })
    );
    let drafts = vec![entry("Draft A", "me@x", "dee@x", "wip", "2025-06-04T08:00:00")];
    app.install_entries(Mailbox::Drafts, drafts);
    assert!(app.pending_load.is_none());
    let got = app.get_or_load(Mailbox::Drafts).expect("cached after install");
    assert_eq!(got.len(), 1);
    assert!(app.pending_load.is_none());
}

#[test]
fn invalidate_forces_a_new_load_request() {
    let mut app = fresh_app();
    app.invalidate_cache(Mailbox::Inbox);
    assert!(app.get_or_load(Mailbox::Inbox).is_none());
    assert_eq!(
        app.pending_load,
        Some(LoadRequest { mailbox: Mailbox::Inbox, refresh_counts: false })
    );
}

#[test]
fn metadata_filter_is_a_subset_and_content_filter_a_superset() {
    let mut app = fresh_app();
    app.search_query = "zebra".to_string();
    app.search_includes_body = false;
    app.apply_search_filter();
    let metadata_hits = app.emails.len();
    assert_eq!(metadata_hits, 0);

    app.search_includes_body = true;
    app.apply_search_filter();
    let content_hits = app.emails.len();
    assert_eq!(content_hits, 1);
    assert_eq!(app.emails[0].subject, "Lunch plans");
    assert!(content_hits >= metadata_hits);

    app.search_query = "renewal".to_string();
    app.search_includes_body = false;
    app.apply_search_filter();
    assert_eq!(app.emails.len(), 1);
    for e in &app.emails {
        assert!(sample_entries().iter().any(|s| s.path == e.path));
    }
}

#[test]
fn clearing_the_query_restores_the_cached_list_in_order() {
    let mut app = fresh_app();
    let before: Vec<String> = app.emails.iter().map(|e| e.subject.clone()).collect();
    press(&mut app, Key::Char('/'));
    assert_eq!(app.focus, Focus::Search);
    press(&mut app, Key::Char('l'));
    press(&mut app, Key::Char('u'));
    assert_eq!(app.search_query, "lu");
    assert_eq!(app.emails.len(), 1);
    press(&mut app, Key::Esc);
    assert_eq!(app.focus, Focus::List);
    assert_eq!(app.search_query, "");
    let after: Vec<String> = app.emails.iter().map(|e| e.subject.clone()).collect();
    assert_eq!(before, after);
}

#[test]
fn backspace_refilters_with_the_shorter_query() {
    let mut app = fresh_app();
    press(&mut app, Key::Char('/'));
    press(&mut app, Key::Char('l'));
    press(&mut app, Key::Char('q'));
    assert_eq!(app.search_query, "lq");
    assert_eq!(app.emails.len(), 0);
    press(&mut app, Key::Backspace);
    assert_eq!(app.search_query, "l");
    assert!(app.emails.len() >= 1);
}

#[test]
fn content_search_finds_body_only_matches_and_metadata_search_hides_them() {
    let mut app = fresh_app();
    press(&mut app, Key::Char('\\'));
    assert!(app.search_includes_body);
    for c in "zebra".chars() {
        press(&mut app, Key::Char(c));
    }
    assert_eq!(app.emails.len(), 1);
    assert_eq!(app.emails[0].subject, "Lunch plans");

    press(&mut app, Key::Esc);
    press(&mut app, Key::Char('/'));
    assert!(!app.search_includes_body);
    for c in "zebra".chars() {
        press(&mut app, Key::Char(c));
    }
    assert_eq!(app.emails.len(), 0);
}

#[test]
fn case_insensitive_match_through_lowercasing() {
    let mut app = fresh_app();
    press(&mut app, Key::Char('/'));
    for c in "QUARTERLY".chars() {
        press(&mut app, Key::Char(c));
    }
    assert_eq!(app.emails.len(), 1);
    assert_eq!(app.emails[0].subject, "Quarterly report");
}

#[test]
fn tab_in_search_falls_through_to_the_list() {
    let mut app = fresh_app();
    press(&mut app, Key::Char('/'));
    press(&mut app, Key::Char('l'));
    press(&mut app, Key::Char('u'));
    assert_eq!(app.focus, Focus::Search);
    press(&mut app, Key::Tab);
    assert_eq!(app.focus, Focus::List);
    assert_eq!(app.search_query, "lu");
    assert_eq!(app.emails.len(), 1);
    press(&mut app, Key::Char('/'));
    press(&mut app, Key::BackTab);
    assert_eq!(app.focus, Focus::List);
}

#[test]
fn search_mode_swallows_global_character_keys() {
    let mut app = fresh_app();
    press(&mut app, Key::Char('/'));
    assert_eq!(app.focus, Focus::Search);
    press(&mut app, Key::Char('q'));
    assert!(app.running);
    assert_eq!(app.search_query, "q");
}

#[test]
fn enter_commits_the_query_and_keeps_the_filter() {
    let mut app = fresh_app();
    press(&mut app, Key::Char('/'));
    press(&mut app, Key::Char('l'));
    press(&mut app, Key::Char('u'));
    press(&mut app, Key::Enter);
    assert_eq!(app.focus, Focus::List);
    assert_eq!(app.search_query, "lu");
    assert_eq!(app.emails.len(), 1);
}

#[test]
fn filtering_never_mutates_the_cache() {
    let mut app = fresh_app();
    app.search_query = "zzz-no-match".to_string();
    app.apply_search_filter();
    assert_eq!(app.emails.len(), 0);
    let cached = app.get_or_load(Mailbox::Inbox).expect("cache stays warm");
    assert_eq!(cached.len(), 3);
}

#[test]
fn selection_stays_in_bounds_for_all_sizes() {
    for n in [0usize, 1, 3] {
        let entries: Vec<EmailEntry> = sample_entries().into_iter().take(n).collect();
        let mut app = App::new(vec![None, None, None, None], vec![n, 0, 0, 0], entries);
        for key in [Key::Down, Key::Down, Key::Down, Key::Down, Key::Up, Key::Char('G'), Key::Down]
        {
            press(&mut app, key);
            if app.emails.is_empty() {
                assert_eq!(app.list_index, 0);
            } else {
                assert!(app.list_index < app.emails.len());
            }
        }
    }
}

#[test]
fn capital_g_selects_the_last_entry() {
    let mut app = fresh_app();
    press(&mut app, Key::Char('G'));
    assert_eq!(app.list_index, app.emails.len() - 1);
}

#[test]
fn double_g_jumps_to_the_top_from_anywhere() {
    let mut app = fresh_app();
    press(&mut app, Key::Char('G'));
    assert_eq!(app.list_index, 2);
    press(&mut app, Key::Char('g'));
    assert_eq!(app.list_index, 2);
    assert!(app.g_pending);
    press(&mut app, Key::Char('g'));
    assert_eq!(app.list_index, 0);
    assert!(!app.g_pending);
}

#[test]
fn single_g_then_another_key_does_not_jump() {
    let mut app = fresh_app();
    press(&mut app, Key::Char('G'));
    press(&mut app, Key::Char('g'));
    press(&mut app, Key::Up);
    assert_eq!(app.list_index, 1);
    assert!(!app.g_pending);
    press(&mut app, Key::Char('g'));
    assert_eq!(app.list_index, 1);
}

#[test]
fn navigation_never_wraps() {
    let mut app = fresh_app();
    press(&mut app, Key::Up);
    assert_eq!(app.list_index, 0);
    press(&mut app, Key::Char('G'));
    press(&mut app, Key::Down);
    assert_eq!(app.list_index, 2);
}

#[test]
fn changing_the_selection_resets_preview_scroll() {
    let mut app = fresh_app();
    app.preview_scroll = 7;
    press(&mut app, Key::Down);
    assert_eq!(app.preview_scroll, 0);
}

#[test]
fn switching_mailboxes_resets_selection_search_and_scroll() {
    let mut app = fresh_app();
    press(&mut app, Key::Char('G'));
    app.preview_scroll = 9;
    app.search_query = "left over".to_string();
    app.search_includes_body = true;
    app.switch_mailbox(Mailbox::Drafts);
    assert_eq!(app.active_mailbox, Mailbox::Drafts);
    assert_eq!(app.list_index, 0);
    assert_eq!(app.preview_scroll, 0);
    assert_eq!(app.search_query, "");
    assert!(!app.search_includes_body);
}

#[test]
fn switching_to_a_cached_mailbox_updates_its_count() {
    let mut app = fresh_app();
    app.install_entries(Mailbox::Drafts, vec![entry("D", "a", "b", "x", "")]);
    app.switch_mailbox(Mailbox::Drafts);
    assert_eq!(app.mailbox_counts[Mailbox::Drafts.index()], 1);
    assert_eq!(app.emails.len(), 1);
    assert!(app.pending_load.is_none());
}

#[test]
fn number_keys_jump_to_the_mailbox_and_focus_the_list() {
    let mut app = fresh_app();
    press(&mut app, Key::Char('s'));
    assert_eq!(app.focus, Focus::Sidebar);
    press(&mut app, Key::Char('2'));
    assert_eq!(app.active_mailbox, Mailbox::Drafts);
    assert_eq!(app.focus, Focus::List);
    assert_eq!(app.sidebar_index, 1);
    assert_eq!(
        app.pending_load,
        Some(LoadRequest { mailbox: Mailbox::Drafts, refresh_counts: false })
    );
}

#[test]
fn destructive_keys_open_a_dialog_and_queue_nothing() {
    for (key, tag) in [
        (Key::Char('a'), ConfirmAction::Archive),
        (Key::Char('d'), ConfirmAction::Delete),
        (Key::Char('x'), ConfirmAction::Send),
        (Key::Char('X'), ConfirmAction::SendApproved),
    ] {
        let mut app = fresh_app();
        press(&mut app, key);
        assert!(app.pending_action.is_none());
        let dialog = app.confirm_dialog.as_ref().expect("dialog must open");
        assert_eq!(dialog.action, tag);
    }
}

#[test]
fn archive_dialog_carries_sender_and_subject() {
    let mut app = fresh_app();
    press(&mut app, Key::Char('a'));
    let dialog = app.confirm_dialog.as_ref().unwrap();
    assert_eq!(dialog.title, "Archive this email?");
    assert_eq!(dialog.detail, "Alice <a@x> - Quarterly report");
}

#[test]
fn send_dialog_names_the_recipient() {
    let mut app = fresh_app();
    press(&mut app, Key::Char('x'));
    let dialog = app.confirm_dialog.as_ref().unwrap();
    assert_eq!(dialog.title, "Send this email?");
    assert_eq!(dialog.detail, "To: me@x - Quarterly report");
}

#[test]
fn confirming_yes_queues_exactly_the_guarded_action() {
    let mut app = fresh_app();
    press(&mut app, Key::Char('d'));
    press(&mut app, Key::Char('y'));
    assert!(app.confirm_dialog.is_none());
    assert_eq!(app.pending_action, Some(Action::Delete));
}

#[test]
fn enter_also_confirms() {
    let mut app = fresh_app();
    press(&mut app, Key::Char('x'));
    press(&mut app, Key::Enter);
    assert_eq!(app.pending_action, Some(Action::Send));
}

#[test]
fn declining_queues_nothing() {
    for no in [Key::Char('n'), Key::Esc] {
        let mut app = fresh_app();
        press(&mut app, Key::Char('a'));
        press(&mut app, no);
        assert!(app.confirm_dialog.is_none());
        assert!(app.pending_action.is_none());
    }
}

#[test]
fn dialog_swallows_other_keys() {
    let mut app = fresh_app();
    press(&mut app, Key::Char('a'));
    press(&mut app, Key::Char('q'));
    assert!(app.confirm_dialog.is_some());
    assert!(app.running);
}

#[test]
fn plain_action_keys_queue_directly() {
    for (key, action) in [
        (Key::Char('e'), Action::EditCurrent),
        (Key::Char('r'), Action::Reply(false)),
        (Key::Char('R'), Action::Reply(true)),
        (Key::Char('A'), Action::Approve),
        (Key::Char('y'), Action::CopyPath),
        (Key::Char('n'), Action::NewDraft),
        (Key::Char('f'), Action::Fetch),
        (Key::Char('F'), Action::Sync),
    ] {
        let mut app = fresh_app();
        press(&mut app, key);
        assert_eq!(app.pending_action, Some(action));
        assert!(app.confirm_dialog.is_none());
    }
}

#[test]
fn empty_list_keeps_only_fetch_sync_and_new_draft() {
    let mut app = App::new(vec![None, None, None, None], vec![0, 0, 0, 0], Vec::new());
    press(&mut app, Key::Char('e'));
    assert!(app.pending_action.is_none());
    press(&mut app, Key::Char('a'));
    assert!(app.confirm_dialog.is_none());
    press(&mut app, Key::Char('f'));
    assert_eq!(app.pending_action, Some(Action::Fetch));
    app.pending_action = None;
    press(&mut app, Key::Char('F'));
    assert_eq!(app.pending_action, Some(Action::Sync));
    app.pending_action = None;
    press(&mut app, Key::Char('n'));
    assert_eq!(app.pending_action, Some(Action::NewDraft));
}

#[test]
fn quit_key_returns_the_quit_message() {
    let mut app = fresh_app();
    let follow = press(&mut app, Key::Char('q'));
    assert_eq!(follow, Some(Message::Quit));
    assert!(app.running);
    let none = app.update(Message::Quit);
    assert!(none.is_none());
    assert!(!app.running);
}

#[test]
fn help_overlay_swallows_keys_until_closed() {
    let mut app = fresh_app();
    press(&mut app, Key::Char('?'));
    assert!(app.show_help);
    press(&mut app, Key::Char('d'));
    assert!(app.confirm_dialog.is_none());
    assert!(app.show_help);
    press(&mut app, Key::Esc);
    assert!(!app.show_help);
}

#[test]
fn tab_cycles_the_focus_ring() {
    let mut app = fresh_app();
    assert_eq!(app.focus, Focus::List);
    press(&mut app, Key::Tab);
    assert_eq!(app.focus, Focus::Preview);
    press(&mut app, Key::Tab);
    assert_eq!(app.focus, Focus::Sidebar);
    press(&mut app, Key::Tab);
    assert_eq!(app.focus, Focus::List);
    press(&mut app, Key::BackTab);
    assert_eq!(app.focus, Focus::Sidebar);
}

#[test]
fn sidebar_navigation_clamps_and_confirms() {
    let mut app = fresh_app();
    press(&mut app, Key::Char('s'));
    press(&mut app, Key::Up);
    assert_eq!(app.sidebar_index, 0);
    press(&mut app, Key::Down);
    press(&mut app, Key::Down);
    press(&mut app, Key::Down);
    press(&mut app, Key::Down);
    assert_eq!(app.sidebar_index, 3);
    press(&mut app, Key::Enter);
    assert_eq!(app.active_mailbox, Mailbox::Archive);
    assert_eq!(app.focus, Focus::List);
}

#[test]
fn sidebar_escape_returns_without_switching() {
    let mut app = fresh_app();
    press(&mut app, Key::Char('s'));
    press(&mut app, Key::Down);
    press(&mut app, Key::Esc);
    assert_eq!(app.focus, Focus::List);
    assert_eq!(app.active_mailbox, Mailbox::Inbox);
}

#[test]
fn preview_scrolls_by_line_and_half_page() {
    let mut app = fresh_app();
    press(&mut app, Key::Char('l'));
    assert_eq!(app.focus, Focus::Preview);
    press(&mut app, Key::Down);
    assert_eq!(app.preview_scroll, 1);
    press(&mut app, Key::Char('d'));
    assert_eq!(app.preview_scroll, 11);
    press(&mut app, Key::Char('u'));
    assert_eq!(app.preview_scroll, 1);
    press(&mut app, Key::Char('k'));
    press(&mut app, Key::Char('k'));
    assert_eq!(app.preview_scroll, 0);
    press(&mut app, Key::Esc);
    assert_eq!(app.focus, Focus::List);
}

#[test]
fn watcher_timeout_is_silent_and_changes_nothing() {
    assert_eq!(watch_step(WatchOutcome::Exited(2)), WatchStep::Restart);
    let mut app = fresh_app();
    let before_counts = app.mailbox_counts.clone();
    let before_len = app.emails.len();
    assert_eq!(watch_step(WatchOutcome::Exited(2)), WatchStep::Restart);
    assert!(app.status_message.is_none());
    assert_eq!(app.mailbox_counts, before_counts);
    assert_eq!(app.emails.len(), before_len);
    assert!(app.pending_load.is_none());
}

#[test]
fn reload_reclamps_the_selection_into_the_fresh_bounds() {
    let mut app = fresh_app();
    press(&mut app, Key::Char('G'));
    assert_eq!(app.list_index, 2);
    app.reload_current_mailbox();
    assert_eq!(app.list_index, 2);
    let shrunk = vec![
        entry("Quarterly report", "Alice <a@x>", "me@x", "See attachment.", "2025-06-03T10:00:00"),
        entry("Lunch plans", "Bob <b@x>", "me@x", "zebra", "2025-06-02T10:00:00"),
    ];
    app.install_entries(Mailbox::Inbox, shrunk);
    assert_eq!(app.list_index, 1);
}

#[test]
fn reload_keeps_a_selection_that_still_fits() {
    let mut app = fresh_app();
    press(&mut app, Key::Down);
    assert_eq!(app.list_index, 1);
    app.reload_current_mailbox();
    app.install_entries(Mailbox::Inbox, sample_entries());
    assert_eq!(app.list_index, 1);
}

#[test]
fn reload_of_an_emptied_mailbox_rests_at_zero() {
    let mut app = fresh_app();
    press(&mut app, Key::Char('G'));
    app.reload_current_mailbox();
    app.install_entries(Mailbox::Inbox, Vec::new());
    assert_eq!(app.list_index, 0);
    assert!(app.emails.is_empty());
}

#[test]
fn switching_still_resets_the_selection_to_the_top() {
    let mut app = fresh_app();
    press(&mut app, Key::Char('G'));
    app.switch_mailbox(Mailbox::Drafts);
    assert_eq!(app.list_index, 0);
    app.install_entries(Mailbox::Drafts, sample_entries());
    assert_eq!(app.list_index, 0);
}

#[test]
fn watcher_change_reloads_the_active_mailbox_and_updates_the_count() {
    assert_eq!(watch_step(WatchOutcome::Exited(0)), WatchStep::NotifyChanged);
    let mut app = fresh_app();
    let follow = app.update(Message::MailboxChanged);
    assert!(follow.is_none());
    assert_eq!(
        app.pending_load,
        Some(LoadRequest { mailbox: Mailbox::Inbox, refresh_counts: true })
    );
    let fresh = vec![
        entry("New mail", "Dana <d@x>", "me@x", "hi", "2025-06-05T10:00:00"),
        entry("Quarterly report", "Alice <a@x>", "me@x", "See attachment.", "2025-06-03T10:00:00"),
    ];
    app.install_entries(Mailbox::Inbox, fresh);
    assert_eq!(app.mailbox_counts[Mailbox::Inbox.index()], 2);
    assert_eq!(app.emails.len(), 2);
    assert!(app.pending_load.is_none());
    assert!(app.status_message.is_none());
}

#[test]
fn watcher_failures_notify_and_back_off_or_stop() {
    assert_eq!(
        watch_step(WatchOutcome::Exited(1)),
        WatchStep::NotifyErrorAndBackoff
    );
    assert_eq!(
        watch_step(WatchOutcome::Interrupted),
        WatchStep::NotifyErrorAndBackoff
    );
    assert_eq!(
        watch_step(WatchOutcome::LaunchFailed),
        WatchStep::NotifyErrorAndStop
    );
}

#[test]
fn status_message_expires_after_its_ticks() {
    let mut app = fresh_app();
    app.set_status("Saved".to_string());
    assert_eq!(app.status_message.as_deref(), Some("Saved"));
    assert_eq!(app.status_ticks, 12);
    for _ in 0..11 {
        app.tick_status();
        assert!(app.status_message.is_some());
    }
    app.tick_status();
    assert!(app.status_message.is_none());
    app.tick_status();
    assert!(app.status_message.is_none());
}

#[test]
fn selected_email_follows_the_selection() {
    let mut app = fresh_app();
    press(&mut app, Key::Down);
    let selected = app.selected_email().unwrap();
    assert_eq!(selected.subject, "Lunch plans");
    let path = app.selected_email_path().unwrap();
    assert_eq!(path, "/mail/Lunch plans.md");
}

#[test]
fn selected_email_is_none_on_an_empty_list() {
    let app = App::new(vec![None, None, None, None], vec![0, 0, 0, 0], Vec::new());
    assert!(app.selected_email().is_none());
    assert!(app.selected_email_path().is_none());
}

#[test]
fn resize_updates_the_dimensions() {
    let mut app = fresh_app();
    app.update(Message::Resize(120, 40));
    assert_eq!(app.terminal_width, 120);
    assert_eq!(app.terminal_height, 40);
}

#[test]
fn send_success_sets_status_and_drops_every_cache() {
    let mut app = fresh_app();
    app.finish_action(Action::Send, ActionResult::Done(String::new()));
    assert_eq!(app.status_message.as_deref(), Some("Email sent"));
    assert_eq!(
        app.pending_load,
        Some(LoadRequest { mailbox: Mailbox::Inbox, refresh_counts: true })
    );
    assert!(app.get_or_load(Mailbox::Inbox).is_none());
}

#[test]
fn send_success_keeps_a_nonempty_output_as_the_status() {
    let mut app = fresh_app();
    app.finish_action(Action::Send, ActionResult::Done("Sent 1 message".to_string()));
    assert_eq!(app.status_message.as_deref(), Some("Sent 1 message"));
}

#[test]
fn failures_surface_with_the_action_name() {
    let cases = [
        (Action::Send, "Send failed: boom"),
        (Action::SendApproved, "Send-approved failed: boom"),
        (Action::Delete, "Delete failed: boom"),
        (Action::Archive, "Archive failed: boom"),
        (Action::Approve, "Approve failed: boom"),
        (Action::NewDraft, "New draft failed: boom"),
        (Action::CopyPath, "Copy failed: boom"),
        (Action::Fetch, "Fetch failed: boom"),
        (Action::Sync, "Sync failed: boom"),
        (Action::EditCurrent, "Edit failed: boom"),
    ];
    for (action, expected) in cases {
        let mut app = fresh_app();
        app.finish_action(action, ActionResult::Failed("boom".to_string()));
        assert_eq!(app.status_message.as_deref(), Some(expected));
        assert_eq!(app.status_ticks, 12);
    }
}

#[test]
fn reply_invalidates_drafts_even_when_the_editor_fails() {
    let mut app = fresh_app();
    app.install_entries(Mailbox::Drafts, vec![entry("D", "a", "b", "x", "")]);
    app.finish_action(Action::Reply(false), ActionResult::EditorFailed("no tty".to_string()));
    assert_eq!(app.status_message.as_deref(), Some("Editor failed: no tty"));
    assert!(app.get_or_load(Mailbox::Drafts).is_none());
}

#[test]
fn archive_success_drops_the_archive_cache() {
    let mut app = fresh_app();
    app.install_entries(Mailbox::Archive, vec![entry("Old", "a", "b", "x", "")]);
    app.finish_action(Action::Archive, ActionResult::Done(String::new()));
    assert_eq!(app.status_message.as_deref(), Some("Email archived"));
    assert!(app.get_or_load(Mailbox::Archive).is_none());
}

#[test]
fn copy_path_touches_no_cache() {
    let mut app = fresh_app();
    app.finish_action(Action::CopyPath, ActionResult::Done(String::new()));
    assert_eq!(app.status_message.as_deref(), Some("Path copied to clipboard"));
    assert!(app.pending_load.is_none());
    assert!(app.get_or_load(Mailbox::Inbox).is_some());
}

#[test]
fn set_counts_replaces_every_count() {
    let mut app = fresh_app();
    app.set_counts(vec![5, 6, 7, 8]);
    assert_eq!(app.mailbox_counts, vec![5, 6, 7, 8]);
}

#[test]
fn mailbox_labels_and_slots() {
    assert_eq!(Mailbox::Inbox.label(), "Inbox");
    assert_eq!(Mailbox::Drafts.label(), "Drafts");
    assert_eq!(Mailbox::Sent.label(), "Sent");
    assert_eq!(Mailbox::Archive.label(), "Archive");
    assert_eq!(Mailbox::Inbox.index(), 0);
    assert_eq!(Mailbox::Archive.index(), 3);
    assert!(!Mailbox::Sent.icon().is_empty());
}

#[test]
fn display_contact_depends_on_the_mailbox() {
    let e = entry("S", "sender@x", "recipient@x", "b", "");
    assert_eq!(e.display_contact(Mailbox::Inbox), "sender@x");
    assert_eq!(e.display_contact(Mailbox::Archive), "sender@x");
    assert_eq!(e.display_contact(Mailbox::Drafts), "recipient@x");
    assert_eq!(e.display_contact(Mailbox::Sent), "recipient@x");
}
