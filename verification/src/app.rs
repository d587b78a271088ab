//! Application state and its transitions.
//!
//! The state is mutated only through total functions: the key router maps
//! a key and the current focus to the next state, the store keeps one
//! lazily loaded entry list per mailbox, and side effects never run here —
//! a transition records at most one pending `Action` for the effect layer
//! and at most one pending `LoadRequest` for the I/O layer, each a single
//! slot, never a queue.

use vstd::prelude::*;
use vstd::string::*;

use crate::email::EmailEntry;
use crate::email::clone_entries;
use crate::email::clone_entry;
use crate::email::spec_contact;
use crate::text::contains_chars;
use crate::text::has_substr;
use crate::text::lower_of;
use crate::text::str_to_chars;
use crate::text::to_lowercase_str;

verus! {

/// Which pane currently has focus.
#[derive(Debug, Clone, Copy, PartialEq, Eq, Structural)]
pub enum Focus {
    Sidebar,
    List,
    Preview,
    Search,
}

/// One key press, reduced to what the router distinguishes.
#[derive(Debug, Clone, Copy, PartialEq, Eq, Structural)]
pub enum Key {
    Char(char),
    Enter,
    Esc,
    Backspace,
    Tab,
    BackTab,
    Up,
    Down,
    Other,
}

/// Messages that drive state transitions.
#[derive(Debug, Clone, Copy, PartialEq, Eq, Structural)]
pub enum Message {
    Key(Key),
    Resize(u16, u16),
    Quit,
    MailboxChanged,
}

/// A mailbox the user can navigate to.
#[derive(Debug, Clone, Copy, PartialEq, Eq, Hash, Structural)]
pub enum Mailbox {
    Inbox,
    Drafts,
    Sent,
    Archive,
}

impl Mailbox {
    /// The slot of this mailbox in every four-slot per-mailbox array.
    pub open spec fn spec_index(self) -> int {
        match self {
            Mailbox::Inbox => 0,
            Mailbox::Drafts => 1,
            Mailbox::Sent => 2,
            Mailbox::Archive => 3,
        }
    }

    /// Index into the four-slot per-mailbox arrays.
    pub fn index(self) -> (r: usize)
        ensures
            r as int == self.spec_index(),
            r < 4,
    {
        match self {
            Mailbox::Inbox => 0,
            Mailbox::Drafts => 1,
            Mailbox::Sent => 2,
            Mailbox::Archive => 3,
        }
    }

    /// The mailbox of a slot.
    pub fn from_index(i: usize) -> (r: Mailbox)
        requires
            i < 4,
        ensures
            r.spec_index() == i as int,
    {
        if i == 0 {
            Mailbox::Inbox
        } else if i == 1 {
            Mailbox::Drafts
        } else if i == 2 {
            Mailbox::Sent
        } else {
            Mailbox::Archive
        }
    }

    /// The sidebar glyph of this mailbox.
    pub open spec fn spec_icon(self) -> Seq<char> {
        match self {
            Mailbox::Inbox => "\u{f01ee}"@,
            Mailbox::Drafts => "\u{f03eb}"@,
            Mailbox::Sent => "\u{f046b}"@,
            Mailbox::Archive => "\u{f003c}"@,
        }
    }

    pub fn icon(self) -> (r: &'static str)
        ensures
            r@ == self.spec_icon(),
    {
        match self {
            Mailbox::Inbox => "\u{f01ee}",
            Mailbox::Drafts => "\u{f03eb}",
            Mailbox::Sent => "\u{f046b}",
            Mailbox::Archive => "\u{f003c}",
        }
    }

    /// The display label of this mailbox.
    pub open spec fn spec_label(self) -> Seq<char> {
        match self {
            Mailbox::Inbox => "Inbox"@,
            Mailbox::Drafts => "Drafts"@,
            Mailbox::Sent => "Sent"@,
            Mailbox::Archive => "Archive"@,
        }
    }

    pub fn label(self) -> (r: &'static str)
        ensures
            r@ == self.spec_label(),
    {
        match self {
            Mailbox::Inbox => "Inbox",
            Mailbox::Drafts => "Drafts",
            Mailbox::Sent => "Sent",
            Mailbox::Archive => "Archive",
        }
    }
}

/// Side effects the event loop must execute; the router only records them.
#[derive(Debug, Clone, Copy, PartialEq, Eq, Structural)]
pub enum Action {
    /// Open the currently selected email in the editor.
    EditCurrent,
    /// Reply to the selected email; true replies to all.
    Reply(bool),
    /// Send the selected email.
    Send,
    /// Send every approved draft of the active directory.
    SendApproved,
    /// Create a new draft, then open it in the editor.
    NewDraft,
    /// Mark the selected draft approved.
    Approve,
    /// Move the selected email to the archive.
    Archive,
    /// Delete the selected email.
    Delete,
    /// Copy the selected email's file path to the clipboard.
    CopyPath,
    /// Pull new mail.
    Fetch,
    /// Run a full re-sync.
    Sync,
}

/// Which destructive action a confirmation dialog is guarding.
#[derive(Debug, Clone, Copy, PartialEq, Eq, Structural)]
pub enum ConfirmAction {
    Archive,
    Delete,
    Send,
    SendApproved,
}

/// Data for the confirmation dialog overlay.
#[derive(Debug)]
pub struct ConfirmDialog {
    pub title: String,
    pub detail: String,
    pub action: ConfirmAction,
}

/// A request to the I/O layer: scan one mailbox directory and hand the
/// parsed entries back through `install_entries`; refresh every mailbox
/// count afterwards when asked to.
#[derive(Debug, Clone, Copy, PartialEq, Eq, Structural)]
pub struct LoadRequest {
    pub mailbox: Mailbox,
    pub refresh_counts: bool,
}

/// Top-level application state.
pub struct App {
    pub focus: Focus,
    pub running: bool,
    pub terminal_width: u16,
    pub terminal_height: u16,
    /// Which mailbox the sidebar highlights; may differ from the active
    /// mailbox while browsing.
    pub sidebar_index: usize,
    /// Which mailbox the list shows.
    pub active_mailbox: Mailbox,
    /// Entry count per mailbox, indexed by `Mailbox::index`.
    pub mailbox_counts: Vec<usize>,
    /// Resolved directory path per mailbox; absent when unconfigured.
    pub mailbox_dirs: Vec<Option<String>>,
    /// The entries on display for the active mailbox.
    pub emails: Vec<EmailEntry>,
    /// Selected entry in the list.
    pub list_index: usize,
    /// Whether the previous key was `g` (the `gg` go-to-top chord).
    pub g_pending: bool,
    /// Vertical scroll offset of the preview pane.
    pub preview_scroll: u16,
    /// Cached entries per mailbox, filled lazily. Mutated only through
    /// the cache operations; read freely.
    pub email_cache: Vec<Option<Vec<EmailEntry>>>,
    /// The one action awaiting the effect layer, if any.
    pub pending_action: Option<Action>,
    /// The one directory load awaiting the I/O layer, if any.
    pub pending_load: Option<LoadRequest>,
    /// When set, the dialog intercepts every key.
    pub confirm_dialog: Option<ConfirmDialog>,
    /// Status-bar feedback; expires after a few ticks.
    pub status_message: Option<String>,
    /// Ticks until the status message clears.
    pub status_ticks: u8,
    /// Current search query; empty means no filter.
    pub search_query: String,
    /// Whether the search also matches body text.
    pub search_includes_body: bool,
    /// Whether the help overlay is shown.
    pub show_help: bool,
    /// Whether the background watcher is alive, for display only.
    pub watcher_active: bool,
}

impl App {
    /// The per-mailbox arrays have their four slots and the selection is
    /// in bounds (or zero on an empty list).
    pub open spec fn wf(self) -> bool {
        &&& self.mailbox_counts@.len() == 4
        &&& self.mailbox_dirs@.len() == 4
        &&& self.email_cache@.len() == 4
        &&& self.sidebar_index < 4
        &&& if self.emails@.len() == 0 {
            self.list_index == 0
        } else {
            self.list_index < self.emails@.len()
        }
    }

    /// The cache slot of a mailbox.
    pub open spec fn slot(self, mailbox: Mailbox) -> Option<Vec<EmailEntry>> {
        self.email_cache@[mailbox.spec_index()]
    }

    /// The cached entries of a mailbox; empty when the slot is cold.
    pub open spec fn slot_seq(self, mailbox: Mailbox) -> Seq<EmailEntry> {
        match self.slot(mailbox) {
            Some(v) => v@,
            None => Seq::empty(),
        }
    }

    /// A fresh state: the inbox active and its given entries cached, no
    /// overlay, no search, nothing pending.
    pub fn new(dirs: Vec<Option<String>>, counts: Vec<usize>, inbox: Vec<EmailEntry>) -> (r: App)
        requires
            dirs@.len() == 4,
            counts@.len() == 4,
        ensures
            r.wf(),
            r.focus == Focus::List,
            r.running == true,
            r.sidebar_index == 0,
            r.active_mailbox == Mailbox::Inbox,
            r.mailbox_counts == counts,
            r.mailbox_dirs == dirs,
            r.emails@ == inbox@,
            r.slot(Mailbox::Inbox) matches Some(v) && v@ == inbox@,
            forall|m: Mailbox| m != Mailbox::Inbox ==> r.slot(m) is None,
            r.list_index == 0,
            r.g_pending == false,
            r.preview_scroll == 0,
            r.pending_action is None,
            r.pending_load is None,
            r.confirm_dialog is None,
            r.status_message is None,
            r.status_ticks == 0,
            r.search_query@ == Seq::<char>::empty(),
            r.search_includes_body == false,
            r.show_help == false,
            r.watcher_active == false,
            r.terminal_width == 0 && r.terminal_height == 0,
    {
        let cached = clone_entries(&inbox);
        let mut cache: Vec<Option<Vec<EmailEntry>>> = Vec::new();
        cache.push(Some(cached));
        cache.push(None);
        cache.push(None);
        cache.push(None);
        App {
            focus: Focus::List,
            running: true,
            terminal_width: 0,
            terminal_height: 0,
            sidebar_index: 0,
            active_mailbox: Mailbox::Inbox,
            mailbox_counts: counts,
            mailbox_dirs: dirs,
            emails: inbox,
            list_index: 0,
            g_pending: false,
            preview_scroll: 0,
            email_cache: cache,
            pending_action: None,
            pending_load: None,
            confirm_dialog: None,
            status_message: None,
            status_ticks: 0,
            search_query: String::new(),
            search_includes_body: false,
            show_help: false,
            watcher_active: false,
        }
    }

    /// Set a status bar message that expires after about three seconds.
    pub fn set_status(&mut self, msg: String)
        ensures
            *final(self) == (App { status_message: Some(msg), status_ticks: 12u8, ..*old(self) }),
    {
        self.status_message = Some(msg);
        self.status_ticks = 12;
    }

    /// Count the status message down one tick; it clears on reaching zero.
    pub fn tick_status(&mut self)
        ensures
            old(self).status_ticks == 0 ==> *final(self) == *old(self),
            old(self).status_ticks == 1 ==> *final(self) == (App {
                status_message: None,
                status_ticks: 0u8,
                ..*old(self)
            }),
            old(self).status_ticks > 1 ==> *final(self) == (App {
                status_ticks: (old(self).status_ticks - 1) as u8,
                ..*old(self)
            }),
    {
        if self.status_ticks > 0 {
            self.status_ticks = self.status_ticks - 1;
            if self.status_ticks == 0 {
                self.status_message = None;
            }
        }
    }

    /// The selected entry, when the list has one.
    pub fn selected_email(&self) -> (r: Option<&EmailEntry>)
        ensures
            self.list_index < self.emails@.len() ==> (r matches Some(e) && *e == self.emails@[self.list_index as int]),
            self.list_index >= self.emails@.len() ==> r is None,
    {
        if self.list_index < self.emails.len() {
            Some(&self.emails[self.list_index])
        } else {
            None
        }
    }

    /// The file path of the selected entry.
    pub fn selected_email_path(&self) -> (r: Option<String>)
        ensures
            self.list_index < self.emails@.len() ==> (r matches Some(p) && p@
                == self.emails@[self.list_index as int].path@),
            self.list_index >= self.emails@.len() ==> r is None,
    {
        match self.selected_email() {
            Some(e) => Some(e.path.clone()),
            None => None,
        }
    }

    /// Drop the cached entries of one mailbox, so its next visit reloads.
    pub fn invalidate_cache(&mut self, mailbox: Mailbox)
        requires
            old(self).wf(),
        ensures
            final(self).wf(),
            final(self).email_cache@ == old(self).email_cache@.update(mailbox.spec_index(), None::<
                Vec<EmailEntry>,
            >),
            same_but_cache(*old(self), *final(self)),
    {
        let idx = mailbox.index();
        self.email_cache[idx] = None;
    }

    /// Drop every cached entry list.
    pub fn invalidate_all_caches(&mut self)
        requires
            old(self).wf(),
        ensures
            final(self).wf(),
            forall|m: Mailbox| final(self).slot(m) is None,
            final(self).email_cache@.len() == 4,
            same_but_cache(*old(self), *final(self)),
    {
        let mut cache: Vec<Option<Vec<EmailEntry>>> = Vec::new();
        cache.push(None);
        cache.push(None);
        cache.push(None);
        cache.push(None);
        self.email_cache = cache;
        proof {
            assert forall|m: Mailbox| self.slot(m) is None by {
                assert(0 <= m.spec_index() < 4);
            }
        }
    }

    /// The cached list of a mailbox when it is warm — the state does not
    /// change and no load is requested; a cold slot records a load
    /// request instead. This is the only cache-fill policy.
    pub fn get_or_load(&mut self, mailbox: Mailbox) -> (r: Option<Vec<EmailEntry>>)
        requires
            old(self).wf(),
        ensures
            final(self).wf(),
            get_or_load_rel(*old(self), mailbox, *final(self), opt_entries_view(r)),
    {
        let idx = mailbox.index();
        match &self.email_cache[idx] {
            Some(cached) => Some(clone_entries(cached)),
            None => {
                self.pending_load = Some(LoadRequest { mailbox, refresh_counts: false });
                None
            },
        }
    }

    /// Install a freshly loaded entry list: cache it, set the mailbox's
    /// count to the loaded length, and — when the mailbox is the active
    /// one — put it on display with the selection reclamped into the new
    /// bounds (entries may have disappeared). Clears the pending load
    /// request.
    pub fn install_entries(&mut self, mailbox: Mailbox, entries: Vec<EmailEntry>)
        requires
            old(self).wf(),
        ensures
            final(self).wf(),
            final(self).slot(mailbox) matches Some(v) && v@ == entries@,
            forall|m: Mailbox| m != mailbox ==> final(self).slot(m) == old(self).slot(m),
            final(self).email_cache@.len() == 4,
            final(self).mailbox_counts@ == old(self).mailbox_counts@.update(
                mailbox.spec_index(),
                entries@.len() as usize,
            ),
            final(self).pending_load is None,
            old(self).active_mailbox == mailbox ==> final(self).emails@ == entries@
                && final(self).list_index as int == clamp_index(
                old(self).list_index as int,
                entries@.len() as int,
            ) && final(self).preview_scroll == 0,
            old(self).active_mailbox != mailbox ==> final(self).emails == old(self).emails
                && final(self).list_index == old(self).list_index && final(self).preview_scroll
                == old(self).preview_scroll,
            same_but_store_view(*old(self), *final(self)),
    {
        let idx = mailbox.index();
        let cached = clone_entries(&entries);
        self.email_cache[idx] = Some(cached);
        self.mailbox_counts[idx] = entries.len();
        self.pending_load = None;
        if self.active_mailbox == mailbox {
            let len = entries.len();
            self.emails = entries;
            if len == 0 {
                self.list_index = 0;
            } else if self.list_index >= len {
                self.list_index = len - 1;
            }
            self.preview_scroll = 0;
        }
        proof {
            assert forall|m: Mailbox| m != mailbox implies self.slot(m) == old(self).slot(m) by {
                assert(m.spec_index() != mailbox.spec_index());
            }
        }
    }

    /// Replace every mailbox count, as a fresh disk scan reports them.
    pub fn set_counts(&mut self, counts: Vec<usize>)
        requires
            counts@.len() == 4,
        ensures
            *final(self) == (App { mailbox_counts: counts, ..*old(self) }),
    {
        self.mailbox_counts = counts;
    }

    /// Show the full cached list of the active mailbox again (a cold slot
    /// leaves the list as it is), with selection and scroll reset. Never
    /// touches the cache.
    pub fn reload_from_cache(&mut self)
        requires
            old(self).wf(),
        ensures
            final(self).wf(),
            old(self).slot(old(self).active_mailbox) is Some ==> final(self).emails@ == old(
                self,
            ).slot_seq(old(self).active_mailbox),
            old(self).slot(old(self).active_mailbox) is None ==> final(self).emails == old(
                self,
            ).emails,
            final(self).list_index == 0,
            final(self).preview_scroll == 0,
            same_but_view_sel(*old(self), *final(self)),
    {
        let idx = self.active_mailbox.index();
        match &self.email_cache[idx] {
            Some(cached) => {
                self.emails = clone_entries(cached);
            },
            None => {},
        }
        self.list_index = 0;
        self.preview_scroll = 0;
    }

    /// Recompute the displayed list from the cache and the current query:
    /// an empty query shows everything, any other query its matching
    /// subset; selection and scroll reset. A pure projection — the cache
    /// itself never changes.
    pub fn apply_search_filter(&mut self)
        requires
            old(self).wf(),
        ensures
            final(self).wf(),
            final(self).emails@ == visible_entries(
                old(self).slot_seq(old(self).active_mailbox),
                old(self).active_mailbox,
                old(self).search_query@,
                old(self).search_includes_body,
            ),
            final(self).list_index == 0,
            final(self).preview_scroll == 0,
            same_but_view_sel(*old(self), *final(self)),
    {
        let idx = self.active_mailbox.index();
        let base = match &self.email_cache[idx] {
            Some(v) => clone_entries(v),
            None => Vec::new(),
        };
        if self.search_query.as_str().is_empty() {
            self.emails = base;
        } else {
            let mailbox = self.active_mailbox;
            let with_body = self.search_includes_body;
            let lowered = to_lowercase_str(self.search_query.as_str());
            let ql = str_to_chars(lowered.as_str());
            let ghost qv = lower_of(old(self).search_query@);
            let mut out: Vec<EmailEntry> = Vec::new();
            let mut i: usize = 0;
            proof {
                assert(base@.subrange(0, 0) =~= Seq::<EmailEntry>::empty());
            }
            while i < base.len()
                invariant
                    i <= base@.len(),
                    ql@ == qv,
                    out@ == filtered_entries(base@.subrange(0, i as int), mailbox, qv, with_body),
                decreases base@.len() - i,
            {
                proof {
                    assert(base@.subrange(0, i as int + 1).drop_last() =~= base@.subrange(
                        0,
                        i as int,
                    ));
                    assert(base@.subrange(0, i as int + 1).last() == base@[i as int]);
                }
                if entry_matches_exec(&base[i], mailbox, &ql, with_body) {
                    out.push(clone_entry(&base[i]));
                }
                i += 1;
            }
            proof {
                assert(base@.subrange(0, base@.len() as int) =~= base@);
            }
            self.emails = out;
        }
        self.list_index = 0;
        self.preview_scroll = 0;
    }

    /// Make a mailbox active: clear the search, reset selection and
    /// scroll, and show its cached entries — or record a load request
    /// when the cache is cold.
    pub fn switch_mailbox(&mut self, mailbox: Mailbox)
        requires
            old(self).wf(),
        ensures
            final(self).wf(),
            switch_rel(*old(self), mailbox, *final(self)),
    {
        self.active_mailbox = mailbox;
        self.search_query = String::new();
        self.search_includes_body = false;
        match self.get_or_load(mailbox) {
            Some(v) => {
                let idx = mailbox.index();
                self.mailbox_counts[idx] = v.len();
                self.emails = v;
            },
            None => {
                self.emails = Vec::new();
            },
        }
        self.list_index = 0;
        self.preview_scroll = 0;
    }

    /// Drop the active mailbox's cache and request a fresh load with a
    /// count refresh. The search clears; the displayed list and the
    /// selection stand until the entries arrive, so the install can
    /// reclamp the selection into the fresh bounds rather than lose it.
    pub fn reload_current_mailbox(&mut self)
        requires
            old(self).wf(),
        ensures
            final(self).wf(),
            reload_rel(*old(self), *final(self)),
    {
        let active = self.active_mailbox;
        self.invalidate_cache(active);
        self.search_query = String::new();
        self.search_includes_body = false;
        self.pending_load = Some(LoadRequest { mailbox: active, refresh_counts: true });
    }

    /// Process one message and possibly hand back a follow-up message for
    /// the same tick.
    pub fn update(&mut self, msg: Message) -> (r: Option<Message>)
        requires
            old(self).wf(),
        ensures
            final(self).wf(),
            match msg {
                Message::Key(key) => key_step(*old(self), key, *final(self), r),
                Message::Resize(w, h) => *final(self) == (App {
                    terminal_width: w,
                    terminal_height: h,
                    ..*old(self)
                }) && r is None,
                Message::Quit => *final(self) == (App { running: false, ..*old(self) }) && r
                    is None,
                Message::MailboxChanged => reload_rel(*old(self), *final(self)) && r is None,
            },
    {
        match msg {
            Message::Key(key) => self.handle_key(key),
            Message::Resize(w, h) => {
                self.terminal_width = w;
                self.terminal_height = h;
                None
            },
            Message::Quit => {
                self.running = false;
                None
            },
            Message::MailboxChanged => {
                self.reload_current_mailbox();
                None
            },
        }
    }

    /// Route one key: an open dialog takes every key, then the help
    /// overlay, then search editing, then the global keys, then the
    /// focused pane.
    pub fn handle_key(&mut self, key: Key) -> (r: Option<Message>)
        requires
            old(self).wf(),
        ensures
            final(self).wf(),
            key_step(*old(self), key, *final(self), r),
    {
        if self.confirm_dialog.is_some() {
            return self.handle_confirm_key(key);
        }
        if self.show_help {
            return self.handle_help_key(key);
        }
        if self.focus == Focus::Search {
            return self.handle_search_key(key);
        }
        match key {
            Key::Char('q') => {
                return Some(Message::Quit);
            },
            Key::Char('?') => {
                self.g_pending = false;
                self.show_help = true;
                return None;
            },
            Key::Char('/') => {
                self.g_pending = false;
                self.focus = Focus::Search;
                self.search_query = String::new();
                self.search_includes_body = false;
                self.reload_from_cache();
                return None;
            },
            Key::Char('\\') => {
                self.g_pending = false;
                self.focus = Focus::Search;
                self.search_query = String::new();
                self.search_includes_body = true;
                self.reload_from_cache();
                return None;
            },
            Key::Char('1') => {
                self.g_pending = false;
                self.sidebar_index = 0;
                self.switch_mailbox(Mailbox::Inbox);
                self.focus = Focus::List;
                return None;
            },
            Key::Char('2') => {
                self.g_pending = false;
                self.sidebar_index = 1;
                self.switch_mailbox(Mailbox::Drafts);
                self.focus = Focus::List;
                return None;
            },
            Key::Char('3') => {
                self.g_pending = false;
                self.sidebar_index = 2;
                self.switch_mailbox(Mailbox::Sent);
                self.focus = Focus::List;
                return None;
            },
            Key::Char('4') => {
                self.g_pending = false;
                self.sidebar_index = 3;
                self.switch_mailbox(Mailbox::Archive);
                self.focus = Focus::List;
                return None;
            },
            Key::Char('s') => {
                self.g_pending = false;
                self.focus = Focus::Sidebar;
                return None;
            },
            Key::Tab => {
                self.g_pending = false;
                self.focus = cycle_forward_exec(self.focus);
                return None;
            },
            Key::BackTab => {
                self.g_pending = false;
                self.focus = cycle_backward_exec(self.focus);
                return None;
            },
            _ => {},
        }
        match self.focus {
            Focus::Sidebar => self.handle_sidebar_key(key),
            Focus::List => self.handle_list_key(key),
            Focus::Preview => self.handle_preview_key(key),
            Focus::Search => None,
        }
    }

    /// Keys while the confirmation dialog is open: yes queues the guarded
    /// action, no dismisses, anything else is swallowed. Confirming
    /// queues exactly the action the dialog's tag names; declining queues
    /// nothing at all.
    fn handle_confirm_key(&mut self, key: Key) -> (r: Option<Message>)
        requires
            old(self).wf(),
        ensures
            final(self).wf(),
            confirm_step(*old(self), key, *final(self)),
            (old(self).confirm_dialog is Some && (key == Key::Char('y') || key == Key::Enter))
                ==> final(self).confirm_dialog is None && final(self).pending_action == Some(
                action_of_confirm(old(self).confirm_dialog->Some_0.action),
            ),
            (old(self).confirm_dialog is Some && (key == Key::Char('n') || key == Key::Esc))
                ==> final(self).confirm_dialog is None && final(self).pending_action == old(
                self,
            ).pending_action,
            r is None,
    {
        match key {
            Key::Char('y') | Key::Enter => {
                match &self.confirm_dialog {
                    Some(dialog) => {
                        self.pending_action = Some(
                            match dialog.action {
                                ConfirmAction::Archive => Action::Archive,
                                ConfirmAction::Delete => Action::Delete,
                                ConfirmAction::Send => Action::Send,
                                ConfirmAction::SendApproved => Action::SendApproved,
                            },
                        );
                        self.confirm_dialog = None;
                    },
                    None => {},
                }
            },
            Key::Char('n') | Key::Esc => {
                self.confirm_dialog = None;
            },
            _ => {},
        }
        None
    }

    /// Keys while the help overlay is open: `?` or escape closes it,
    /// everything else is swallowed.
    fn handle_help_key(&mut self, key: Key) -> (r: Option<Message>)
        requires
            old(self).wf(),
        ensures
            final(self).wf(),
            help_step(*old(self), key, *final(self)),
            r is None,
    {
        match key {
            Key::Char('?') | Key::Esc => {
                self.show_help = false;
            },
            _ => {},
        }
        None
    }

    /// Keys while the search bar edits: characters extend the query and
    /// re-filter, backspace shortens it, enter commits, escape cancels.
    /// Tab and back-tab fall through to the list (the search bar is not
    /// part of the focus ring), keeping the query and the filter.
    fn handle_search_key(&mut self, key: Key) -> (r: Option<Message>)
        requires
            old(self).wf(),
        ensures
            final(self).wf(),
            search_step(*old(self), key, *final(self)),
            r is None,
    {
        match key {
            Key::Enter | Key::Tab | Key::BackTab => {
                self.focus = Focus::List;
            },
            Key::Esc => {
                self.search_query = String::new();
                self.search_includes_body = false;
                self.reload_from_cache();
                self.focus = Focus::List;
            },
            Key::Char(c) => {
                crate::text::push_char(&mut self.search_query, c);
                self.apply_search_filter();
            },
            Key::Backspace => {
                crate::text::pop_char(&mut self.search_query);
                self.apply_search_filter();
            },
            _ => {},
        }
        None
    }

    /// Sidebar keys: move the highlight, confirm a mailbox, or go back.
    fn handle_sidebar_key(&mut self, key: Key) -> (r: Option<Message>)
        requires
            old(self).wf(),
        ensures
            final(self).wf(),
            sidebar_step(*old(self), key, *final(self)),
            r is None,
    {
        self.g_pending = false;
        match key {
            Key::Char('j') | Key::Down => {
                if self.sidebar_index < 3 {
                    self.sidebar_index = self.sidebar_index + 1;
                }
                None
            },
            Key::Char('k') | Key::Up => {
                if self.sidebar_index > 0 {
                    self.sidebar_index = self.sidebar_index - 1;
                }
                None
            },
            Key::Enter | Key::Char('l') => {
                let mailbox = Mailbox::from_index(self.sidebar_index);
                proof {
                    assert(mailbox == mailbox_at(old(self).sidebar_index as int));
                }
                self.switch_mailbox(mailbox);
                self.focus = Focus::List;
                None
            },
            Key::Esc | Key::Char('h') => {
                self.focus = Focus::List;
                None
            },
            _ => None,
        }
    }

    /// List keys: navigation, the `gg`/`G` jumps, focus moves, direct
    /// actions, and the four confirmed actions. An empty list keeps only
    /// fetch, sync and new-draft.
    fn handle_list_key(&mut self, key: Key) -> (r: Option<Message>)
        requires
            old(self).wf(),
        ensures
            final(self).wf(),
            list_step(*old(self), key, *final(self)),
            r is None,
    {
        if self.emails.len() == 0 {
            self.g_pending = false;
            match key {
                Key::Char('f') => {
                    self.pending_action = Some(Action::Fetch);
                },
                Key::Char('F') => {
                    self.pending_action = Some(Action::Sync);
                },
                Key::Char('n') => {
                    self.pending_action = Some(Action::NewDraft);
                },
                _ => {},
            }
            return None;
        }
        let old_index = self.list_index;
        match key {
            Key::Char('g') => {
                if self.g_pending {
                    self.list_index = 0;
                    self.g_pending = false;
                } else {
                    self.g_pending = true;
                }
            },
            Key::Char('G') => {
                self.g_pending = false;
                self.list_index = self.emails.len() - 1;
            },
            Key::Char('j') | Key::Down => {
                self.g_pending = false;
                if self.list_index < self.emails.len() - 1 {
                    self.list_index = self.list_index + 1;
                }
            },
            Key::Char('k') | Key::Up => {
                self.g_pending = false;
                if self.list_index > 0 {
                    self.list_index = self.list_index - 1;
                }
            },
            Key::Char('h') => {
                self.g_pending = false;
                self.focus = Focus::Sidebar;
            },
            Key::Char('l') => {
                self.g_pending = false;
                self.focus = Focus::Preview;
            },
            Key::Enter | Key::Char('e') => {
                self.g_pending = false;
                self.pending_action = Some(Action::EditCurrent);
            },
            Key::Char('r') => {
                self.g_pending = false;
                self.pending_action = Some(Action::Reply(false));
            },
            Key::Char('R') => {
                self.g_pending = false;
                self.pending_action = Some(Action::Reply(true));
            },
            Key::Char('a') => {
                self.g_pending = false;
                let email = &self.emails[self.list_index];
                let detail = email.from.clone().concat(" - ").concat(email.subject.as_str());
                self.confirm_dialog = Some(
                    ConfirmDialog {
                        title: String::from_str("Archive this email?"),
                        detail,
                        action: ConfirmAction::Archive,
                    },
                );
            },
            Key::Char('d') => {
                self.g_pending = false;
                let email = &self.emails[self.list_index];
                let detail = email.from.clone().concat(" - ").concat(email.subject.as_str());
                self.confirm_dialog = Some(
                    ConfirmDialog {
                        title: String::from_str("Delete this email?"),
                        detail,
                        action: ConfirmAction::Delete,
                    },
                );
            },
            Key::Char('A') => {
                self.g_pending = false;
                self.pending_action = Some(Action::Approve);
            },
            Key::Char('x') => {
                self.g_pending = false;
                let email = &self.emails[self.list_index];
                let detail = String::from_str("To: ").concat(email.to.as_str()).concat(
                    " - ",
                ).concat(email.subject.as_str());
                self.confirm_dialog = Some(
                    ConfirmDialog {
                        title: String::from_str("Send this email?"),
                        detail,
                        action: ConfirmAction::Send,
                    },
                );
            },
            Key::Char('X') => {
                self.g_pending = false;
                let detail = String::from_str("In ").concat(self.active_mailbox.label());
                self.confirm_dialog = Some(
                    ConfirmDialog {
                        title: String::from_str("Send all approved emails?"),
                        detail,
                        action: ConfirmAction::SendApproved,
                    },
                );
            },
            Key::Char('y') => {
                self.g_pending = false;
                self.pending_action = Some(Action::CopyPath);
            },
            Key::Char('n') => {
                self.g_pending = false;
                self.pending_action = Some(Action::NewDraft);
            },
            Key::Char('f') => {
                self.g_pending = false;
                self.pending_action = Some(Action::Fetch);
            },
            Key::Char('F') => {
                self.g_pending = false;
                self.pending_action = Some(Action::Sync);
            },
            _ => {
                self.g_pending = false;
            },
        }
        if self.list_index != old_index {
            self.preview_scroll = 0;
        }
        None
    }

    /// Preview keys: scroll by line or by half page, or go back to the
    /// list.
    fn handle_preview_key(&mut self, key: Key) -> (r: Option<Message>)
        requires
            old(self).wf(),
        ensures
            final(self).wf(),
            preview_step(*old(self), key, *final(self)),
            r is None,
    {
        self.g_pending = false;
        match key {
            Key::Char('j') | Key::Down => {
                self.preview_scroll = sat_add_u16(self.preview_scroll, 1);
                None
            },
            Key::Char('k') | Key::Up => {
                self.preview_scroll = sat_sub_u16(self.preview_scroll, 1);
                None
            },
            Key::Char('d') => {
                self.preview_scroll = sat_add_u16(self.preview_scroll, 10);
                None
            },
            Key::Char('u') => {
                self.preview_scroll = sat_sub_u16(self.preview_scroll, 10);
                None
            },
            Key::Esc | Key::Char('h') => {
                self.focus = Focus::List;
                None
            },
            _ => None,
        }
    }

    /// Drop every cache slot and reload the active mailbox.
    fn clear_all_and_reload(&mut self)
        requires
            old(self).wf(),
        ensures
            final(self).wf(),
            cache_all_cleared(*final(self)),
            reloaded_view(*old(self), *final(self)),
            final(self).status_message == old(self).status_message,
            final(self).status_ticks == old(self).status_ticks,
            finish_frame(*old(self), *final(self)),
    {
        let ghost pre = *self;
        self.invalidate_all_caches();
        let ghost mid = *self;
        self.reload_current_mailbox();
        proof {
            assert forall|m: Mailbox| self.slot(m) is None by {
                assert(mid.slot(m) is None);
                assert(0 <= m.spec_index() < 4);
            }
        }
    }

    /// Land one action's outcome in the state: set the status message the
    /// action owes (success and failure alike), drop the caches it
    /// staled, and reload the active mailbox where the original does. A
    /// reply invalidates the drafts cache whether or not the editor stage
    /// succeeded, since the draft file already exists on disk.
    pub fn finish_action(&mut self, action: Action, result: ActionResult)
        requires
            old(self).wf(),
        ensures
            final(self).wf(),
            finish_rel(*old(self), action, result, *final(self)),
    {
        match action {
            Action::EditCurrent => {
                match &result {
                    ActionResult::Done(_) | ActionResult::EditorDone => {
                        self.set_status(String::from_str("Returned from editor"));
                    },
                    ActionResult::Failed(e) | ActionResult::EditorFailed(e) => {
                        let m = prefixed("Edit failed: ", e.as_str());
                        self.set_status(m);
                    },
                }
                self.reload_current_mailbox();
            },
            Action::Reply(_) => {
                match &result {
                    ActionResult::Done(_) | ActionResult::EditorDone => {
                        self.set_status(String::from_str("Reply draft ready"));
                        self.invalidate_cache(Mailbox::Drafts);
                    },
                    ActionResult::EditorFailed(e) => {
                        let m = prefixed("Editor failed: ", e.as_str());
                        self.set_status(m);
                        self.invalidate_cache(Mailbox::Drafts);
                    },
                    ActionResult::Failed(e) => {
                        let m = prefixed("Reply failed: ", e.as_str());
                        self.set_status(m);
                    },
                }
                self.reload_current_mailbox();
            },
            Action::Send => {
                match &result {
                    ActionResult::Done(m) => {
                        let msg = msg_or_default(m, "Email sent");
                        self.set_status(msg);
                        self.clear_all_and_reload();
                        return ;
                    },
                    ActionResult::EditorDone => {
                        self.set_status(String::from_str("Email sent"));
                        self.clear_all_and_reload();
                        return ;
                    },
                    ActionResult::Failed(e) | ActionResult::EditorFailed(e) => {
                        let m = prefixed("Send failed: ", e.as_str());
                        self.set_status(m);
                    },
                }
                self.reload_current_mailbox();
            },
            Action::SendApproved => {
                match &result {
                    ActionResult::Done(m) => {
                        let msg = msg_or_default(m, "Approved emails sent");
                        self.set_status(msg);
                        self.clear_all_and_reload();
                        return ;
                    },
                    ActionResult::EditorDone => {
                        self.set_status(String::from_str("Approved emails sent"));
                        self.clear_all_and_reload();
                        return ;
                    },
                    ActionResult::Failed(e) | ActionResult::EditorFailed(e) => {
                        let m = prefixed("Send-approved failed: ", e.as_str());
                        self.set_status(m);
                    },
                }
                self.reload_current_mailbox();
            },
            Action::NewDraft => {
                match &result {
                    ActionResult::Done(m) => {
                        self.set_status(m.clone());
                        self.invalidate_cache(Mailbox::Drafts);
                        self.reload_current_mailbox();
                    },
                    ActionResult::EditorDone => {
                        self.set_status(String::new());
                        self.invalidate_cache(Mailbox::Drafts);
                        self.reload_current_mailbox();
                    },
                    ActionResult::Failed(e) | ActionResult::EditorFailed(e) => {
                        let m = prefixed("New draft failed: ", e.as_str());
                        self.set_status(m);
                    },
                }
            },
            Action::Approve => {
                match &result {
                    ActionResult::Done(m) => {
                        self.set_status(m.clone());
                        self.reload_current_mailbox();
                    },
                    ActionResult::EditorDone => {
                        self.set_status(String::new());
                        self.reload_current_mailbox();
                    },
                    ActionResult::Failed(e) | ActionResult::EditorFailed(e) => {
                        let m = prefixed("Approve failed: ", e.as_str());
                        self.set_status(m);
                    },
                }
            },
            Action::Archive => {
                match &result {
                    ActionResult::Done(m) => {
                        let msg = msg_or_default(m, "Email archived");
                        self.set_status(msg);
                        self.invalidate_cache(Mailbox::Archive);
                        self.reload_current_mailbox();
                    },
                    ActionResult::EditorDone => {
                        self.set_status(String::from_str("Email archived"));
                        self.invalidate_cache(Mailbox::Archive);
                        self.reload_current_mailbox();
                    },
                    ActionResult::Failed(e) | ActionResult::EditorFailed(e) => {
                        let m = prefixed("Archive failed: ", e.as_str());
                        self.set_status(m);
                    },
                }
            },
            Action::Delete => {
                match &result {
                    ActionResult::Done(m) => {
                        let msg = msg_or_default(m, "Email deleted");
                        self.set_status(msg);
                        self.reload_current_mailbox();
                    },
                    ActionResult::EditorDone => {
                        self.set_status(String::from_str("Email deleted"));
                        self.reload_current_mailbox();
                    },
                    ActionResult::Failed(e) | ActionResult::EditorFailed(e) => {
                        let m = prefixed("Delete failed: ", e.as_str());
                        self.set_status(m);
                    },
                }
            },
            Action::CopyPath => {
                match &result {
                    ActionResult::Done(_) | ActionResult::EditorDone => {
                        self.set_status(String::from_str("Path copied to clipboard"));
                    },
                    ActionResult::Failed(e) | ActionResult::EditorFailed(e) => {
                        let m = prefixed("Copy failed: ", e.as_str());
                        self.set_status(m);
                    },
                }
            },
            Action::Fetch => {
                match &result {
                    ActionResult::Done(m) => {
                        let msg = msg_or_default(m, "Fetch complete");
                        self.set_status(msg);
                        self.clear_all_and_reload();
                    },
                    ActionResult::EditorDone => {
                        self.set_status(String::from_str("Fetch complete"));
                        self.clear_all_and_reload();
                    },
                    ActionResult::Failed(e) | ActionResult::EditorFailed(e) => {
                        let m = prefixed("Fetch failed: ", e.as_str());
                        self.set_status(m);
                    },
                }
            },
            Action::Sync => {
                match &result {
                    ActionResult::Done(m) => {
                        let msg = msg_or_default(m, "Sync complete");
                        self.set_status(msg);
                        self.clear_all_and_reload();
                    },
                    ActionResult::EditorDone => {
                        self.set_status(String::from_str("Sync complete"));
                        self.clear_all_and_reload();
                    },
                    ActionResult::Failed(e) | ActionResult::EditorFailed(e) => {
                        let m = prefixed("Sync failed: ", e.as_str());
                        self.set_status(m);
                    },
                }
            },
        }
    }
}

/// An action-failure status line: the failing stage's name, then the
/// error text.
fn prefixed(prefix: &str, e: &str) -> (r: String)
    ensures
        r@ == prefix@ + e@,
{
    String::from_str(prefix).concat(e)
}

/// A captured output, or the default text when the output is empty.
fn msg_or_default(m: &String, dflt: &str) -> (r: String)
    ensures
        r@ == msg_or(m@, dflt@),
{
    if m.as_str().is_empty() {
        String::from_str(dflt)
    } else {
        m.clone()
    }
}

/// Whether an entry matches a lowercased query: its subject, displayed
/// contact, display date, sender or recipient contains it, or — when body
/// search is on — its body does.
pub open spec fn entry_matches(e: EmailEntry, mailbox: Mailbox, ql: Seq<char>, with_body: bool) -> bool {
    ||| has_substr(lower_of(e.subject@), ql)
    ||| has_substr(lower_of(spec_contact(&e, mailbox)), ql)
    ||| has_substr(lower_of(e.date_display@), ql)
    ||| has_substr(lower_of(e.from@), ql)
    ||| has_substr(lower_of(e.to@), ql)
    ||| (with_body && has_substr(lower_of(e.body@), ql))
}

/// The matching entries, in their original order.
pub open spec fn filtered_entries(
    base: Seq<EmailEntry>,
    mailbox: Mailbox,
    ql: Seq<char>,
    with_body: bool,
) -> Seq<EmailEntry>
    decreases base.len(),
{
    if base.len() == 0 {
        Seq::empty()
    } else {
        let rest = filtered_entries(base.drop_last(), mailbox, ql, with_body);
        if entry_matches(base.last(), mailbox, ql, with_body) {
            rest.push(base.last())
        } else {
            rest
        }
    }
}

/// What the list shows under a query: everything when the query is empty,
/// else the subset matching the lowercased query.
pub open spec fn visible_entries(
    base: Seq<EmailEntry>,
    mailbox: Mailbox,
    q: Seq<char>,
    with_body: bool,
) -> Seq<EmailEntry> {
    if q.len() == 0 {
        base
    } else {
        filtered_entries(base, mailbox, lower_of(q), with_body)
    }
}

/// Executable query match on one entry.
fn entry_matches_exec(e: &EmailEntry, mailbox: Mailbox, ql: &Vec<char>, with_body: bool) -> (r:
    bool)
    ensures
        r == entry_matches(*e, mailbox, ql@, with_body),
{
    let subject = to_lowercase_str(e.subject.as_str());
    if contains_chars(&str_to_chars(subject.as_str()), ql) {
        return true;
    }
    let contact = to_lowercase_str(e.display_contact(mailbox));
    if contains_chars(&str_to_chars(contact.as_str()), ql) {
        return true;
    }
    let date = to_lowercase_str(e.date_display.as_str());
    if contains_chars(&str_to_chars(date.as_str()), ql) {
        return true;
    }
    let from = to_lowercase_str(e.from.as_str());
    if contains_chars(&str_to_chars(from.as_str()), ql) {
        return true;
    }
    let to = to_lowercase_str(e.to.as_str());
    if contains_chars(&str_to_chars(to.as_str()), ql) {
        return true;
    }
    if with_body {
        let body = to_lowercase_str(e.body.as_str());
        if contains_chars(&str_to_chars(body.as_str()), ql) {
            return true;
        }
    }
    false
}

/// The action a confirmed dialog queues.
pub open spec fn action_of_confirm(c: ConfirmAction) -> Action {
    match c {
        ConfirmAction::Archive => Action::Archive,
        ConfirmAction::Delete => Action::Delete,
        ConfirmAction::Send => Action::Send,
        ConfirmAction::SendApproved => Action::SendApproved,
    }
}

/// The next pane in the focus ring.
pub open spec fn cycle_forward(f: Focus) -> Focus {
    match f {
        Focus::Sidebar => Focus::List,
        Focus::List => Focus::Preview,
        Focus::Preview => Focus::Sidebar,
        Focus::Search => Focus::List,
    }
}

/// The previous pane in the focus ring.
pub open spec fn cycle_backward(f: Focus) -> Focus {
    match f {
        Focus::Sidebar => Focus::Preview,
        Focus::List => Focus::Sidebar,
        Focus::Preview => Focus::List,
        Focus::Search => Focus::List,
    }
}

fn cycle_forward_exec(f: Focus) -> (r: Focus)
    ensures
        r == cycle_forward(f),
{
    match f {
        Focus::Sidebar => Focus::List,
        Focus::List => Focus::Preview,
        Focus::Preview => Focus::Sidebar,
        Focus::Search => Focus::List,
    }
}

fn cycle_backward_exec(f: Focus) -> (r: Focus)
    ensures
        r == cycle_backward(f),
{
    match f {
        Focus::Sidebar => Focus::Preview,
        Focus::List => Focus::Sidebar,
        Focus::Preview => Focus::List,
        Focus::Search => Focus::List,
    }
}

/// The mailbox a sidebar slot names.
pub open spec fn mailbox_at(i: int) -> Mailbox {
    if i == 0 {
        Mailbox::Inbox
    } else if i == 1 {
        Mailbox::Drafts
    } else if i == 2 {
        Mailbox::Sent
    } else {
        Mailbox::Archive
    }
}

/// Addition on a scroll offset, stopping at the top of the range.
pub open spec fn add16_sat(x: int, d: int) -> int {
    if x + d > 0xffff {
        0xffff
    } else {
        x + d
    }
}

/// A selection index forced into the bounds of a list: unchanged while it
/// fits, the last slot when the list shrank past it, zero when the list
/// is empty.
pub open spec fn clamp_index(i: int, len: int) -> int {
    if len == 0 {
        0
    } else if i < len {
        i
    } else {
        len - 1
    }
}

/// Subtraction on a scroll offset, stopping at zero.
pub open spec fn sub16_sat(x: int, d: int) -> int {
    if x - d < 0 {
        0
    } else {
        x - d
    }
}

fn sat_add_u16(x: u16, d: u16) -> (r: u16)
    ensures
        r as int == add16_sat(x as int, d as int),
{
    if x > 0xffffu16 - d {
        0xffff
    } else {
        x + d
    }
}

fn sat_sub_u16(x: u16, d: u16) -> (r: u16)
    ensures
        r as int == sub16_sat(x as int, d as int),
{
    if x < d {
        0
    } else {
        x - d
    }
}

/// The keys every non-overlay, non-search pane answers to.
pub open spec fn is_global_key(key: Key) -> bool {
    ||| key == Key::Char('q')
    ||| key == Key::Char('?')
    ||| key == Key::Char('/')
    ||| key == Key::Char('\\')
    ||| key == Key::Char('1')
    ||| key == Key::Char('2')
    ||| key == Key::Char('3')
    ||| key == Key::Char('4')
    ||| key == Key::Char('s')
    ||| key == Key::Tab
    ||| key == Key::BackTab
}

/// The selected entry of a non-empty list.
pub open spec fn sel(pre: App) -> EmailEntry {
    pre.emails@[pre.list_index as int]
}

/// Keys under an open confirmation dialog: `y`/enter turns the guarded
/// tag into the one queued action and closes the dialog; `n`/escape
/// closes it without queuing; everything else changes nothing.
pub open spec fn confirm_step(pre: App, key: Key, post: App) -> bool {
    if key == Key::Char('y') || key == Key::Enter {
        match pre.confirm_dialog {
            Some(d) => post == (App {
                confirm_dialog: None,
                pending_action: Some(action_of_confirm(d.action)),
                ..pre
            }),
            None => post == pre,
        }
    } else if key == Key::Char('n') || key == Key::Esc {
        post == (App { confirm_dialog: None, ..pre })
    } else {
        post == pre
    }
}

/// Keys under the help overlay: `?` or escape closes it, the rest are
/// swallowed.
pub open spec fn help_step(pre: App, key: Key, post: App) -> bool {
    if key == Key::Char('?') || key == Key::Esc {
        post == (App { show_help: false, ..pre })
    } else {
        post == pre
    }
}

/// The state after restoring the full cached list (selection and scroll
/// reset; a cold cache leaves the list untouched).
pub open spec fn restored_from_cache(pre: App, post: App) -> bool {
    &&& (pre.slot(pre.active_mailbox) is Some ==> post.emails@ == pre.slot_seq(pre.active_mailbox))
    &&& (pre.slot(pre.active_mailbox) is None ==> post.emails == pre.emails)
    &&& post.list_index == 0
    &&& post.preview_scroll == 0
}

/// Keys while editing the search: enter commits and focuses the list with
/// the filter kept; tab and back-tab fall through to the list the same
/// way (the search bar is not part of the focus ring); escape clears the
/// query and restores the unfiltered list; characters and backspace edit
/// the query and re-filter.
pub open spec fn search_step(pre: App, key: Key, post: App) -> bool {
    if key == Key::Enter || key == Key::Tab || key == Key::BackTab {
        post == (App { focus: Focus::List, ..pre })
    } else if key == Key::Esc {
        &&& post.search_query@ == Seq::<char>::empty()
        &&& post.search_includes_body == false
        &&& restored_from_cache(pre, post)
        &&& post.focus == Focus::List
        &&& post == (App {
            focus: post.focus,
            search_query: post.search_query,
            search_includes_body: post.search_includes_body,
            emails: post.emails,
            list_index: post.list_index,
            preview_scroll: post.preview_scroll,
            ..pre
        })
    } else if key matches Key::Char(c) {
        &&& post.search_query@ == pre.search_query@.push(key->Char_0)
        &&& post.emails@ == visible_entries(
            pre.slot_seq(pre.active_mailbox),
            pre.active_mailbox,
            post.search_query@,
            pre.search_includes_body,
        )
        &&& post.list_index == 0
        &&& post.preview_scroll == 0
        &&& post == (App {
            search_query: post.search_query,
            emails: post.emails,
            list_index: post.list_index,
            preview_scroll: post.preview_scroll,
            ..pre
        })
    } else if key == Key::Backspace {
        let shorter = if pre.search_query@.len() == 0 {
            pre.search_query@
        } else {
            pre.search_query@.drop_last()
        };
        &&& post.search_query@ == shorter
        &&& post.emails@ == visible_entries(
            pre.slot_seq(pre.active_mailbox),
            pre.active_mailbox,
            shorter,
            pre.search_includes_body,
        )
        &&& post.list_index == 0
        &&& post.preview_scroll == 0
        &&& post == (App {
            search_query: post.search_query,
            emails: post.emails,
            list_index: post.list_index,
            preview_scroll: post.preview_scroll,
            ..pre
        })
    } else {
        post == pre
    }
}

/// The mailbox switch: the target becomes active, the search clears, the
/// selection and scroll reset; a warm cache goes on display and its count
/// updates to the cached length, a cold one leaves an empty list and
/// records a load request (the only path that scans a directory).
pub open spec fn switch_rel(pre: App, mailbox: Mailbox, post: App) -> bool {
    &&& post.active_mailbox == mailbox
    &&& post.search_query@ == Seq::<char>::empty()
    &&& post.search_includes_body == false
    &&& post.list_index == 0
    &&& post.preview_scroll == 0
    &&& post.focus == pre.focus
    &&& post.sidebar_index == pre.sidebar_index
    &&& post.g_pending == pre.g_pending
    &&& post.running == pre.running
    &&& post.terminal_width == pre.terminal_width
    &&& post.terminal_height == pre.terminal_height
    &&& post.watcher_active == pre.watcher_active
    &&& post.email_cache == pre.email_cache
    &&& post.mailbox_dirs == pre.mailbox_dirs
    &&& post.pending_action == pre.pending_action
    &&& post.confirm_dialog == pre.confirm_dialog
    &&& post.status_message == pre.status_message
    &&& post.status_ticks == pre.status_ticks
    &&& post.show_help == pre.show_help
    &&& if pre.slot(mailbox) is Some {
        &&& post.emails@ == pre.slot_seq(mailbox)
        &&& post.mailbox_counts@ == pre.mailbox_counts@.update(
            mailbox.spec_index(),
            pre.slot_seq(mailbox).len() as usize,
        )
        &&& post.pending_load == pre.pending_load
    } else {
        &&& post.emails@ == Seq::<EmailEntry>::empty()
        &&& post.mailbox_counts == pre.mailbox_counts
        &&& post.pending_load == Some(LoadRequest { mailbox, refresh_counts: false })
    }
}

/// The reload of the active mailbox: its cache slot empties and a load
/// with a count refresh is requested. The search clears, but the list and
/// the selection stand as they are — the install that answers the request
/// reclamps the selection into the fresh bounds instead of resetting it.
pub open spec fn reload_rel(pre: App, post: App) -> bool {
    &&& post.active_mailbox == pre.active_mailbox
    &&& post.email_cache@ == pre.email_cache@.update(
        pre.active_mailbox.spec_index(),
        None::<Vec<EmailEntry>>,
    )
    &&& post.emails == pre.emails
    &&& post.search_query@ == Seq::<char>::empty()
    &&& post.search_includes_body == false
    &&& post.list_index == pre.list_index
    &&& post.preview_scroll == pre.preview_scroll
    &&& post.pending_load == Some(
        LoadRequest { mailbox: pre.active_mailbox, refresh_counts: true },
    )
    &&& post.mailbox_counts == pre.mailbox_counts
    &&& post.mailbox_dirs == pre.mailbox_dirs
    &&& post.focus == pre.focus
    &&& post.sidebar_index == pre.sidebar_index
    &&& post.g_pending == pre.g_pending
    &&& post.running == pre.running
    &&& post.terminal_width == pre.terminal_width
    &&& post.terminal_height == pre.terminal_height
    &&& post.watcher_active == pre.watcher_active
    &&& post.pending_action == pre.pending_action
    &&& post.confirm_dialog == pre.confirm_dialog
    &&& post.status_message == pre.status_message
    &&& post.status_ticks == pre.status_ticks
    &&& post.show_help == pre.show_help
}

/// One global key: quit returns the quit message; `?` opens help; `/` and
/// `\` enter search with a cleared query and the list restored; a digit
/// jumps to its mailbox and focuses the list; `s` focuses the sidebar;
/// tab and back-tab cycle the focus ring.
pub open spec fn global_step(pre: App, key: Key, post: App, r: Option<Message>) -> bool {
    if key == Key::Char('q') {
        post == pre && r == Some(Message::Quit)
    } else if key == Key::Char('?') {
        post == (App { g_pending: false, show_help: true, ..pre }) && r is None
    } else if key == Key::Char('/') || key == Key::Char('\\') {
        &&& post.focus == Focus::Search
        &&& post.g_pending == false
        &&& post.search_query@ == Seq::<char>::empty()
        &&& post.search_includes_body == (key == Key::Char('\\'))
        &&& restored_from_cache(pre, post)
        &&& post == (App {
            focus: post.focus,
            g_pending: post.g_pending,
            search_query: post.search_query,
            search_includes_body: post.search_includes_body,
            emails: post.emails,
            list_index: post.list_index,
            preview_scroll: post.preview_scroll,
            ..pre
        })
        &&& r is None
    } else if key == Key::Char('1') || key == Key::Char('2') || key == Key::Char('3') || key
        == Key::Char('4') {
        let n: int = if key == Key::Char('1') {
            0
        } else if key == Key::Char('2') {
            1
        } else if key == Key::Char('3') {
            2
        } else {
            3
        };
        &&& switch_rel(
            App { sidebar_index: n as usize, g_pending: false, ..pre },
            mailbox_at(n),
            App { focus: pre.focus, ..post },
        )
        &&& post.focus == Focus::List
        &&& r is None
    } else if key == Key::Char('s') {
        post == (App { g_pending: false, focus: Focus::Sidebar, ..pre }) && r is None
    } else if key == Key::Tab {
        post == (App { g_pending: false, focus: cycle_forward(pre.focus), ..pre }) && r is None
    } else if key == Key::BackTab {
        post == (App { g_pending: false, focus: cycle_backward(pre.focus), ..pre }) && r is None
    } else {
        post == pre && r is None
    }
}

/// Sidebar keys: the highlight moves within the four slots, enter or `l`
/// makes the highlighted mailbox active and focuses the list, escape or
/// `h` goes back without switching.
pub open spec fn sidebar_step(pre: App, key: Key, post: App) -> bool {
    let base = App { g_pending: false, ..pre };
    if key == Key::Char('j') || key == Key::Down {
        let ni: int = if pre.sidebar_index < 3 {
            pre.sidebar_index + 1
        } else {
            pre.sidebar_index as int
        };
        post == (App { sidebar_index: ni as usize, ..base })
    } else if key == Key::Char('k') || key == Key::Up {
        let ni: int = if pre.sidebar_index > 0 {
            pre.sidebar_index - 1
        } else {
            0
        };
        post == (App { sidebar_index: ni as usize, ..base })
    } else if key == Key::Enter || key == Key::Char('l') {
        &&& switch_rel(base, mailbox_at(pre.sidebar_index as int), App { focus: pre.focus, ..post })
        &&& post.focus == Focus::List
    } else if key == Key::Esc || key == Key::Char('h') {
        post == (App { focus: Focus::List, ..base })
    } else {
        post == base
    }
}

/// List keys on a non-empty list: `gg` jumps to the top (a lone `g` only
/// arms the chord, any other key disarms it), `G` to the bottom, `j`/`k`
/// move by one without wrapping, `h`/`l` move focus, the plain action
/// keys queue their action, and archive, delete, send and send-all-
/// approved open a confirmation dialog instead of queuing anything. A
/// changed selection resets the preview scroll. On an empty list only
/// fetch, sync and new-draft answer.
pub open spec fn list_step(pre: App, key: Key, post: App) -> bool {
    if pre.emails@.len() == 0 {
        let base = App { g_pending: false, ..pre };
        if key == Key::Char('f') {
            post == (App { pending_action: Some(Action::Fetch), ..base })
        } else if key == Key::Char('F') {
            post == (App { pending_action: Some(Action::Sync), ..base })
        } else if key == Key::Char('n') {
            post == (App { pending_action: Some(Action::NewDraft), ..base })
        } else {
            post == base
        }
    } else if key == Key::Char('g') {
        if pre.g_pending {
            post == (App {
                list_index: 0usize,
                g_pending: false,
                preview_scroll: if pre.list_index != 0 {
                    0u16
                } else {
                    pre.preview_scroll
                },
                ..pre
            })
        } else {
            post == (App { g_pending: true, ..pre })
        }
    } else if key == Key::Char('G') {
        let last = pre.emails@.len() - 1;
        post == (App {
            g_pending: false,
            list_index: last as usize,
            preview_scroll: if pre.list_index != last {
                0u16
            } else {
                pre.preview_scroll
            },
            ..pre
        })
    } else if key == Key::Char('j') || key == Key::Down {
        let ni: int = if pre.list_index + 1 < pre.emails@.len() {
            pre.list_index + 1
        } else {
            pre.list_index as int
        };
        post == (App {
            g_pending: false,
            list_index: ni as usize,
            preview_scroll: if ni != pre.list_index {
                0u16
            } else {
                pre.preview_scroll
            },
            ..pre
        })
    } else if key == Key::Char('k') || key == Key::Up {
        let ni: int = if pre.list_index > 0 {
            pre.list_index - 1
        } else {
            0
        };
        post == (App {
            g_pending: false,
            list_index: ni as usize,
            preview_scroll: if ni != pre.list_index {
                0u16
            } else {
                pre.preview_scroll
            },
            ..pre
        })
    } else if key == Key::Char('h') {
        post == (App { g_pending: false, focus: Focus::Sidebar, ..pre })
    } else if key == Key::Char('l') {
        post == (App { g_pending: false, focus: Focus::Preview, ..pre })
    } else if key == Key::Enter || key == Key::Char('e') {
        post == (App { g_pending: false, pending_action: Some(Action::EditCurrent), ..pre })
    } else if key == Key::Char('r') {
        post == (App { g_pending: false, pending_action: Some(Action::Reply(false)), ..pre })
    } else if key == Key::Char('R') {
        post == (App { g_pending: false, pending_action: Some(Action::Reply(true)), ..pre })
    } else if key == Key::Char('a') || key == Key::Char('d') {
        let tag = if key == Key::Char('a') {
            ConfirmAction::Archive
        } else {
            ConfirmAction::Delete
        };
        let title = if key == Key::Char('a') {
            "Archive this email?"@
        } else {
            "Delete this email?"@
        };
        &&& post.confirm_dialog matches Some(d) && d.action == tag && d.title@ == title
            && d.detail@ == sel(pre).from@ + " - "@ + sel(pre).subject@
        &&& post == (App { g_pending: false, confirm_dialog: post.confirm_dialog, ..pre })
    } else if key == Key::Char('A') {
        post == (App { g_pending: false, pending_action: Some(Action::Approve), ..pre })
    } else if key == Key::Char('x') {
        &&& post.confirm_dialog matches Some(d) && d.action == ConfirmAction::Send && d.title@
            == "Send this email?"@ && d.detail@ == "To: "@ + sel(pre).to@ + " - "@ + sel(
            pre,
        ).subject@
        &&& post == (App { g_pending: false, confirm_dialog: post.confirm_dialog, ..pre })
    } else if key == Key::Char('X') {
        &&& post.confirm_dialog matches Some(d) && d.action == ConfirmAction::SendApproved
            && d.title@ == "Send all approved emails?"@ && d.detail@ == "In "@
            + pre.active_mailbox.spec_label()
        &&& post == (App { g_pending: false, confirm_dialog: post.confirm_dialog, ..pre })
    } else if key == Key::Char('y') {
        post == (App { g_pending: false, pending_action: Some(Action::CopyPath), ..pre })
    } else if key == Key::Char('n') {
        post == (App { g_pending: false, pending_action: Some(Action::NewDraft), ..pre })
    } else if key == Key::Char('f') {
        post == (App { g_pending: false, pending_action: Some(Action::Fetch), ..pre })
    } else if key == Key::Char('F') {
        post == (App { g_pending: false, pending_action: Some(Action::Sync), ..pre })
    } else {
        post == (App { g_pending: false, ..pre })
    }
}

/// Preview keys: line and half-page scrolling saturate at the bottom of
/// the range; escape or `h` goes back to the list.
pub open spec fn preview_step(pre: App, key: Key, post: App) -> bool {
    let base = App { g_pending: false, ..pre };
    if key == Key::Char('j') || key == Key::Down {
        post == (App { preview_scroll: add16_sat(pre.preview_scroll as int, 1) as u16, ..base })
    } else if key == Key::Char('k') || key == Key::Up {
        post == (App { preview_scroll: sub16_sat(pre.preview_scroll as int, 1) as u16, ..base })
    } else if key == Key::Char('d') {
        post == (App { preview_scroll: add16_sat(pre.preview_scroll as int, 10) as u16, ..base })
    } else if key == Key::Char('u') {
        post == (App { preview_scroll: sub16_sat(pre.preview_scroll as int, 10) as u16, ..base })
    } else if key == Key::Esc || key == Key::Char('h') {
        post == (App { focus: Focus::List, ..base })
    } else {
        post == base
    }
}

/// One key through the whole router: an open dialog takes it first, then
/// the help overlay, then search editing; otherwise the global keys, then
/// the focused pane's keys. Only quit hands back a follow-up message.
pub open spec fn key_step(pre: App, key: Key, post: App, r: Option<Message>) -> bool {
    if pre.confirm_dialog is Some {
        confirm_step(pre, key, post) && r is None
    } else if pre.show_help {
        help_step(pre, key, post) && r is None
    } else if pre.focus == Focus::Search {
        search_step(pre, key, post) && r is None
    } else if is_global_key(key) {
        global_step(pre, key, post, r)
    } else {
        r is None && match pre.focus {
            Focus::Sidebar => sidebar_step(pre, key, post),
            Focus::List => list_step(pre, key, post),
            Focus::Preview => preview_step(pre, key, post),
            Focus::Search => post == pre,
        }
    }
}

/// Everything but the cache is unchanged.
pub open spec fn same_but_cache(a: App, b: App) -> bool {
    b == (App { email_cache: b.email_cache, ..a })
}

/// Everything outside the store, the display list, the selection, the
/// scroll and the load slot is unchanged.
pub open spec fn same_but_store_view(a: App, b: App) -> bool {
    b == (App {
        email_cache: b.email_cache,
        mailbox_counts: b.mailbox_counts,
        emails: b.emails,
        list_index: b.list_index,
        preview_scroll: b.preview_scroll,
        pending_load: b.pending_load,
        ..a
    })
}

/// Everything outside the display list, the selection and the scroll is
/// unchanged.
pub open spec fn same_but_view_sel(a: App, b: App) -> bool {
    b == (App { emails: b.emails, list_index: b.list_index, preview_scroll: b.preview_scroll, ..a })
}

/// The views of an optional entry list.
pub open spec fn opt_entries_view(r: Option<Vec<EmailEntry>>) -> Option<Seq<EmailEntry>> {
    match r {
        Some(v) => Some(v@),
        None => None,
    }
}

/// The cache-fill step: a warm slot hands its list back and changes
/// nothing; a cold slot hands nothing back and records the one load
/// request. No other path fills the cache.
pub open spec fn get_or_load_rel(
    pre: App,
    mailbox: Mailbox,
    post: App,
    r: Option<Seq<EmailEntry>>,
) -> bool {
    if pre.slot(mailbox) is Some {
        r == Some(pre.slot_seq(mailbox)) && post == pre
    } else {
        r is None && post == (App {
            pending_load: Some(LoadRequest { mailbox, refresh_counts: false }),
            ..pre
        })
    }
}

/// What the effect layer reports back from running one action.
#[derive(Debug)]
pub enum ActionResult {
    /// The action's command succeeded, with its captured output.
    Done(String),
    /// The command failed, with its error text.
    Failed(String),
    /// The interactive editor stage returned successfully.
    EditorDone,
    /// The editor stage failed, with its error text.
    EditorFailed(String),
}

/// The captured output of a successful result.
pub open spec fn ok_msg(res: ActionResult) -> Option<Seq<char>> {
    match res {
        ActionResult::Done(m) => Some(m@),
        ActionResult::EditorDone => Some(Seq::empty()),
        _ => None,
    }
}

/// The error text of a failed result.
pub open spec fn err_msg(res: ActionResult) -> Option<Seq<char>> {
    match res {
        ActionResult::Failed(e) => Some(e@),
        ActionResult::EditorFailed(e) => Some(e@),
        _ => None,
    }
}

/// A captured output, or the default text when it is empty.
pub open spec fn msg_or(m: Seq<char>, dflt: Seq<char>) -> Seq<char> {
    if m.len() == 0 {
        dflt
    } else {
        m
    }
}

/// A fresh status message stands with its full lifetime.
pub open spec fn status_set(post: App, msg: Seq<char>) -> bool {
    post.status_message matches Some(s) && s@ == msg && post.status_ticks == 12
}

/// The fields no action outcome ever touches.
pub open spec fn finish_frame(pre: App, post: App) -> bool {
    &&& post.focus == pre.focus
    &&& post.sidebar_index == pre.sidebar_index
    &&& post.active_mailbox == pre.active_mailbox
    &&& post.g_pending == pre.g_pending
    &&& post.running == pre.running
    &&& post.terminal_width == pre.terminal_width
    &&& post.terminal_height == pre.terminal_height
    &&& post.watcher_active == pre.watcher_active
    &&& post.pending_action == pre.pending_action
    &&& post.confirm_dialog == pre.confirm_dialog
    &&& post.show_help == pre.show_help
    &&& post.mailbox_dirs == pre.mailbox_dirs
    &&& post.mailbox_counts == pre.mailbox_counts
}

/// The view state after a reload of the active mailbox was requested:
/// the search clears, the displayed list and the selection stand until
/// the install answers the request and reclamps the selection.
pub open spec fn reloaded_view(pre: App, post: App) -> bool {
    &&& post.emails == pre.emails
    &&& post.list_index == pre.list_index
    &&& post.preview_scroll == pre.preview_scroll
    &&& post.search_query@ == Seq::<char>::empty()
    &&& post.search_includes_body == false
    &&& post.pending_load == Some(
        LoadRequest { mailbox: pre.active_mailbox, refresh_counts: true },
    )
}

/// Nothing of the store or the view moved.
pub open spec fn untouched_view(pre: App, post: App) -> bool {
    &&& post.email_cache == pre.email_cache
    &&& post.emails == pre.emails
    &&& post.list_index == pre.list_index
    &&& post.preview_scroll == pre.preview_scroll
    &&& post.search_query == pre.search_query
    &&& post.search_includes_body == pre.search_includes_body
    &&& post.pending_load == pre.pending_load
}

/// Only the active mailbox's slot was dropped (by the reload).
pub open spec fn cache_cleared_active(pre: App, post: App) -> bool {
    post.email_cache@ == pre.email_cache@.update(
        pre.active_mailbox.spec_index(),
        None::<Vec<EmailEntry>>,
    )
}

/// One named slot was dropped, then the active one (by the reload).
pub open spec fn cache_cleared_pair(pre: App, post: App, extra: Mailbox) -> bool {
    post.email_cache@ == pre.email_cache@.update(extra.spec_index(), None::<Vec<EmailEntry>>).update(
        pre.active_mailbox.spec_index(),
        None::<Vec<EmailEntry>>,
    )
}

/// Every slot is cold.
pub open spec fn cache_all_cleared(post: App) -> bool {
    post.email_cache@.len() == 4 && forall|m: Mailbox| post.slot(m) is None
}

/// How one action outcome lands in the state: the status message the
/// original sets for that action (the captured output, a default when it
/// is empty, or the error text behind the action's failure prefix), which
/// caches it drops, and whether it reloads the active mailbox. Failures
/// are never silent.
pub open spec fn finish_rel(pre: App, action: Action, res: ActionResult, post: App) -> bool {
    finish_frame(pre, post) && match action {
        Action::EditCurrent => {
            &&& (ok_msg(res) is Some ==> status_set(post, "Returned from editor"@))
            &&& (err_msg(res) matches Some(e) ==> status_set(post, "Edit failed: "@ + e))
            &&& reloaded_view(pre, post)
            &&& cache_cleared_active(pre, post)
        },
        Action::Reply(_) => {
            &&& (ok_msg(res) is Some ==> status_set(post, "Reply draft ready"@))
            &&& (res matches ActionResult::EditorFailed(e) ==> status_set(
                post,
                "Editor failed: "@ + e@,
            ))
            &&& (res matches ActionResult::Failed(e) ==> status_set(post, "Reply failed: "@ + e@))
            &&& reloaded_view(pre, post)
            &&& (res matches ActionResult::Failed(_) ==> cache_cleared_active(pre, post))
            &&& (!(res matches ActionResult::Failed(_)) ==> cache_cleared_pair(
                pre,
                post,
                Mailbox::Drafts,
            ))
        },
        Action::Send => {
            &&& (ok_msg(res) matches Some(m) ==> status_set(post, msg_or(m, "Email sent"@))
                && cache_all_cleared(post) && reloaded_view(pre, post))
            &&& (err_msg(res) matches Some(e) ==> status_set(post, "Send failed: "@ + e)
                && cache_cleared_active(pre, post) && reloaded_view(pre, post))
        },
        Action::SendApproved => {
            &&& (ok_msg(res) matches Some(m) ==> status_set(
                post,
                msg_or(m, "Approved emails sent"@),
            ) && cache_all_cleared(post) && reloaded_view(pre, post))
            &&& (err_msg(res) matches Some(e) ==> status_set(post, "Send-approved failed: "@ + e)
                && cache_cleared_active(pre, post) && reloaded_view(pre, post))
        },
        Action::NewDraft => {
            &&& (ok_msg(res) matches Some(m) ==> status_set(post, m) && cache_cleared_pair(
                pre,
                post,
                Mailbox::Drafts,
            ) && reloaded_view(pre, post))
            &&& (err_msg(res) matches Some(e) ==> status_set(post, "New draft failed: "@ + e)
                && untouched_view(pre, post))
        },
        Action::Approve => {
            &&& (ok_msg(res) matches Some(m) ==> status_set(post, m) && cache_cleared_active(
                pre,
                post,
            ) && reloaded_view(pre, post))
            &&& (err_msg(res) matches Some(e) ==> status_set(post, "Approve failed: "@ + e)
                && untouched_view(pre, post))
        },
        Action::Archive => {
            &&& (ok_msg(res) matches Some(m) ==> status_set(post, msg_or(m, "Email archived"@))
                && cache_cleared_pair(pre, post, Mailbox::Archive) && reloaded_view(pre, post))
            &&& (err_msg(res) matches Some(e) ==> status_set(post, "Archive failed: "@ + e)
                && untouched_view(pre, post))
        },
        Action::Delete => {
            &&& (ok_msg(res) matches Some(m) ==> status_set(post, msg_or(m, "Email deleted"@))
                && cache_cleared_active(pre, post) && reloaded_view(pre, post))
            &&& (err_msg(res) matches Some(e) ==> status_set(post, "Delete failed: "@ + e)
                && untouched_view(pre, post))
        },
        Action::CopyPath => {
            &&& (ok_msg(res) is Some ==> status_set(post, "Path copied to clipboard"@))
            &&& (err_msg(res) matches Some(e) ==> status_set(post, "Copy failed: "@ + e))
            &&& untouched_view(pre, post)
        },
        Action::Fetch => {
            &&& (ok_msg(res) matches Some(m) ==> status_set(post, msg_or(m, "Fetch complete"@))
                && cache_all_cleared(post) && reloaded_view(pre, post))
            &&& (err_msg(res) matches Some(e) ==> status_set(post, "Fetch failed: "@ + e)
                && untouched_view(pre, post))
        },
        Action::Sync => {
            &&& (ok_msg(res) matches Some(m) ==> status_set(post, msg_or(m, "Sync complete"@))
                && cache_all_cleared(post) && reloaded_view(pre, post))
            &&& (err_msg(res) matches Some(e) ==> status_set(post, "Sync failed: "@ + e)
                && untouched_view(pre, post))
        },
    }
}

} // verus!
