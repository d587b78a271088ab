//! The library's cross-function guarantees, stated and proved over the
//! transition relations that the state functions ensure.

use vstd::prelude::*;

use crate::app::App;
use crate::app::Action;
use crate::app::ConfirmAction;
use crate::app::Key;
use crate::app::Mailbox;
use crate::app::action_of_confirm;
use crate::app::confirm_step;
use crate::app::entry_matches;
use crate::app::filtered_entries;
use crate::app::get_or_load_rel;
use crate::app::key_step;
use crate::app::list_step;
use crate::app::same_but_view_sel;
use crate::app::search_step;
use crate::app::visible_entries;
use crate::app::Message;
use crate::email::EmailEntry;

verus! {

/// Fetching a mailbox twice with no invalidation in between: once the
/// first lookup answers from the cache, the state is unchanged, so the
/// second lookup returns the identical entry list and records no load
/// request — no second directory scan can occur.
pub proof fn lemma_get_or_load_twice(
    s0: App,
    mailbox: Mailbox,
    s1: App,
    r1: Option<Seq<EmailEntry>>,
    s2: App,
    r2: Option<Seq<EmailEntry>>,
)
    requires
        get_or_load_rel(s0, mailbox, s1, r1),
        r1 is Some,
        get_or_load_rel(s1, mailbox, s2, r2),
    ensures
        r2 == r1,
        s2 == s1,
        s1.pending_load == s0.pending_load,
        s2.pending_load == s0.pending_load,
{
}

/// A freshly installed entry list is exactly what the next lookup of that
/// mailbox returns, again without any new load request.
pub proof fn lemma_get_after_install(
    s1: App,
    mailbox: Mailbox,
    entries: Seq<EmailEntry>,
    s2: App,
    r: Option<Seq<EmailEntry>>,
)
    requires
        s1.slot(mailbox) matches Some(v) && v@ == entries,
        get_or_load_rel(s1, mailbox, s2, r),
    ensures
        r == Some(entries),
        s2 == s1,
{
}

/// Every entry of a filtered list is an entry of the list it was filtered
/// from: filtering selects, it never invents.
pub proof fn lemma_filter_subset(
    base: Seq<EmailEntry>,
    mailbox: Mailbox,
    ql: Seq<char>,
    with_body: bool,
)
    ensures
        forall|i: int|
            0 <= i < filtered_entries(base, mailbox, ql, with_body).len() ==> base.contains(
                #[trigger] filtered_entries(base, mailbox, ql, with_body)[i],
            ),
    decreases base.len(),
{
    if base.len() > 0 {
        lemma_filter_subset(base.drop_last(), mailbox, ql, with_body);
        let rest = filtered_entries(base.drop_last(), mailbox, ql, with_body);
        let whole = filtered_entries(base, mailbox, ql, with_body);
        assert forall|i: int| 0 <= i < whole.len() implies base.contains(#[trigger] whole[i]) by {
            if i < rest.len() {
                assert(whole[i] == rest[i]);
                let j = choose|j: int| 0 <= j < base.drop_last().len() && base.drop_last()[j]
                    == rest[i];
                assert(base[j] == rest[i]);
            } else {
                assert(whole[i] == base.last());
                assert(base[base.len() - 1] == base.last());
            }
        }
    }
}

/// A query that matches an entry's headers matches it under content
/// search too: the content filter keeps every entry the metadata filter
/// keeps.
pub proof fn lemma_content_filter_superset(base: Seq<EmailEntry>, mailbox: Mailbox, ql: Seq<char>)
    ensures
        forall|e: EmailEntry|
            filtered_entries(base, mailbox, ql, false).contains(e)
                ==> #[trigger] filtered_entries(base, mailbox, ql, true).contains(e),
    decreases base.len(),
{
    if base.len() > 0 {
        lemma_content_filter_superset(base.drop_last(), mailbox, ql);
        let rest0 = filtered_entries(base.drop_last(), mailbox, ql, false);
        let rest1 = filtered_entries(base.drop_last(), mailbox, ql, true);
        let whole0 = filtered_entries(base, mailbox, ql, false);
        let whole1 = filtered_entries(base, mailbox, ql, true);
        assert(entry_matches(base.last(), mailbox, ql, false) ==> entry_matches(
            base.last(),
            mailbox,
            ql,
            true,
        ));
        assert forall|e: EmailEntry| whole0.contains(e) implies whole1.contains(e) by {
            let i = choose|i: int| 0 <= i < whole0.len() && whole0[i] == e;
            if i < rest0.len() {
                assert(rest0.contains(e));
                assert(rest1.contains(e));
                let j = choose|j: int| 0 <= j < rest1.len() && rest1[j] == e;
                assert(whole1[j] == e);
            } else {
                assert(e == base.last());
                assert(entry_matches(base.last(), mailbox, ql, false));
                assert(whole1.last() == e);
            }
        }
    }
}

/// Clearing the query after filtering restores exactly the cached list
/// that stood before the filter, in the same order: the filter is a pure
/// projection of the cache, and escape re-displays the cache itself.
pub proof fn lemma_clear_query_restores(
    s0: App,
    s1: App,
    s2: App,
    q: Seq<char>,
    with_body: bool,
)
    requires
        s1.emails@ == visible_entries(
            s0.slot_seq(s0.active_mailbox),
            s0.active_mailbox,
            q,
            with_body,
        ),
        same_but_view_sel(s0, s1),
        search_step(s1, Key::Esc, s2),
    ensures
        s2.emails@ == s0.slot_seq(s0.active_mailbox),
{
    assert(s1.active_mailbox == s0.active_mailbox);
    assert(s1.email_cache == s0.email_cache);
    if s0.slot(s0.active_mailbox) is Some {
    } else {
        assert(s0.slot_seq(s0.active_mailbox) =~= Seq::<EmailEntry>::empty());
        lemma_filter_empty(s0.active_mailbox, q, with_body);
        assert(s2.emails == s1.emails);
        assert(s2.emails@ =~= Seq::<EmailEntry>::empty());
    }
}

/// Filtering an empty list yields an empty list.
pub proof fn lemma_filter_empty(mailbox: Mailbox, q: Seq<char>, with_body: bool)
    ensures
        visible_entries(Seq::<EmailEntry>::empty(), mailbox, q, with_body) =~= Seq::<
            EmailEntry,
        >::empty(),
{
}

/// After any key, in any mode, the selection stays within the displayed
/// list, and rests at zero when the list is empty.
pub proof fn lemma_selection_in_bounds(pre: App, key: Key, post: App, r: Option<Message>)
    requires
        pre.wf(),
        key_step(pre, key, post, r),
    ensures
        post.emails@.len() == 0 ==> post.list_index == 0,
        post.emails@.len() > 0 ==> post.list_index < post.emails@.len(),
{
}

/// From the list, the four destructive keys queue nothing: they only open
/// a confirmation dialog carrying the matching tag.
pub proof fn lemma_destructive_needs_confirmation(pre: App, key: Key, post: App)
    requires
        pre.wf(),
        pre.emails@.len() > 0,
        list_step(pre, key, post),
        key == Key::Char('a') || key == Key::Char('d') || key == Key::Char('x') || key
            == Key::Char('X'),
    ensures
        post.pending_action == pre.pending_action,
        post.confirm_dialog is Some,
        key == Key::Char('a') ==> post.confirm_dialog->Some_0.action == ConfirmAction::Archive,
        key == Key::Char('d') ==> post.confirm_dialog->Some_0.action == ConfirmAction::Delete,
        key == Key::Char('x') ==> post.confirm_dialog->Some_0.action == ConfirmAction::Send,
        key == Key::Char('X') ==> post.confirm_dialog->Some_0.action
            == ConfirmAction::SendApproved,
{
}

/// Confirming with yes or enter queues exactly the dialog's tagged action
/// and closes the dialog.
pub proof fn lemma_confirm_yes(pre: App, key: Key, post: App)
    requires
        pre.confirm_dialog is Some,
        confirm_step(pre, key, post),
        key == Key::Char('y') || key == Key::Enter,
    ensures
        post.pending_action == Some(action_of_confirm(pre.confirm_dialog->Some_0.action)),
        post.confirm_dialog is None,
{
}

/// Declining with no or escape closes the dialog and queues nothing.
pub proof fn lemma_confirm_no(pre: App, key: Key, post: App)
    requires
        pre.confirm_dialog is Some,
        confirm_step(pre, key, post),
        key == Key::Char('n') || key == Key::Esc,
    ensures
        post.pending_action == pre.pending_action,
        post.confirm_dialog is None,
{
}

/// The two steps together: a destructive key from the list followed by a
/// yes on the dialog queues exactly the action the key named, and a no
/// queues nothing at all.
pub proof fn lemma_confirm_gate(pre: App, key: Key, mid: App, answer: Key, post: App)
    requires
        pre.wf(),
        pre.emails@.len() > 0,
        list_step(pre, key, mid, ),
        key == Key::Char('a') || key == Key::Char('d') || key == Key::Char('x') || key
            == Key::Char('X'),
        confirm_step(mid, answer, post),
    ensures
        (answer == Key::Char('y') || answer == Key::Enter) ==> post.pending_action == Some(
            if key == Key::Char('a') {
                Action::Archive
            } else if key == Key::Char('d') {
                Action::Delete
            } else if key == Key::Char('x') {
                Action::Send
            } else {
                Action::SendApproved
            },
        ),
        (answer == Key::Char('n') || answer == Key::Esc) ==> post.pending_action
            == pre.pending_action && post.confirm_dialog is None,
{
    lemma_destructive_needs_confirmation(pre, key, mid);
    if answer == Key::Char('y') || answer == Key::Enter {
        lemma_confirm_yes(mid, answer, post);
    } else if answer == Key::Char('n') || answer == Key::Esc {
        lemma_confirm_no(mid, answer, post);
    }
}

} // verus!
