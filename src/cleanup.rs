//! The `clean_channel` command: walks the channel's history and deletes the
//! bot's own messages and stray command invocations, skipping any message
//! whose fetch failed.
use vstd::prelude::*;

use crate::text::{is_prefix, starts_with};

verus! {

/// The prefix that marks a chat message as a command to the bot.
pub const COMMAND_PREFIX: &'static str = "~";

/// A message of the channel's history, as far as cleanup looks at it.
#[derive(Clone, Debug, PartialEq, Eq)]
pub struct ChannelMessage {
    pub id: u64,
    /// Whether the bot itself wrote the message.
    pub from_bot: bool,
    pub content: String,
}

/// One step of walking the history: a message, or a failed fetch.
#[derive(Clone, Debug, PartialEq, Eq)]
pub enum HistoryItem {
    Fetched(ChannelMessage),
    FetchFailed,
}

/// What cleanup does at one step of the history.
#[derive(Clone, Copy, Debug, PartialEq, Eq, Structural)]
pub enum CleanupAction {
    /// Delete the bot's own message with this id.
    DeleteOwn(u64),
    /// Delete the command invocation with this id.
    DeleteCommand(u64),
    /// Leave the message with this id alone.
    Keep(u64),
    /// The fetch failed: go on with the next step.
    Skip,
}

/// Whether the text of a message makes it a command invocation.
pub open spec fn is_command(content: Seq<char>) -> bool {
    is_prefix(COMMAND_PREFIX@, content)
}

/// Whether cleanup deletes this message.
pub open spec fn should_delete(m: ChannelMessage) -> bool {
    m.from_bot || is_command(m.content@)
}

/// The bot's own messages first, then command invocations; everything else
/// stays, and a failed fetch is passed over.
pub open spec fn decision(item: HistoryItem) -> CleanupAction {
    match item {
        HistoryItem::FetchFailed => CleanupAction::Skip,
        HistoryItem::Fetched(m) => if m.from_bot {
            CleanupAction::DeleteOwn(m.id)
        } else if is_command(m.content@) {
            CleanupAction::DeleteCommand(m.id)
        } else {
            CleanupAction::Keep(m.id)
        },
    }
}

/// The ids that one step of the history adds to the deletions.
pub open spec fn step_deletions(item: HistoryItem) -> Seq<u64> {
    match item {
        HistoryItem::Fetched(m) => if should_delete(m) {
            seq![m.id]
        } else {
            seq![]
        },
        HistoryItem::FetchFailed => seq![],
    }
}

/// The ids that a walk over `h` deletes, in the order of the walk.
pub open spec fn deleted_ids(h: Seq<HistoryItem>) -> Seq<u64>
    decreases h.len(),
{
    if h.len() == 0 {
        seq![]
    } else {
        deleted_ids(h.drop_last()) + step_deletions(h.last())
    }
}

/// The number of failed fetches in `h`.
pub open spec fn failed_fetches(h: Seq<HistoryItem>) -> nat
    decreases h.len(),
{
    if h.len() == 0 {
        0
    } else {
        failed_fetches(h.drop_last()) + if h.last() is FetchFailed {
            1nat
        } else {
            0nat
        }
    }
}

/// A walk in which every message of `ms` was fetched.
pub open spec fn fetched_all(ms: Seq<ChannelMessage>) -> Seq<HistoryItem> {
    ms.map_values(|m: ChannelMessage| HistoryItem::Fetched(m))
}

/// The messages of `ms` that remain once the messages with the ids `ids` are
/// deleted, in their order.
pub open spec fn remaining(ms: Seq<ChannelMessage>, ids: Seq<u64>) -> Seq<ChannelMessage>
    decreases ms.len(),
{
    if ms.len() == 0 {
        seq![]
    } else {
        remaining(ms.drop_last(), ids) + if ids.contains(ms.last().id) {
            seq![]
        } else {
            seq![ms.last()]
        }
    }
}

/// Decides what cleanup does at one step of the history.
pub fn cleanup_action(item: &HistoryItem) -> (r: CleanupAction)
    ensures
        r == decision(*item),
{
    match item {
        HistoryItem::FetchFailed => CleanupAction::Skip,
        HistoryItem::Fetched(m) => {
            if m.from_bot {
                CleanupAction::DeleteOwn(m.id)
            } else if starts_with(m.content.as_str(), COMMAND_PREFIX) {
                CleanupAction::DeleteCommand(m.id)
            } else {
                CleanupAction::Keep(m.id)
            }
        },
    }
}

/// The outcome of walking a channel's history.
#[derive(Clone, Debug, PartialEq, Eq)]
pub struct CleanupReport {
    /// The ids of the deleted messages, in the order of the walk.
    pub deleted: Vec<u64>,
    /// How many fetches failed and were passed over.
    pub skipped: usize,
}

/// Walks a whole history: decides each step in turn, never stopping at a
/// failed fetch.
pub fn cleanup_run(history: &Vec<HistoryItem>) -> (r: CleanupReport)
    ensures
        r.deleted@ == deleted_ids(history@),
        r.skipped == failed_fetches(history@),
{
    let mut deleted: Vec<u64> = Vec::new();
    let mut skipped: usize = 0;
    let mut i: usize = 0;
    while i < history.len()
        invariant
            i <= history@.len(),
            deleted@ == deleted_ids(history@.subrange(0, i as int)),
            skipped == failed_fetches(history@.subrange(0, i as int)),
            skipped <= i,
        decreases history@.len() - i,
    {
        let ghost pre = history@.subrange(0, i as int);
        let ghost next = history@.subrange(0, i + 1);
        assert(next.drop_last() =~= pre);
        match cleanup_action(&history[i]) {
            CleanupAction::DeleteOwn(id) => deleted.push(id),
            CleanupAction::DeleteCommand(id) => deleted.push(id),
            CleanupAction::Keep(_) => {},
            CleanupAction::Skip => skipped = skipped + 1,
        }
        assert(deleted@ =~= deleted_ids(next));
        i = i + 1;
    }
    assert(history@.subrange(0, history@.len() as int) =~= history@);
    CleanupReport { deleted, skipped }
}

/// A failed fetch, wherever it comes in the walk, changes nothing that is
/// deleted: the walk goes on with the next message.
pub proof fn lemma_failed_fetch_changes_nothing(h: Seq<HistoryItem>, i: int)
    requires
        0 <= i <= h.len(),
    ensures
        deleted_ids(h.insert(i, HistoryItem::FetchFailed)) == deleted_ids(h),
    decreases h.len(),
{
    let g = h.insert(i, HistoryItem::FetchFailed);
    if i == h.len() {
        assert(g.drop_last() =~= h);
        assert(deleted_ids(g) =~= deleted_ids(h));
    } else {
        assert(g.drop_last() =~= h.drop_last().insert(i, HistoryItem::FetchFailed));
        lemma_failed_fetch_changes_nothing(h.drop_last(), i);
    }
}

/// Every message that should go has its id among those deleted by a walk
/// that fetched them all.
proof fn lemma_deletable_is_deleted(ms: Seq<ChannelMessage>, j: int)
    requires
        0 <= j < ms.len(),
        should_delete(ms[j]),
    ensures
        deleted_ids(fetched_all(ms)).contains(ms[j].id),
    decreases ms.len(),
{
    let f = fetched_all(ms);
    assert(f.drop_last() =~= fetched_all(ms.drop_last()));
    if j == ms.len() - 1 {
        let d = deleted_ids(f);
        assert(d.last() == ms[j].id);
    } else {
        lemma_deletable_is_deleted(ms.drop_last(), j);
        let d0 = deleted_ids(f.drop_last());
        let k = choose|k: int| 0 <= k < d0.len() && d0[k] == ms[j].id;
        assert(deleted_ids(f)[k] == ms[j].id);
    }
}

/// What remains after deleting ids that cover every message that should go
/// holds no message that should go.
proof fn lemma_remaining_clean(ms: Seq<ChannelMessage>, ids: Seq<u64>)
    requires
        forall|j: int| 0 <= j < ms.len() && should_delete(ms[j]) ==> ids.contains(#[trigger] ms[j].id),
    ensures
        forall|k: int| 0 <= k < remaining(ms, ids).len() ==> !should_delete(#[trigger] remaining(ms, ids)[k]),
    decreases ms.len(),
{
    if ms.len() > 0 {
        let p = ms.drop_last();
        assert forall|j: int| 0 <= j < p.len() && should_delete(p[j]) implies ids.contains(#[trigger] p[j].id) by {
            assert(p[j] == ms[j]);
        }
        lemma_remaining_clean(p, ids);
        assert(should_delete(ms.last()) ==> ids.contains(ms[ms.len() - 1].id));
        let r = remaining(ms, ids);
        let rp = remaining(p, ids);
        assert forall|k: int| 0 <= k < r.len() implies !should_delete(#[trigger] r[k]) by {
            if k < rp.len() {
                assert(r[k] == rp[k]);
            } else {
                assert(r[k] == ms.last());
            }
        }
    }
}

/// A walk that fetches only messages that need not go deletes nothing.
proof fn lemma_clean_deletes_nothing(ms: Seq<ChannelMessage>)
    requires
        forall|k: int| 0 <= k < ms.len() ==> !should_delete(#[trigger] ms[k]),
    ensures
        deleted_ids(fetched_all(ms)) == Seq::<u64>::empty(),
    decreases ms.len(),
{
    if ms.len() > 0 {
        let f = fetched_all(ms);
        assert(f.drop_last() =~= fetched_all(ms.drop_last()));
        lemma_clean_deletes_nothing(ms.drop_last());
        assert(!should_delete(ms[ms.len() - 1]));
        assert(deleted_ids(f) =~= Seq::<u64>::empty());
    }
}

/// Cleaning a channel twice: once a walk that fetched every message has
/// deleted what it decided to, a second walk over what remains deletes
/// nothing.
pub proof fn lemma_cleanup_idempotent(ms: Seq<ChannelMessage>)
    ensures
        deleted_ids(fetched_all(remaining(ms, deleted_ids(fetched_all(ms))))) == Seq::<u64>::empty(),
{
    let ids = deleted_ids(fetched_all(ms));
    assert forall|j: int| 0 <= j < ms.len() && should_delete(ms[j]) implies ids.contains(#[trigger] ms[j].id) by {
        lemma_deletable_is_deleted(ms, j);
    }
    lemma_remaining_clean(ms, ids);
    lemma_clean_deletes_nothing(remaining(ms, ids));
}

} // verus!
