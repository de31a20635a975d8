use ether_bot::cleanup::{
    cleanup_action, cleanup_run, ChannelMessage, CleanupAction, HistoryItem,
};

fn msg(id: u64, from_bot: bool, content: &str) -> ChannelMessage {
    ChannelMessage { id, from_bot, content: content.to_string() }
}

fn fetched(ms: &[ChannelMessage]) -> Vec<HistoryItem> {
    ms.iter().cloned().map(HistoryItem::Fetched).collect()
}

#[test]
fn own_and_command_messages_are_deleted() {
    let a = msg(1, true, "Balance: 5 Wei");
    let b = msg(2, false, "~balance 0xabc");
    let c = msg(3, false, "hello");
    assert_eq!(cleanup_action(&HistoryItem::Fetched(a.clone())), CleanupAction::DeleteOwn(1));
    assert_eq!(cleanup_action(&HistoryItem::Fetched(b.clone())), CleanupAction::DeleteCommand(2));
    assert_eq!(cleanup_action(&HistoryItem::Fetched(c.clone())), CleanupAction::Keep(3));
    let report = cleanup_run(&fetched(&[a, b, c]));
    assert_eq!(report.deleted, vec![1, 2]);
    assert_eq!(report.skipped, 0);
}

#[test]
fn own_message_with_prefix_is_deleted_as_own() {
    let m = msg(9, true, "~erc20");
    assert_eq!(cleanup_action(&HistoryItem::Fetched(m)), CleanupAction::DeleteOwn(9));
}

#[test]
fn prefix_elsewhere_is_not_a_command() {
    let m = msg(4, false, " ~balance");
    assert_eq!(cleanup_action(&HistoryItem::Fetched(m)), CleanupAction::Keep(4));
}

#[test]
fn failed_fetch_does_not_stop_the_walk() {
    let history = vec![
        HistoryItem::Fetched(msg(1, true, "x")),
        HistoryItem::FetchFailed,
        HistoryItem::Fetched(msg(2, false, "~clean_channel")),
        HistoryItem::Fetched(msg(3, false, "hi")),
        HistoryItem::FetchFailed,
    ];
    assert_eq!(cleanup_action(&HistoryItem::FetchFailed), CleanupAction::Skip);
    let report = cleanup_run(&history);
    assert_eq!(report.deleted, vec![1, 2]);
    assert_eq!(report.skipped, 2);
}

#[test]
fn second_cleanup_deletes_nothing() {
    let ms = vec![
        msg(1, true, "Balance: 1 Wei"),
        msg(2, false, "~balance 0x1"),
        msg(3, false, "gm"),
        msg(4, false, "~"),
        msg(5, false, "wen"),
    ];
    let first = cleanup_run(&fetched(&ms));
    assert_eq!(first.deleted, vec![1, 2, 4]);
    let left: Vec<ChannelMessage> =
        ms.into_iter().filter(|m| !first.deleted.contains(&m.id)).collect();
    let second = cleanup_run(&fetched(&left));
    assert!(second.deleted.is_empty());
    assert_eq!(second.skipped, 0);
}

#[test]
fn empty_history_deletes_nothing() {
    let report = cleanup_run(&Vec::new());
    assert!(report.deleted.is_empty());
    assert_eq!(report.skipped, 0);
}
