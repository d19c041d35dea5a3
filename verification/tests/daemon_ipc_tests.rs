use dragonfox_vpn::daemon_ipc::{
    command_queue_from, dequeue_command, enqueue_command, DaemonCommand, MAX_COMMAND_QUEUE,
};

#[test]
fn test_command_file_roundtrip_and_clear() {
    let mut queue: Vec<DaemonCommand> = Vec::new();
    enqueue_command(&mut queue, DaemonCommand::Reconnect);
    enqueue_command(&mut queue, DaemonCommand::ReloadConfig);

    let cmd1 = dequeue_command(&mut queue);
    assert!(matches!(cmd1, Some(DaemonCommand::Reconnect)));

    let cmd2 = dequeue_command(&mut queue);
    assert!(matches!(cmd2, Some(DaemonCommand::ReloadConfig)));

    // Queue should now be empty.
    let none_again = dequeue_command(&mut queue);
    assert!(none_again.is_none());
}

#[test]
fn test_command_take_supports_legacy_single_command_json() {
    // Older versions wrote a single command instead of a list.
    let mut queue = command_queue_from(None, Some(DaemonCommand::Reconnect));
    let cmd = dequeue_command(&mut queue);
    assert!(matches!(cmd, Some(DaemonCommand::Reconnect)));
}

#[test]
fn test_restart_command_file_roundtrip() {
    let mut queue: Vec<DaemonCommand> = Vec::new();
    enqueue_command(&mut queue, DaemonCommand::Restart);
    let cmd = dequeue_command(&mut queue);
    assert!(matches!(cmd, Some(DaemonCommand::Restart)));
}

#[test]
fn test_command_queue_is_bounded() {
    let mut queue: Vec<DaemonCommand> = Vec::new();

    for _ in 0..40 {
        enqueue_command(&mut queue, DaemonCommand::Reconnect);
    }

    let mut count = 0;
    while dequeue_command(&mut queue).is_some() {
        count += 1;
    }

    assert_eq!(count, 32, "command queue should be capped at 32");
}

#[test]
fn command_queue_drops_the_oldest() {
    let mut queue: Vec<DaemonCommand> = Vec::new();
    enqueue_command(&mut queue, DaemonCommand::Quit);
    for _ in 0..MAX_COMMAND_QUEUE - 1 {
        enqueue_command(&mut queue, DaemonCommand::Reconnect);
    }
    assert_eq!(queue.len(), MAX_COMMAND_QUEUE);
    assert_eq!(queue[0], DaemonCommand::Quit);
    enqueue_command(&mut queue, DaemonCommand::Restart);
    assert_eq!(queue.len(), MAX_COMMAND_QUEUE);
    assert_eq!(queue[0], DaemonCommand::Reconnect);
    assert_eq!(queue[MAX_COMMAND_QUEUE - 1], DaemonCommand::Restart);
}

#[test]
fn command_queue_from_prefers_the_list() {
    let q = command_queue_from(
        Some(vec![DaemonCommand::ReloadConfig, DaemonCommand::Quit]),
        Some(DaemonCommand::Reconnect),
    );
    assert_eq!(q, vec![DaemonCommand::ReloadConfig, DaemonCommand::Quit]);
    assert!(command_queue_from(None, None).is_empty());
}
