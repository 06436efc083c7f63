use cortex_dispatcher::channels::{
    capacity_of, command_channel, submit_command, SubmitError, COMMAND_CHANNEL_CAPACITY,
};
use cortex_dispatcher::sftp_scanner::SftpDownload;

fn command(n: u64) -> SftpDownload {
    SftpDownload {
        created: 1_700_000_000_000,
        size: Some(n),
        sftp_source: "remote".to_string(),
        path: format!("/upload/{}.csv", n),
    }
}

#[test]
fn the_command_channel_is_bounded_at_4096() {
    assert_eq!(COMMAND_CHANNEL_CAPACITY, 4096);
    let (sender, _receiver) = command_channel();
    assert_eq!(capacity_of(&sender), Some(4096));
}

#[test]
fn a_full_channel_refuses_at_once() {
    let (sender, receiver) = command_channel();
    for n in 0..4096 {
        assert_eq!(submit_command(&sender, command(n)), Ok(()));
    }
    assert_eq!(receiver.len(), 4096);
    // No consumer drains the channel: the next offer comes back instead of
    // blocking this thread.
    assert_eq!(submit_command(&sender, command(4096)), Err(SubmitError::Full(command(4096))));
    assert_eq!(receiver.len(), 4096);
    // Once the consumer has taken one, there is room for one.
    assert_eq!(receiver.try_recv(), Ok(command(0)));
    assert_eq!(submit_command(&sender, command(4097)), Ok(()));
    assert_eq!(
        submit_command(&sender, command(4098)),
        Err(SubmitError::Full(command(4098)))
    );
}

#[test]
fn commands_are_drained_in_the_order_of_submission() {
    let (sender, receiver) = command_channel();
    for n in 0..10 {
        assert_eq!(submit_command(&sender, command(n)), Ok(()));
    }
    for n in 0..10 {
        assert_eq!(receiver.try_recv(), Ok(command(n)));
    }
    assert!(receiver.try_recv().is_err());
}

#[test]
fn a_channel_without_receiver_hands_the_command_back() {
    let (sender, receiver) = command_channel();
    drop(receiver);
    assert_eq!(submit_command(&sender, command(1)), Err(SubmitError::Disconnected(command(1))));
}
