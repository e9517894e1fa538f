use gradr::channel::NotificationChannel;

#[test]
fn new_channel_is_empty() {
    let mut channel: NotificationChannel<u32> = NotificationChannel::new(3);
    assert_eq!(channel.len(), 0);
    assert!(!channel.full());
    assert_eq!(channel.recv(), None);
}

#[test]
fn channel_hands_out_in_the_order_of_sending() {
    let mut channel: NotificationChannel<u32> = NotificationChannel::new(4);
    assert_eq!(channel.send(Some(1)), Ok(()));
    assert_eq!(channel.send(Some(2)), Ok(()));
    assert_eq!(channel.send(None), Ok(()));
    assert_eq!(channel.send(Some(3)), Ok(()));
    assert_eq!(channel.len(), 4);
    assert_eq!(channel.recv(), Some(Some(1)));
    assert_eq!(channel.recv(), Some(Some(2)));
    assert_eq!(channel.recv(), Some(None));
    assert_eq!(channel.recv(), Some(Some(3)));
    assert_eq!(channel.recv(), None);
    assert_eq!(channel.len(), 0);
}

#[test]
fn full_channel_hands_the_item_back() {
    let mut channel: NotificationChannel<u32> = NotificationChannel::new(2);
    assert_eq!(channel.send(Some(1)), Ok(()));
    assert!(!channel.full());
    assert_eq!(channel.send(Some(2)), Ok(()));
    assert!(channel.full());
    assert_eq!(channel.send(Some(3)), Err(Some(3)));
    assert_eq!(channel.send(None), Err(None));
    assert_eq!(channel.len(), 2);
    assert_eq!(channel.recv(), Some(Some(1)));
    assert!(!channel.full());
    assert_eq!(channel.send(Some(3)), Ok(()));
    assert_eq!(channel.recv(), Some(Some(2)));
    assert_eq!(channel.recv(), Some(Some(3)));
}

#[test]
fn channel_without_room_takes_nothing() {
    let mut channel: NotificationChannel<u32> = NotificationChannel::new(0);
    assert!(channel.full());
    assert_eq!(channel.send(Some(1)), Err(Some(1)));
    assert_eq!(channel.recv(), None);
}
