use sitemark::channel::BoundedChannel;
use sitemark::channel::RecvResult;
use sitemark::channel::SendResult;

#[test]
fn channel_is_fifo() {
    let mut c = BoundedChannel::new(4);
    assert!(matches!(c.try_send(String::from("a")), SendResult::Sent));
    assert!(matches!(c.try_send(String::from("b")), SendResult::Sent));
    match c.try_recv() {
        RecvResult::Received(u) => assert_eq!(u, "a"),
        _ => panic!("the oldest event comes out first"),
    }
    match c.try_recv() {
        RecvResult::Received(u) => assert_eq!(u, "b"),
        _ => panic!("the next event follows"),
    }
    assert!(matches!(c.try_recv(), RecvResult::Empty));
}

#[test]
fn channel_backpressure_with_stalled_consumer() {
    // Capacity 2, consumer stalled: the third send is refused with the URL
    // handed back; after the consumer drains one, a send succeeds at once.
    let mut c = BoundedChannel::new(2);
    assert!(matches!(c.try_send(String::from("a")), SendResult::Sent));
    assert!(matches!(c.try_send(String::from("b")), SendResult::Sent));
    match c.try_send(String::from("c")) {
        SendResult::Full(u) => assert_eq!(u, "c"),
        _ => panic!("a full channel must refuse the send"),
    }
    assert!(matches!(c.try_recv(), RecvResult::Received(_)));
    assert!(matches!(c.try_send(String::from("c")), SendResult::Sent));
}

#[test]
fn closed_channel_refuses_sends_but_drains() {
    let mut c = BoundedChannel::new(2);
    assert!(matches!(c.try_send(String::from("a")), SendResult::Sent));
    c.close();
    match c.try_send(String::from("b")) {
        SendResult::Closed(u) => assert_eq!(u, "b"),
        _ => panic!("a closed channel must refuse the send"),
    }
    match c.try_recv() {
        RecvResult::Received(u) => assert_eq!(u, "a"),
        _ => panic!("the backlog stays drainable after close"),
    }
    assert!(matches!(c.try_recv(), RecvResult::Disconnected));
}
