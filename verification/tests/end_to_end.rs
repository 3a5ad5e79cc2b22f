use udp_to_redis::cancel::KillPoll;
use udp_to_redis::network::redis::{
    KeyPolicy, PublishAction, PublishEvent, RedisPublisherWorker,
};
use udp_to_redis::network::udp::{IngestAction, IngestEvent, IngestState, UdpWorker};

fn padded(text: &str) -> Vec<u8> {
    let mut buf = vec![0u8; 512];
    buf[..text.len()].copy_from_slice(text.as_bytes());
    buf
}

#[test]
fn ranging_datagram_is_set_and_published() {
    let worker = UdpWorker::new();
    let (worker, action) = worker.step(IngestEvent::Polled(KillPoll::Empty));
    assert_eq!(action, IngestAction::Receive);
    let datagram = padded("{\"source\":\"s1\",\"range\":12.5}");
    let (worker, action) = worker.step(IngestEvent::Received(Some(datagram), Some(1700000000)));
    assert_eq!(worker.state(), IngestState::Forwarding);
    let record = match action {
        IngestAction::Forward(record) => record,
        other => panic!("no record was forwarded: {:?}", other),
    };

    let publisher = RedisPublisherWorker::new(KeyPolicy::PerKind);
    let (publisher, action) = publisher.step(PublishEvent::Polled(KillPoll::Empty));
    assert_eq!(action, PublishAction::Take);
    let (publisher, action) = publisher.step(PublishEvent::Took(Some(record)));
    let expected = "{\"source\":\"s1\",\"range\":12.5,\"timestamp\":1700000000}";
    assert_eq!(
        action,
        PublishAction::Persist {
            key: "tag:motioncapture.uwb".to_string(),
            payload: expected.to_string(),
        }
    );
    let (publisher, action) = publisher.step(PublishEvent::Persisted(true));
    assert_eq!(
        action,
        PublishAction::Broadcast {
            key: "tag:motioncapture.uwb".to_string(),
            payload: expected.to_string(),
        }
    );
    let (publisher, action) = publisher.step(PublishEvent::Broadcast(true));
    assert_eq!(action, PublishAction::Poll);
    assert!(!publisher.exited());
}
