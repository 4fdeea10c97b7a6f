use adguard_youtube::mqtt::MqttCommand;
use adguard_youtube::queue::{CommandQueue, QUEUE_CAPACITY};

#[test]
fn queue_is_fifo() {
    let mut q = CommandQueue::new(QUEUE_CAPACITY);
    assert!(q.try_enqueue(MqttCommand::EnableYouTube));
    assert!(q.try_enqueue(MqttCommand::DisableYouTube));
    assert!(q.try_enqueue(MqttCommand::EnableYouTube));
    assert_eq!(q.dequeue(), Some(MqttCommand::EnableYouTube));
    assert_eq!(q.dequeue(), Some(MqttCommand::DisableYouTube));
    assert_eq!(q.dequeue(), Some(MqttCommand::EnableYouTube));
    assert_eq!(q.dequeue(), None);
}

#[test]
fn full_queue_refuses_the_eleventh_command_until_one_drains() {
    let mut q = CommandQueue::new(QUEUE_CAPACITY);
    for _ in 0..QUEUE_CAPACITY {
        assert!(q.try_enqueue(MqttCommand::EnableYouTube));
    }
    assert_eq!(q.len(), 10);
    // The eleventh command is refused while nothing has been drained.
    assert!(!q.try_enqueue(MqttCommand::DisableYouTube));
    assert_eq!(q.len(), 10);
    // Draining one makes room again.
    assert_eq!(q.dequeue(), Some(MqttCommand::EnableYouTube));
    assert!(q.try_enqueue(MqttCommand::DisableYouTube));
    assert_eq!(q.len(), 10);
}

#[test]
fn channel_backpressure_blocks_producer_until_consumer_drains() {
    // The process wires the listener and the dispatcher's consumer with a
    // bounded channel of the library's capacity; a stalled consumer must
    // stall the eleventh send rather than lose it.
    let rt = tokio::runtime::Builder::new_current_thread()
        .enable_time()
        .build()
        .unwrap();
    rt.block_on(async {
        let (tx, mut rx) = tokio::sync::mpsc::channel::<MqttCommand>(QUEUE_CAPACITY);
        for _ in 0..QUEUE_CAPACITY {
            tx.try_send(MqttCommand::EnableYouTube).unwrap();
        }
        // The consumer stalls: the eleventh send stays pending.
        let pending = tokio::time::timeout(
            std::time::Duration::from_millis(50),
            tx.send(MqttCommand::DisableYouTube),
        )
        .await;
        assert!(pending.is_err(), "the producer must block while the queue is full");
        // Once the consumer drains one command, a send goes through.
        assert_eq!(rx.recv().await, Some(MqttCommand::EnableYouTube));
        let sent = tokio::time::timeout(
            std::time::Duration::from_millis(1000),
            tx.send(MqttCommand::DisableYouTube),
        )
        .await;
        assert!(sent.is_ok(), "the producer must resume once one command is drained");
    });
}
