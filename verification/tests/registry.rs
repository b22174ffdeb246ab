use crowd_sim::channel::MessageToConnectionHandler;
use crowd_sim::channel::MessageToSimulation;
use crowd_sim::channel::Senders;
use tokio::sync::mpsc::unbounded_channel;

#[test]
fn send_to_a_registered_connection_delivers_the_message() {
    let mut senders = Senders::new();
    let (tx, mut rx) = unbounded_channel::<MessageToConnectionHandler>();
    senders.insert_conn_handler_sender(7, tx);
    assert!(senders.has_conn_handler(7));
    assert!(senders.send_to_conn_handler(7, MessageToConnectionHandler {}));
    assert!(rx.try_recv().is_ok());
    assert!(rx.try_recv().is_err());
}

#[test]
fn send_to_an_unregistered_connection_is_a_silent_noop() {
    let mut senders = Senders::new();
    let (tx, mut rx) = unbounded_channel::<MessageToConnectionHandler>();
    senders.insert_conn_handler_sender(1, tx);
    assert!(!senders.send_to_conn_handler(2, MessageToConnectionHandler {}));
    assert!(rx.try_recv().is_err());
    assert!(!senders.has_conn_handler(2));
}

#[test]
fn removing_a_connection_unregisters_its_sender() {
    let mut senders = Senders::new();
    let (tx, mut rx) = unbounded_channel::<MessageToConnectionHandler>();
    senders.insert_conn_handler_sender(3, tx);
    senders.remove_conn_handler_sender(3);
    assert!(!senders.has_conn_handler(3));
    assert!(!senders.send_to_conn_handler(3, MessageToConnectionHandler {}));
    assert!(rx.try_recv().is_err());
}

#[test]
fn simulation_sender_delivers_once_registered() {
    let mut senders = Senders::new();
    assert!(!senders.send_to_sim(MessageToSimulation {}));
    let (tx, mut rx) = unbounded_channel::<MessageToSimulation>();
    senders.insert_sim_sender(tx);
    assert!(senders.send_to_sim(MessageToSimulation {}));
    assert!(rx.try_recv().is_ok());
}

#[test]
fn reregistering_a_connection_replaces_its_sender() {
    let mut senders = Senders::new();
    let (tx_a, mut rx_a) = unbounded_channel::<MessageToConnectionHandler>();
    let (tx_b, mut rx_b) = unbounded_channel::<MessageToConnectionHandler>();
    senders.insert_conn_handler_sender(5, tx_a);
    senders.insert_conn_handler_sender(5, tx_b);
    assert!(senders.send_to_conn_handler(5, MessageToConnectionHandler {}));
    assert!(rx_a.try_recv().is_err());
    assert!(rx_b.try_recv().is_ok());
}

#[test]
fn each_connection_gets_its_own_channel() {
    let mut senders = Senders::new();
    let (tx_a, mut rx_a) = unbounded_channel::<MessageToConnectionHandler>();
    let (tx_b, mut rx_b) = unbounded_channel::<MessageToConnectionHandler>();
    senders.insert_conn_handler_sender(10, tx_a);
    senders.insert_conn_handler_sender(20, tx_b);
    assert!(senders.send_to_conn_handler(20, MessageToConnectionHandler {}));
    assert!(rx_a.try_recv().is_err());
    assert!(rx_b.try_recv().is_ok());
}
