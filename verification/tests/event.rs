use cortex_dispatcher::event::{dispatch_outcome, DispatchError, EventDispatcher, FileEvent};
use tokio::sync::mpsc::error::TryRecvError;
use tokio::sync::mpsc::unbounded_channel;

fn event(file_id: i64, source_name: &str, path: &str) -> FileEvent {
    FileEvent { file_id, source_name: source_name.to_string(), path: path.to_string() }
}

#[test]
fn dispatch_delivers_only_on_the_channel_of_the_source() {
    let (red_tx, mut red_rx) = unbounded_channel();
    let (blue_tx, mut blue_rx) = unbounded_channel();
    let mut dispatcher = EventDispatcher::new();
    assert!(dispatcher.register("red".to_string(), red_tx).is_none());
    assert!(dispatcher.register("blue".to_string(), blue_tx).is_none());
    assert_eq!(dispatcher.len(), 2);

    let sent = event(11, "blue", "/data/in/a.csv");
    assert_eq!(dispatcher.dispatch_event(&sent), Ok(()));

    assert_eq!(blue_rx.try_recv(), Ok(event(11, "blue", "/data/in/a.csv")));
    assert_eq!(blue_rx.try_recv(), Err(TryRecvError::Empty));
    assert_eq!(red_rx.try_recv(), Err(TryRecvError::Empty));
}

#[test]
fn dispatch_keeps_the_order_of_a_source() {
    let (tx, mut rx) = unbounded_channel();
    let mut dispatcher = EventDispatcher::new();
    dispatcher.register("red".to_string(), tx);
    for id in 0..5 {
        assert_eq!(dispatcher.dispatch_event(&event(id, "red", "/in/file")), Ok(()));
    }
    for id in 0..5 {
        assert_eq!(rx.try_recv().unwrap().file_id, id);
    }
}

#[test]
fn dispatch_to_an_unregistered_source_is_refused_by_name() {
    let (tx, mut rx) = unbounded_channel();
    let mut dispatcher = EventDispatcher::new();
    dispatcher.register("red".to_string(), tx);
    let result = dispatcher.dispatch_event(&event(1, "green", "/in/x"));
    assert_eq!(result, Err(DispatchError::UnknownSource("green".to_string())));
    assert_eq!(rx.try_recv(), Err(TryRecvError::Empty));
}

#[test]
fn dispatch_to_a_closed_channel_hands_the_event_back() {
    let (tx, rx) = unbounded_channel();
    let mut dispatcher = EventDispatcher::new();
    dispatcher.register("red".to_string(), tx);
    drop(rx);
    let result = dispatcher.dispatch_event(&event(5, "red", "/in/y"));
    assert_eq!(result, Err(DispatchError::SendFailed(event(5, "red", "/in/y"))));
}

#[test]
fn registering_a_name_again_replaces_its_channel() {
    let (old_tx, mut old_rx) = unbounded_channel();
    let (new_tx, mut new_rx) = unbounded_channel();
    let mut dispatcher = EventDispatcher::new();
    assert!(dispatcher.register("red".to_string(), old_tx).is_none());
    let replaced = dispatcher.register("red".to_string(), new_tx);
    assert!(replaced.is_some());
    assert_eq!(dispatcher.len(), 1);
    assert_eq!(dispatcher.dispatch_event(&event(2, "red", "/in/z")), Ok(()));
    assert_eq!(new_rx.try_recv(), Ok(event(2, "red", "/in/z")));
    assert_eq!(old_rx.try_recv(), Err(TryRecvError::Empty));
    // The sender that was handed back still feeds the old channel.
    replaced.unwrap().send(event(3, "red", "/in/w")).unwrap();
    assert_eq!(old_rx.try_recv(), Ok(event(3, "red", "/in/w")));
}

#[test]
fn route_finds_the_slot_of_a_name() {
    let (a, _ra) = unbounded_channel();
    let (b, _rb) = unbounded_channel();
    let mut dispatcher = EventDispatcher::new();
    dispatcher.register("first".to_string(), a);
    dispatcher.register("second".to_string(), b);
    assert_eq!(dispatcher.route(&"first".to_string()), Some(0));
    assert_eq!(dispatcher.route(&"second".to_string()), Some(1));
    assert_eq!(dispatcher.route(&"third".to_string()), None);
    assert!(dispatcher.channel_for(&"second".to_string()).is_some());
    assert!(dispatcher.channel_for(&"third".to_string()).is_none());
}

#[test]
fn dispatch_outcome_reports_a_refused_event() {
    assert_eq!(dispatch_outcome(Ok(())), Ok(()));
    assert_eq!(
        dispatch_outcome(Err(event(9, "red", "/p"))),
        Err(DispatchError::SendFailed(event(9, "red", "/p")))
    );
}

#[test]
fn a_cloned_event_equals_the_event() {
    let first = event(42, "red", "/in/clone.me");
    assert_eq!(first.clone(), first);
}
