use livescript::handler::{
    broadcaster_handle_event, broadcaster_init, broadcaster_step, subscriber_handshake,
    PumpSignal, SocketEvent,
};
use livescript::registry::Registry;

#[test]
fn broadcaster_observes_its_own_join_notice() {
    let mut reg = Registry::new();
    let (id, mut cur) = broadcaster_init(&mut reg, "10.0.0.1:1111".to_string());
    let notice = reg.recv(&mut cur);
    assert_eq!(
        notice,
        Some(format!("Broadcast {id} started. 10.0.0.1:1111 joined."))
    );
    assert_eq!(reg.recv(&mut cur), None);
}

#[test]
fn subscriber_receives_forwarded_commands_verbatim() {
    let mut reg = Registry::new();
    let (id, _) = broadcaster_init(&mut reg, "10.0.0.1:1111".to_string());
    let mut sub = subscriber_handshake(&mut reg, &id, "10.0.0.2:2222".to_string()).unwrap();
    // The cursor was attached after the join notice's publication, so it
    // starts with the frames published from now on.
    assert_eq!(reg.recv(&mut sub), None);
    let key = sub.room();
    assert_eq!(
        broadcaster_step(&mut reg, key, "scroll:speed_3".to_string()),
        PumpSignal::Continue
    );
    assert_eq!(reg.recv(&mut sub), Some("scroll:speed_3".to_string()));
    assert_eq!(reg.recv(&mut sub), None);
}

#[test]
fn state_end_stops_the_pump_and_is_never_relayed() {
    let mut reg = Registry::new();
    let (id, _) = broadcaster_init(&mut reg, "10.0.0.1:1111".to_string());
    let mut sub = subscriber_handshake(&mut reg, &id, "10.0.0.2:2222".to_string()).unwrap();
    let key = sub.room();
    for frame in ["state:end", "STATE:END", "State:End"] {
        assert_eq!(
            broadcaster_step(&mut reg, key, frame.to_string()),
            PumpSignal::Stop
        );
    }
    assert_eq!(reg.recv(&mut sub), None);
}

#[test]
fn unrecognized_text_reaches_subscribers_as_the_invalid_notice() {
    let mut reg = Registry::new();
    let (id, _) = broadcaster_init(&mut reg, "10.0.0.1:1111".to_string());
    let mut sub = subscriber_handshake(&mut reg, &id, "10.0.0.2:2222".to_string()).unwrap();
    let key = sub.room();
    assert_eq!(
        broadcaster_step(&mut reg, key, "foo".to_string()),
        PumpSignal::Continue
    );
    assert_eq!(reg.recv(&mut sub), Some("Invalid message".to_string()));
    assert_eq!(reg.recv(&mut sub), None);
}

#[test]
fn unknown_id_is_refused_without_touching_any_room() {
    let mut reg = Registry::new();
    let (_, cur) = broadcaster_init(&mut reg, "10.0.0.1:1111".to_string());
    let reply = subscriber_handshake(&mut reg, "not-a-uuid", "10.0.0.2:2222".to_string());
    assert_eq!(reply, Err("Broadcast doesn't exist!".to_string()));
    assert_eq!(reg.subscriber_count(cur.room()), Some(1));
}

#[test]
fn end_of_stream_stops_the_inbound_pump() {
    let mut reg = Registry::new();
    let (_, mut cur) = broadcaster_init(&mut reg, "10.0.0.1:1111".to_string());
    let key = cur.room();
    assert_eq!(
        broadcaster_handle_event(&mut reg, key, SocketEvent::Closed),
        PumpSignal::Stop
    );
    // Nothing was published by the closing event; only the join notice is
    // in the room's history.
    assert!(reg.recv(&mut cur).is_some());
    assert_eq!(reg.recv(&mut cur), None);
}

#[test]
fn events_carrying_frames_run_the_command_protocol() {
    let mut reg = Registry::new();
    let (id, _) = broadcaster_init(&mut reg, "10.0.0.1:1111".to_string());
    let mut sub = subscriber_handshake(&mut reg, &id, "10.0.0.2:2222".to_string()).unwrap();
    let key = sub.room();
    assert_eq!(
        broadcaster_handle_event(&mut reg, key, SocketEvent::Frame("TIMING:RESET".to_string())),
        PumpSignal::Continue
    );
    assert_eq!(reg.recv(&mut sub), Some("TIMING:RESET".to_string()));
}
