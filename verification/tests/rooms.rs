use livescript::room::{Channel, CHANNEL_CAPACITY};

#[test]
fn frames_arrive_in_publish_order() {
    let mut ch = Channel::new();
    let mut cur = ch.attach(7);
    assert_eq!(cur.room(), 7);
    assert_eq!(ch.recv(&mut cur), None);
    assert!(ch.publish("a".to_string()));
    assert!(ch.publish("b".to_string()));
    assert!(ch.publish("c".to_string()));
    assert_eq!(ch.recv(&mut cur), Some("a".to_string()));
    assert_eq!(ch.recv(&mut cur), Some("b".to_string()));
    assert_eq!(ch.recv(&mut cur), Some("c".to_string()));
    assert_eq!(ch.recv(&mut cur), None);
}

#[test]
fn cursor_attached_after_publication_sees_nothing_earlier() {
    let mut ch = Channel::new();
    assert!(ch.publish("early".to_string()));
    assert!(ch.publish("earlier still".to_string()));
    let mut cur = ch.attach(0);
    assert_eq!(ch.recv(&mut cur), None);
    assert!(ch.publish("late".to_string()));
    assert_eq!(ch.recv(&mut cur), Some("late".to_string()));
}

#[test]
fn lagging_cursor_loses_the_oldest_frames() {
    let mut ch = Channel::new();
    let mut cur = ch.attach(0);
    for i in 0..13 {
        assert!(ch.publish(format!("m{i}")));
    }
    // Two frames more than the capacity of 11 were published, so the two
    // oldest are gone; the cursor resumes at the oldest retained frame.
    assert_eq!(ch.recv(&mut cur), Some("m2".to_string()));
    let mut received = 1;
    while let Some(_) = ch.recv(&mut cur) {
        received += 1;
    }
    assert_eq!(received, CHANNEL_CAPACITY);
}

#[test]
fn drain_yields_the_retained_window_in_publish_order() {
    let mut ch = Channel::new();
    let mut early = ch.attach(3);
    for i in 0..13 {
        assert!(ch.publish(format!("m{i}")));
    }
    let mut late = ch.attach(3);
    // The early cursor lagged by two frames beyond the capacity: it gets the
    // eleven retained frames, oldest first.
    let expected: Vec<String> = (2..13).map(|i| format!("m{i}")).collect();
    assert_eq!(ch.drain(&mut early), expected);
    // The cursor attached after all publications observes none of them.
    assert_eq!(ch.drain(&mut late), Vec::<String>::new());
    assert!(ch.publish("fresh".to_string()));
    assert_eq!(ch.drain(&mut late), vec!["fresh".to_string()]);
}

#[test]
fn cursors_track_their_positions_independently() {
    let mut ch = Channel::new();
    let mut one = ch.attach(1);
    assert!(ch.publish("x".to_string()));
    let mut two = ch.attach(1);
    assert!(ch.publish("y".to_string()));
    assert_eq!(ch.recv(&mut one), Some("x".to_string()));
    assert_eq!(ch.recv(&mut two), Some("y".to_string()));
    assert_eq!(ch.recv(&mut one), Some("y".to_string()));
    assert_eq!(ch.recv(&mut two), None);
    assert_eq!(ch.recv(&mut one), None);
}
