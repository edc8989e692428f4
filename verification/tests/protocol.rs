use livescript::protocol::{parse_command, process_frame, Command, FrameDisposition};

#[test]
fn parse_full_vocabulary() {
    assert_eq!(parse_command("scroll"), Command::Scroll);
    assert_eq!(parse_command("scroll:speed_1"), Command::ScrollSpeed1);
    assert_eq!(parse_command("scroll:speed_2"), Command::ScrollSpeed2);
    assert_eq!(parse_command("scroll:speed_3"), Command::ScrollSpeed3);
    assert_eq!(parse_command("scroll:speed_4"), Command::ScrollSpeed4);
    assert_eq!(parse_command("scroll:speed_5"), Command::ScrollSpeed5);
    assert_eq!(parse_command("timing:one_minute"), Command::OneMinute);
    assert_eq!(parse_command("timing:thirty_seconds"), Command::ThirtySeconds);
    assert_eq!(parse_command("timing:wrap"), Command::Wrap);
    assert_eq!(parse_command("timing:hard_wrap"), Command::HardWrap);
    assert_eq!(parse_command("timing:reset"), Command::ResetTiming);
    assert_eq!(parse_command("state:end"), Command::End);
    assert_eq!(parse_command("foo"), Command::Unrecognized);
    assert_eq!(parse_command(""), Command::Unrecognized);
    assert_eq!(parse_command("scroll:speed_6"), Command::Unrecognized);
}

#[test]
fn recognized_frame_is_forwarded_unchanged() {
    match process_frame("SCROLL".to_string()) {
        FrameDisposition::Publish(m) => assert_eq!(m, "SCROLL"),
        FrameDisposition::Halt => panic!("a scroll command must not halt the pump"),
    }
    match process_frame("Timing:Hard_Wrap".to_string()) {
        FrameDisposition::Publish(m) => assert_eq!(m, "Timing:Hard_Wrap"),
        FrameDisposition::Halt => panic!("a timing command must not halt the pump"),
    }
}

#[test]
fn state_end_halts_in_any_letter_case() {
    for frame in ["state:end", "STATE:END", "State:End", "sTaTe:eNd"] {
        assert!(matches!(process_frame(frame.to_string()), FrameDisposition::Halt));
    }
}

#[test]
fn unrecognized_frame_is_replaced_by_invalid_notice() {
    for frame in ["foo", "", "scroll ", "scroll:speed_0", "state:end "] {
        match process_frame(frame.to_string()) {
            FrameDisposition::Publish(m) => assert_eq!(m, "Invalid message"),
            FrameDisposition::Halt => panic!("only state:end may halt the pump"),
        }
    }
}
