//! The command protocol: a pure mapping from one inbound text frame to the
//! frame that is published on the room's channel, or to the end-of-session
//! signal. The vocabulary is closed and matched case-insensitively against
//! the lower-cased frame text.
use vstd::prelude::*;

verus! {

/// The closed command vocabulary, plus a fallback arm for any text outside it.
#[derive(Clone, Copy, PartialEq, Eq, Structural, Debug)]
pub enum Command {
    Scroll,
    ScrollSpeed1,
    ScrollSpeed2,
    ScrollSpeed3,
    ScrollSpeed4,
    ScrollSpeed5,
    OneMinute,
    ThirtySeconds,
    Wrap,
    HardWrap,
    ResetTiming,
    End,
    Unrecognized,
}

/// Which command a lower-cased frame text denotes.
pub open spec fn spec_command_of(lower: Seq<char>) -> Command {
    if lower == "scroll"@ {
        Command::Scroll
    } else if lower == "scroll:speed_1"@ {
        Command::ScrollSpeed1
    } else if lower == "scroll:speed_2"@ {
        Command::ScrollSpeed2
    } else if lower == "scroll:speed_3"@ {
        Command::ScrollSpeed3
    } else if lower == "scroll:speed_4"@ {
        Command::ScrollSpeed4
    } else if lower == "scroll:speed_5"@ {
        Command::ScrollSpeed5
    } else if lower == "timing:one_minute"@ {
        Command::OneMinute
    } else if lower == "timing:thirty_seconds"@ {
        Command::ThirtySeconds
    } else if lower == "timing:wrap"@ {
        Command::Wrap
    } else if lower == "timing:hard_wrap"@ {
        Command::HardWrap
    } else if lower == "timing:reset"@ {
        Command::ResetTiming
    } else if lower == "state:end"@ {
        Command::End
    } else {
        Command::Unrecognized
    }
}

/// A recognized command other than the terminate command is forwarded to the
/// channel unchanged.
pub open spec fn is_forwarded(c: Command) -> bool {
    !(c is End || c is Unrecognized)
}

/// The fixed notice that replaces any unrecognized frame before publication.
pub open spec fn invalid_notice() -> Seq<char> {
    "Invalid message"@
}

/// What `str::to_lowercase` returns; the result depends on the characters
/// of the input alone.
pub uninterp spec fn lower_of(s: Seq<char>) -> Seq<char>;

/// Relies on `str::to_lowercase`: returns the lower-cased equivalent of the
/// input, a function of the input's characters alone.
#[verifier::external_body]
fn lowercase_frame(s: &str) -> (r: String)
    ensures
        r@ == lower_of(s@),
{
    s.to_lowercase()
}

/// Equality of two string slices, by their character sequences.
fn str_eq(a: &str, b: &str) -> (r: bool)
    ensures
        r == (a@ == b@),
{
    let owned_a = a.to_owned();
    let owned_b = b.to_owned();
    owned_a == owned_b
}

/// Parses an already lower-cased frame text into the command it denotes.
pub fn parse_command(lower: &str) -> (c: Command)
    ensures
        c == spec_command_of(lower@),
{
    if str_eq(lower, "scroll") {
        Command::Scroll
    } else if str_eq(lower, "scroll:speed_1") {
        Command::ScrollSpeed1
    } else if str_eq(lower, "scroll:speed_2") {
        Command::ScrollSpeed2
    } else if str_eq(lower, "scroll:speed_3") {
        Command::ScrollSpeed3
    } else if str_eq(lower, "scroll:speed_4") {
        Command::ScrollSpeed4
    } else if str_eq(lower, "scroll:speed_5") {
        Command::ScrollSpeed5
    } else if str_eq(lower, "timing:one_minute") {
        Command::OneMinute
    } else if str_eq(lower, "timing:thirty_seconds") {
        Command::ThirtySeconds
    } else if str_eq(lower, "timing:wrap") {
        Command::Wrap
    } else if str_eq(lower, "timing:hard_wrap") {
        Command::HardWrap
    } else if str_eq(lower, "timing:reset") {
        Command::ResetTiming
    } else if str_eq(lower, "state:end") {
        Command::End
    } else {
        Command::Unrecognized
    }
}

/// What becomes of one inbound frame: either a frame to publish on the
/// room's channel, or the signal that the inbound pump must stop.
pub enum FrameDisposition {
    Publish(String),
    Halt,
}

/// Maps one inbound frame through the command protocol. The terminate
/// command halts the pump and is never published; any other recognized
/// command is forwarded unchanged; anything else is replaced by the fixed
/// invalid notice.
pub fn process_frame(frame: String) -> (d: FrameDisposition)
    ensures
        d is Halt <==> spec_command_of(lower_of(frame@)) is End,
        is_forwarded(spec_command_of(lower_of(frame@))) ==> (d matches FrameDisposition::Publish(m)
            && m@ == frame@),
        spec_command_of(lower_of(frame@)) is Unrecognized ==> (d matches FrameDisposition::Publish(
            m,
        ) && m@ == invalid_notice()),
{
    let lower = lowercase_frame(frame.as_str());
    let c = parse_command(lower.as_str());
    if c == Command::End {
        FrameDisposition::Halt
    } else if c == Command::Unrecognized {
        FrameDisposition::Publish("Invalid message".to_owned())
    } else {
        FrameDisposition::Publish(frame)
    }
}

} // verus!
