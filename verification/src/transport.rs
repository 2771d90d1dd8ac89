use vstd::prelude::*;
use vstd::string::*;

verus! {

// The line protocol's framing rules. The byte moving itself — console or
// socket — lives with the runner; what a conforming frame looks like is
// fixed here.

/// Longest accepted incoming frame. Longer input is a framing error: the
/// receiver drops it and reads on.
pub const MAX_LINE_LEN: usize = 128;

/// What the framing layer hands the reader for one read attempt.
pub enum FrameEvent {
    /// A complete frame decoded into text.
    Frame(String),
    /// A frame that would not decode, or ran past the length bound.
    Malformed,
    /// The stream ended.
    Closed,
}

/// What the reader does with one frame event.
pub enum ReadAction {
    /// Hand this line to the session.
    Deliver(String),
    /// Drop the frame and read the next one.
    ReadOn,
}

/// The best-effort read policy: a decoded frame is delivered as it is, a
/// malformed frame is dropped and reading goes on, and a stream that ends
/// yields the empty line as the terminal sentinel.
pub fn read_action(ev: FrameEvent) -> (r: ReadAction)
    ensures
        ev matches FrameEvent::Frame(s) ==> (r matches ReadAction::Deliver(d) && d == s),
        ev is Malformed ==> r is ReadOn,
        ev is Closed ==> (r matches ReadAction::Deliver(d) && d@ == Seq::<char>::empty()),
{
    match ev {
        FrameEvent::Frame(s) => ReadAction::Deliver(s),
        FrameEvent::Malformed => ReadAction::ReadOn,
        FrameEvent::Closed => ReadAction::Deliver(String::new()),
    }
}

/// One outgoing frame: the line with the carriage-return marker the protocol
/// puts before the newline the framing layer adds, so terminal clients
/// render correctly.
pub fn frame_line(line: &str) -> (r: String)
    ensures
        r@ == line@ + "\r"@,
{
    let mut s = String::from_str(line);
    s.append("\r");
    s
}

} // verus!
