//! The editor IPC notification protocol.
//!
//! The editor process pushes framed notifications over a pipe; the transport
//! decodes the raw bytes into ordered sequences of plain values and hands
//! them to this module as a [`Frame`]. A frame has the shape
//! `[type_tag, method_name, args...]`. Only the methods `"bufenter"`
//! (carrying one path argument) and `"vimleave"` (no argument) are
//! meaningful; every other syntactically valid frame is decoded to an
//! ignored message, never an error.
use vstd::prelude::*;

verus! {

/// One plain value inside a decoded IPC frame: an integer, a piece of text,
/// a nested list, or anything else the wire encoding can carry but the
/// protocol never reads.
pub enum FrameValue {
    Int(i64),
    Text(String),
    List(Vec<FrameValue>),
    Opaque,
}

/// A decoded IPC frame: an ordered sequence of plain values.
pub type Frame = Vec<FrameValue>;

/// A decoded unit read from the IPC channel, consumed once per event-loop
/// tick.
pub enum Message {
    /// The editor entered the buffer for this path.
    BufferEntered(String),
    /// The editor is quitting.
    VimLeave,
    /// A syntactically valid frame that carries no meaningful notification;
    /// it is silently ignored.
    Unrecognized,
}

/// The meaning of a [`Message`], with text reduced to character sequences.
pub enum MessageModel {
    BufferEntered(Seq<char>),
    VimLeave,
    Unrecognized,
}

impl View for Message {
    type V = MessageModel;

    open spec fn view(&self) -> MessageModel {
        match self {
            Message::BufferEntered(p) => MessageModel::BufferEntered(p@),
            Message::VimLeave => MessageModel::VimLeave,
            Message::Unrecognized => MessageModel::Unrecognized,
        }
    }
}

/// The method name of a frame: its second element, when that is text.
pub open spec fn frame_method(frame: Seq<FrameValue>) -> Option<Seq<char>> {
    if frame.len() >= 2 {
        match frame[1] {
            FrameValue::Text(s) => Some(s@),
            _ => None,
        }
    } else {
        None
    }
}

/// The path argument of a buffer-entered frame: the first element of the
/// argument list in the frame's third position, when that is text.
pub open spec fn frame_path_arg(frame: Seq<FrameValue>) -> Option<Seq<char>> {
    if frame.len() >= 3 {
        match frame[2] {
            FrameValue::List(args) => {
                if args@.len() >= 1 {
                    match args@[0] {
                        FrameValue::Text(p) => Some(p@),
                        _ => None,
                    }
                } else {
                    None
                }
            },
            _ => None,
        }
    } else {
        None
    }
}

/// What a frame means: a buffer-entered notification when the method is
/// `"bufenter"` with a textual path argument, a quit notification when the
/// method is `"vimleave"`, and an ignored message otherwise.
pub open spec fn decoded(frame: Seq<FrameValue>) -> MessageModel {
    if frame_method(frame) == Some("bufenter"@) && frame_path_arg(frame) is Some {
        MessageModel::BufferEntered(frame_path_arg(frame)->Some_0)
    } else if frame_method(frame) == Some("vimleave"@) {
        MessageModel::VimLeave
    } else {
        MessageModel::Unrecognized
    }
}

/// Decodes one frame into the message it carries. Every frame decodes to
/// some message; a malformed or unknown frame yields the ignored message
/// and never a failure.
pub fn decode_message(frame: &Frame) -> (m: Message)
    ensures
        m@ == decoded(frame@),
{
    proof {
        reveal_strlit("bufenter");
        reveal_strlit("vimleave");
        assert("bufenter"@[0] != "vimleave"@[0]);
    }
    if frame.len() < 2 {
        return Message::Unrecognized;
    }
    let method: &FrameValue = &frame[1];
    match method {
        FrameValue::Text(name) => {
            if string_eq_literal(name, "bufenter") {
                match path_argument(frame) {
                    Some(p) => Message::BufferEntered(p),
                    None => Message::Unrecognized,
                }
            } else if string_eq_literal(name, "vimleave") {
                Message::VimLeave
            } else {
                Message::Unrecognized
            }
        },
        _ => Message::Unrecognized,
    }
}

/// Extracts the path argument of a frame, when the frame carries one.
fn path_argument(frame: &Frame) -> (r: Option<String>)
    ensures
        match r {
            Some(p) => frame_path_arg(frame@) == Some(p@),
            None => frame_path_arg(frame@) is None,
        },
{
    if frame.len() < 3 {
        return None;
    }
    match &frame[2] {
        FrameValue::List(args) => {
            if args.len() < 1 {
                return None;
            }
            match &args[0] {
                FrameValue::Text(p) => Some(p.clone()),
                _ => None,
            }
        },
        _ => None,
    }
}

/// Returns whether `s` holds exactly the characters of `lit`.
fn string_eq_literal(s: &String, lit: &str) -> (r: bool)
    ensures
        r == (s@ == lit@),
{
    let other = lit.to_owned();
    *s == other
}

} // verus!
