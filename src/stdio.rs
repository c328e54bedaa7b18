//! The line-delimited standard-stream session: what each input line leads
//! to, the transport's life cycle, and the replies a session writes.

use vstd::prelude::*;
use crate::json::JsonValue;
use crate::protocol::{message_of, CodecError, McpMessage};

verus! {

/// One read from the input stream.
#[derive(Debug, PartialEq)]
pub enum LineInput {
    /// Nothing more can be read.
    EndOfInput,
    /// A line holding only whitespace.
    Blank,
    /// A line that is no JSON text.
    Malformed,
    /// A line holding one JSON document.
    Json(JsonValue),
}

/// What the session does with one read.
#[derive(Debug, PartialEq)]
pub enum LineAction {
    /// Hand the message to the session handler.
    Dispatch(McpMessage),
    /// Log the problem, if any, and read the next line.
    Skip,
    /// Leave the loop.
    Stop,
}

/// Life cycle of the stdio transport.
#[derive(Debug, Clone, Copy, PartialEq, Eq, Structural)]
pub enum StdioState {
    Idle,
    Running,
    ShuttingDown,
    Stopped,
}

/// What one read leads to: the end of input stops the loop, a line that
/// decodes to a message is dispatched, and every other line is skipped.
pub open spec fn line_action(input: LineInput) -> LineAction {
    match input {
        LineInput::EndOfInput => LineAction::Stop,
        LineInput::Json(v) => match message_of(v) {
            Ok(m) => LineAction::Dispatch(m),
            Err(_) => LineAction::Skip,
        },
        _ => LineAction::Skip,
    }
}

/// The replies a session writes, in order, for the lines read before the end
/// of input, when the handler answers message `m` with `handler(m)`.
pub open spec fn session_replies(
    lines: Seq<LineInput>,
    handler: spec_fn(McpMessage) -> Option<McpMessage>,
) -> Seq<McpMessage>
    decreases lines.len(),
{
    if lines.len() == 0 {
        Seq::empty()
    } else {
        let before = session_replies(lines.drop_last(), handler);
        match line_action(lines.last()) {
            LineAction::Dispatch(m) => match handler(m) {
                Some(r) => before.push(r),
                None => before,
            },
            _ => before,
        }
    }
}

/// Whether `m` is a request, which expects a reply.
pub open spec fn is_request(m: McpMessage) -> bool {
    m is Initialize || m is ToolsList || m is ToolsCall
}

/// The id of a request or a response.
pub open spec fn message_id(m: McpMessage) -> Option<u64> {
    match m {
        McpMessage::Initialize { id, .. } => Some(id),
        McpMessage::ToolsList { id } => Some(id),
        McpMessage::ToolsCall { id, .. } => Some(id),
        McpMessage::Response { id, .. } => Some(id),
        McpMessage::Notification { .. } => None,
    }
}

/// The message a line holds, if it holds one.
pub open spec fn line_message(input: LineInput) -> Option<McpMessage> {
    match line_action(input) {
        LineAction::Dispatch(m) => Some(m),
        _ => None,
    }
}

/// The handler answers message `m` with one response of the same id.
pub open spec fn answers(handler: spec_fn(McpMessage) -> Option<McpMessage>, m: McpMessage) -> bool {
    &&& handler(m) matches Some(r)
    &&& r is Response
    &&& message_id(r) == message_id(m)
}

/// For N request lines read in order, a handler that answers each of these
/// requests makes the session write exactly N replies, the i-th one with the id of the
/// i-th request.
pub proof fn lemma_one_reply_per_request(
    lines: Seq<LineInput>,
    handler: spec_fn(McpMessage) -> Option<McpMessage>,
)
    requires
        forall|i: int| 0 <= i < lines.len() ==> {
            &&& #[trigger] line_message(lines[i]) matches Some(m)
            &&& is_request(m)
            &&& answers(handler, m)
        },
    ensures
        session_replies(lines, handler).len() == lines.len(),
        forall|i: int| 0 <= i < lines.len() ==> {
            &&& (#[trigger] session_replies(lines, handler)[i]) is Response
            &&& message_id(session_replies(lines, handler)[i]) == message_id(line_message(lines[i])->0)
        },
    decreases lines.len(),
{
    if lines.len() > 0 {
        let init = lines.drop_last();
        assert forall|i: int| 0 <= i < init.len() implies {
            &&& #[trigger] line_message(init[i]) matches Some(m)
            &&& is_request(m)
            &&& answers(handler, m)
        } by {
            assert(init[i] == lines[i]);
        }
        lemma_one_reply_per_request(init, handler);
        let last = lines.len() - 1;
        assert(line_message(lines[last]) is Some);
        let m = line_message(lines[last])->0;
        assert(is_request(m));
        assert(lines.last() == lines[last]);
        let before = session_replies(init, handler);
        assert(session_replies(lines, handler) == before.push(handler(m)->0));
        assert forall|i: int| 0 <= i < lines.len() implies {
            &&& (#[trigger] session_replies(lines, handler)[i]) is Response
            &&& message_id(session_replies(lines, handler)[i]) == message_id(line_message(lines[i])->0)
        } by {
            if i < last {
                assert(session_replies(lines, handler)[i] == before[i]);
                assert(init[i] == lines[i]);
            }
        }
    }
}

/// A line that holds no message (a malformed one, say) between other lines
/// adds no reply and changes none of the replies to the lines around it.
pub proof fn lemma_skipped_line_changes_nothing(
    before: Seq<LineInput>,
    skipped: LineInput,
    after: Seq<LineInput>,
    handler: spec_fn(McpMessage) -> Option<McpMessage>,
)
    requires
        line_action(skipped) is Skip,
    ensures
        session_replies(before.push(skipped) + after, handler) == session_replies(before + after, handler),
    decreases after.len(),
{
    if after.len() == 0 {
        assert(before.push(skipped) + after =~= before.push(skipped));
        assert(before + after =~= before);
        assert(before.push(skipped).drop_last() =~= before);
    } else {
        lemma_skipped_line_changes_nothing(before, skipped, after.drop_last(), handler);
        assert((before.push(skipped) + after).drop_last() =~= before.push(skipped) + after.drop_last());
        assert((before + after).drop_last() =~= before + after.drop_last());
        assert((before.push(skipped) + after).last() == after.last());
        assert((before + after).last() == after.last());
    }
}

/// The stdio transport's own state: where it is in its life cycle and
/// whether a shutdown was asked for.
#[derive(Debug)]
pub struct StdioTransport {
    state: StdioState,
    shutdown_signal: bool,
}

impl StdioTransport {
    pub closed spec fn spec_state(&self) -> StdioState {
        self.state
    }

    pub closed spec fn spec_shutdown(&self) -> bool {
        self.shutdown_signal
    }

    /// A transport that has not started, with no shutdown asked for.
    pub fn new() -> (r: StdioTransport)
        ensures
            r.spec_state() == StdioState::Idle,
            !r.spec_shutdown(),
    {
        StdioTransport { state: StdioState::Idle, shutdown_signal: false }
    }

    /// The state of the life cycle.
    pub fn state(&self) -> (r: StdioState)
        ensures
            r == self.spec_state(),
    {
        self.state
    }

    /// Whether a shutdown was asked for.
    pub fn is_shutdown_requested(&self) -> (r: bool)
        ensures
            r == self.spec_shutdown(),
    {
        self.shutdown_signal
    }

    /// Enters the loop: the transport runs, and an earlier shutdown request
    /// is forgotten.
    pub fn start(&mut self)
        ensures
            final(self).spec_state() == StdioState::Running,
            !final(self).spec_shutdown(),
    {
        self.state = StdioState::Running;
        self.shutdown_signal = false;
    }

    /// Asks the loop to stop before its next read; a running transport
    /// begins to shut down.
    pub fn request_shutdown(&mut self)
        ensures
            final(self).spec_shutdown(),
            final(self).spec_state() == if old(self).spec_state() == StdioState::Running {
                StdioState::ShuttingDown
            } else {
                old(self).spec_state()
            },
    {
        self.shutdown_signal = true;
        if self.state == StdioState::Running {
            self.state = StdioState::ShuttingDown;
        }
    }

    /// Checked at the top of each iteration: whether the loop may read
    /// another line. When it may not, the transport has stopped.
    pub fn should_read(&mut self) -> (r: bool)
        ensures
            r == (!old(self).spec_shutdown() && old(self).spec_state() == StdioState::Running),
            r ==> final(self).spec_state() == old(self).spec_state(),
            !r ==> final(self).spec_state() == StdioState::Stopped,
            final(self).spec_shutdown() == old(self).spec_shutdown(),
    {
        if !self.shutdown_signal && self.state == StdioState::Running {
            true
        } else {
            self.state = StdioState::Stopped;
            false
        }
    }

    /// What one read leads to; at the end of input the transport stops.
    pub fn read_message(&mut self, input: LineInput) -> (r: LineAction)
        ensures
            r == line_action(input),
            r is Stop ==> final(self).spec_state() == StdioState::Stopped,
            !(r is Stop) ==> final(self).spec_state() == old(self).spec_state(),
            final(self).spec_shutdown() == old(self).spec_shutdown(),
    {
        match input {
            LineInput::EndOfInput => {
                self.state = StdioState::Stopped;
                LineAction::Stop
            },
            LineInput::Json(v) => match McpMessage::decode(v) {
                Ok(m) => LineAction::Dispatch(m),
                Err(_) => LineAction::Skip,
            },
            _ => LineAction::Skip,
        }
    }

    /// The line to write for the handler's answer: one JSON document for a
    /// reply, nothing when there is none.
    pub fn write_message(reply: Option<McpMessage>) -> (r: Option<JsonValue>)
        ensures
            match reply {
                Some(m) => r matches Some(v) && message_of(v) == Ok::<McpMessage, CodecError>(m),
                None => r is None,
            },
    {
        match reply {
            Some(m) => Some(m.encode()),
            None => None,
        }
    }
}

} // verus!
