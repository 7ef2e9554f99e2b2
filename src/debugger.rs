use vstd::prelude::*;

verus! {

/// A request of the debug adapter protocol, reduced to what the debugger
/// decides on: its kind and its sequence number.
#[derive(Debug, Clone, Copy, PartialEq, Eq, Structural)]
pub enum Request {
    Initialize { seq: i64 },
    SetExceptionBreakpoints { seq: i64 },
    Attach { seq: i64 },
    /// Any request that the debugger does not handle.
    Unsupported,
}

/// The kinds of messages that the debugger sends.
#[derive(Debug, Clone, Copy, PartialEq, Eq, Structural)]
pub enum ReplyKind {
    InitializeResponse,
    InitializedEvent,
    SetExceptionBreakpointsResponse,
    AttachResponse,
    StoppedEvent,
}

/// A message that the debugger sends, with its sequence number and, for a
/// response, the sequence number of the request it answers.
#[derive(Debug, Clone, Copy, PartialEq, Eq, Structural)]
pub struct Reply {
    pub kind: ReplyKind,
    pub seq: i64,
    pub request_seq: Option<i64>,
}

impl ReplyKind {
    pub open spec fn is_response(self) -> bool {
        !(self is InitializedEvent || self is StoppedEvent)
    }

    /// The protocol message type: "response" or "event".
    pub fn message_type(&self) -> (r: &'static str)
        ensures
            self.is_response() ==> r == "response",
            !self.is_response() ==> r == "event",
    {
        match self {
            ReplyKind::InitializedEvent | ReplyKind::StoppedEvent => "event",
            _ => "response",
        }
    }

    /// The command that a response answers, or the name of an event.
    pub fn name(&self) -> (r: &'static str)
        ensures
            r == match self {
                ReplyKind::InitializeResponse => "initialize",
                ReplyKind::InitializedEvent => "initialized",
                ReplyKind::SetExceptionBreakpointsResponse => "set_exception_breakpoints",
                ReplyKind::AttachResponse => "attach",
                ReplyKind::StoppedEvent => "stopped",
            },
    {
        match self {
            ReplyKind::InitializeResponse => "initialize",
            ReplyKind::InitializedEvent => "initialized",
            ReplyKind::SetExceptionBreakpointsResponse => "set_exception_breakpoints",
            ReplyKind::AttachResponse => "attach",
            ReplyKind::StoppedEvent => "stopped",
        }
    }
}

/// The messages that answer a request, in the order they are sent: a
/// response, followed by an event where the protocol expects one.
pub open spec fn reply_kinds(request: Request) -> Seq<ReplyKind> {
    match request {
        Request::Initialize { .. } => seq![ReplyKind::InitializeResponse, ReplyKind::InitializedEvent],
        Request::SetExceptionBreakpoints { .. } => seq![ReplyKind::SetExceptionBreakpointsResponse],
        Request::Attach { .. } => seq![ReplyKind::AttachResponse, ReplyKind::StoppedEvent],
        Request::Unsupported => seq![],
    }
}

/// The sequence number of a request, for those that have one.
pub open spec fn request_seq(request: Request) -> i64 {
    match request {
        Request::Initialize { seq } => seq,
        Request::SetExceptionBreakpoints { seq } => seq,
        Request::Attach { seq } => seq,
        Request::Unsupported => 0,
    }
}

/// The most replies that a single request gets.
pub const MAX_REPLIES: i64 = 2;

/// A debugger for 6502-based machines. It talks to a debugger UI over the
/// Debug Adapter Protocol through `adapter`, and numbers the messages it
/// sends consecutively from 1.
pub struct Debugger<A> {
    adapter: A,
    sequence_number: i64,
}

impl<A> Debugger<A> {
    /// The sequence number of the last message sent, 0 before the first.
    pub closed spec fn sequence_number(&self) -> i64 {
        self.sequence_number
    }

    pub closed spec fn adapter_spec(&self) -> A {
        self.adapter
    }

    pub fn new(adapter: A) -> (r: Self)
        ensures
            r.sequence_number() == 0,
            r.adapter_spec() == adapter,
    {
        Self { adapter, sequence_number: 0 }
    }

    /// The connection to the debugger UI.
    pub fn adapter(&self) -> (r: &A)
        ensures
            *r == self.adapter_spec(),
    {
        &self.adapter
    }

    /// The sequence number of the last message sent.
    pub fn last_sequence_number(&self) -> (r: i64)
        ensures
            r == self.sequence_number(),
    {
        self.sequence_number
    }

    fn next_sequence_number(&mut self) -> (r: i64)
        requires
            old(self).sequence_number() < i64::MAX,
        ensures
            r == old(self).sequence_number() + 1,
            final(self).sequence_number() == r,
            final(self).adapter_spec() == old(self).adapter_spec(),
    {
        self.sequence_number += 1;
        self.sequence_number
    }

    /// A reply of the given kind to `request`, numbered with the next
    /// sequence number.
    fn reply(&mut self, kind: ReplyKind, request: &Request) -> (r: Reply)
        requires
            old(self).sequence_number() < i64::MAX,
        ensures
            r.kind == kind,
            r.seq == old(self).sequence_number() + 1,
            r.request_seq == if kind.is_response() {
                Some(request_seq(*request))
            } else {
                None::<i64>
            },
            final(self).sequence_number() == r.seq,
            final(self).adapter_spec() == old(self).adapter_spec(),
    {
        let request_seq = match kind {
            ReplyKind::InitializedEvent | ReplyKind::StoppedEvent => None,
            _ => Some(
                match request {
                    Request::Initialize { seq } => *seq,
                    Request::SetExceptionBreakpoints { seq } => *seq,
                    Request::Attach { seq } => *seq,
                    Request::Unsupported => 0,
                },
            ),
        };
        Reply { kind, seq: self.next_sequence_number(), request_seq }
    }

    /// The messages to send in answer to `request`, numbered consecutively
    /// after the last message sent. An unsupported request gets none.
    pub fn reply_to(&mut self, request: &Request) -> (r: Vec<Reply>)
        requires
            old(self).sequence_number() <= i64::MAX - MAX_REPLIES,
        ensures
            r@.len() == reply_kinds(*request).len(),
            forall|i: int|
                0 <= i < r@.len() ==> {
                    &&& (#[trigger] r@[i]).kind == reply_kinds(*request)[i]
                    &&& r@[i].seq == old(self).sequence_number() + 1 + i
                    &&& r@[i].request_seq == if r@[i].kind.is_response() {
                        Some(request_seq(*request))
                    } else {
                        None::<i64>
                    }
                },
            final(self).sequence_number() == old(self).sequence_number() + r@.len(),
            final(self).adapter_spec() == old(self).adapter_spec(),
    {
        let mut replies: Vec<Reply> = Vec::new();
        match request {
            Request::Initialize { .. } => {
                replies.push(self.reply(ReplyKind::InitializeResponse, request));
                replies.push(self.reply(ReplyKind::InitializedEvent, request));
            },
            Request::SetExceptionBreakpoints { .. } => {
                replies.push(self.reply(ReplyKind::SetExceptionBreakpointsResponse, request));
            },
            Request::Attach { .. } => {
                replies.push(self.reply(ReplyKind::AttachResponse, request));
                replies.push(self.reply(ReplyKind::StoppedEvent, request));
            },
            Request::Unsupported => {},
        }
        replies
    }
}

} // verus!
