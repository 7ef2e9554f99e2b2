use steampunk::debugger::Debugger;
use steampunk::debugger::Reply;
use steampunk::debugger::ReplyKind;
use steampunk::debugger::Request;

fn initialize_request() -> Request {
    Request::Initialize { seq: 5 }
}

fn set_exception_breakpoints_request() -> Request {
    Request::SetExceptionBreakpoints { seq: 6 }
}

fn attach_request() -> Request {
    Request::Attach { seq: 8 }
}

fn process(debugger: &mut Debugger<()>, requests: &[Request]) -> Vec<Reply> {
    let mut outgoing = Vec::new();
    for request in requests {
        outgoing.extend(debugger.reply_to(request));
    }
    outgoing
}

#[test]
fn initialization_sequence() {
    let mut debugger = Debugger::new(());
    let outgoing = process(
        &mut debugger,
        &[
            initialize_request(),
            set_exception_breakpoints_request(),
            attach_request(),
        ],
    );
    let described: Vec<(&str, &str)> = outgoing
        .iter()
        .map(|reply| (reply.kind.message_type(), reply.kind.name()))
        .collect();
    assert_eq!(
        described,
        vec![
            ("response", "initialize"),
            ("event", "initialized"),
            ("response", "set_exception_breakpoints"),
            ("response", "attach"),
            ("event", "stopped"),
        ]
    );
    assert_eq!(outgoing.len(), 5);
}

#[test]
fn uses_sequence_numbers() {
    let mut debugger = Debugger::new(());
    let outgoing = process(&mut debugger, &[initialize_request(), attach_request()]);
    assert_eq!(
        outgoing[0],
        Reply {
            kind: ReplyKind::InitializeResponse,
            seq: 1,
            request_seq: Some(5),
        }
    );
    assert_eq!(
        outgoing[1],
        Reply {
            kind: ReplyKind::InitializedEvent,
            seq: 2,
            request_seq: None,
        }
    );
    assert_eq!(
        outgoing[2],
        Reply {
            kind: ReplyKind::AttachResponse,
            seq: 3,
            request_seq: Some(8),
        }
    );
}

#[test]
fn unsupported_request_gets_no_reply() {
    let mut debugger = Debugger::new(());
    assert!(debugger.reply_to(&Request::Unsupported).is_empty());
    assert_eq!(debugger.last_sequence_number(), 0);
    let replies = debugger.reply_to(&set_exception_breakpoints_request());
    assert_eq!(replies[0].seq, 1);
    assert_eq!(debugger.last_sequence_number(), 1);
}
