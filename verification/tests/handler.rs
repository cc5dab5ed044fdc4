use ws::handler::{ErrorKind, Frame, Handler, Message};

struct Quiet;

impl Handler for Quiet {}

#[test]
fn default_on_message_consumes_and_succeeds() {
    let mut handler = Quiet;
    assert_eq!(handler.on_message(Message::Text(String::from("ping"))), Ok(()));
    assert_eq!(handler.on_message(Message::Binary(Vec::new())), Ok(()));
}

#[test]
fn default_on_frame_passes_the_frame_through() {
    let mut handler = Quiet;
    let frame = Frame { payload: vec![0x81, 0x05, 0x68] };
    assert_eq!(handler.on_frame(frame.clone()), Ok(Some(frame)));
    let empty = Frame { payload: Vec::new() };
    assert_eq!(handler.on_frame(empty.clone()), Ok(Some(empty)));
}

struct Rejecting {
    kind: ErrorKind,
}

impl Handler for Rejecting {
    fn on_message(&mut self, _: Message) -> Result<(), ErrorKind> {
        Err(self.kind)
    }

    fn on_frame(&mut self, _: Frame) -> Result<Option<Frame>, ErrorKind> {
        Err(self.kind)
    }
}

#[test]
fn every_failure_kind_flows_through_the_result_channel() {
    for kind in [ErrorKind::Io, ErrorKind::Protocol, ErrorKind::Capacity, ErrorKind::Custom] {
        let mut handler = Rejecting { kind };
        assert_eq!(handler.on_message(Message::Binary(vec![1])), Err(kind));
        assert_eq!(handler.on_frame(Frame { payload: vec![2] }), Err(kind));
    }
}
