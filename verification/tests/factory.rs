use ws::factory::{Factory, FnFactory};
use ws::handler::{ErrorKind, Frame, Handler, Message};
use ws::sender::{Channel, Sender, Token};

#[derive(Debug, Eq, PartialEq)]
struct M;

impl Handler for M {
    fn on_message(&mut self, _: Message) -> Result<(), ErrorKind> {
        Ok(println!("test"))
    }

    fn on_frame(&mut self, _f: Frame) -> Result<Option<Frame>, ErrorKind> {
        Ok(None)
    }
}

struct X;

impl Factory for X {
    type Handler = M;

    fn connection_made(&mut self, _: Sender) -> M {
        M
    }

    fn on_shutdown(&mut self) {}

    fn connection_lost(&mut self, _: M) {}
}

#[test]
fn impl_factory() {
    let mut x = X;
    let m = x.connection_made(Sender::new(Token(0), Channel(0)));
    assert_eq!(m, M);
}

struct NoopHandler;

impl Handler for NoopHandler {}

#[test]
fn closure_factory() {
    let mut factory = FnFactory::from_fn(|_: Sender| NoopHandler);
    factory.connection_made(Sender::new(Token(0), Channel(0)));
}

struct Y;

impl Factory for Y {
    type Handler = M;

    fn connection_made(&mut self, _: Sender) -> M {
        M
    }

    fn on_shutdown(&mut self) {}

    fn connection_lost(&mut self, handler: M) {
        assert_eq!(handler, M);
    }
}

#[test]
fn connection_lost() {
    let mut x = Y;
    let m = x.connection_made(Sender::new(Token(0), Channel(0)));
    x.connection_lost(m);
}

#[test]
fn client_connected_defaults_to_connection_made() {
    let mut x = X;
    let from_role = x.client_connected(Sender::new(Token(4), Channel(2)));
    let from_plain = x.connection_made(Sender::new(Token(4), Channel(2)));
    assert_eq!(from_role, from_plain);
}

#[test]
fn server_connected_defaults_to_connection_made() {
    let mut x = X;
    let from_role = x.server_connected(Sender::new(Token(4), Channel(2)));
    let from_plain = x.connection_made(Sender::new(Token(4), Channel(2)));
    assert_eq!(from_role, from_plain);
}

#[test]
fn closure_factory_handler_reports_success() {
    let mut factory = FnFactory::from_fn(|_: Sender| NoopHandler);
    let mut handler = factory.connection_made(Sender::new(Token(1), Channel(0)));
    assert_eq!(handler.on_message(Message::Text(String::from("hello"))), Ok(()));
    assert_eq!(handler.on_message(Message::Binary(vec![0, 255, 7])), Ok(()));
    let frame = Frame { payload: vec![1, 2, 3] };
    assert_eq!(handler.on_frame(frame.clone()), Ok(Some(frame)));
}

#[test]
fn adapter_role_entry_points_delegate() {
    let mut factory = FnFactory::from_fn(|s: Sender| Echo { token: s.token });
    let a = factory.client_connected(Sender::new(Token(9), Channel(1)));
    let b = factory.server_connected(Sender::new(Token(9), Channel(1)));
    let c = factory.connection_made(Sender::new(Token(9), Channel(1)));
    assert_eq!(a.token, c.token);
    assert_eq!(b.token, c.token);
}

struct Echo {
    token: Token,
}

impl Handler for Echo {}

struct Shutting {
    shutdowns: u32,
}

impl Factory for Shutting {
    type Handler = NoopHandler;

    fn connection_made(&mut self, _: Sender) -> NoopHandler {
        NoopHandler
    }

    fn on_shutdown(&mut self) {
        self.shutdowns += 1;
    }

    fn connection_lost(&mut self, _: NoopHandler) {}
}

#[test]
fn on_shutdown_fires_once_and_leaves_handlers_usable() {
    let mut factory = Shutting { shutdowns: 0 };
    let mut handler = factory.connection_made(Sender::new(Token(2), Channel(0)));
    factory.on_shutdown();
    assert_eq!(factory.shutdowns, 1);
    assert_eq!(handler.on_message(Message::Text(String::from("still live"))), Ok(()));
    factory.connection_lost(handler);
}

#[test]
fn empty_on_shutdown_is_a_no_op() {
    let mut x = X;
    x.on_shutdown();
    let m = x.connection_made(Sender::new(Token(0), Channel(0)));
    assert_eq!(m, M);
}
