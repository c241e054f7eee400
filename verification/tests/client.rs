use std::cell::RefCell;
use std::rc::Rc;

use aeron::client::Aeron;
use aeron::context::{
    Context, ErrorEvent, ErrorHandler, NewPublication, NewPublicationHandler, NewSubscription,
    NewSubscriptionHandler,
};
use aeron::engine::Engine;
use aeron::error::{aeron_result, Error};
use aeron::publication::{AddPublicationState, OfferResult};
use aeron::subscription::FragmentHandler;
use aeron::{uri_is_representable, ChannelStatus, Drive, Header, HeaderType, Position, SendSyncPtr, StreamId};

struct NoErrors;

impl ErrorHandler for NoErrors {
    fn on_error(&mut self, _event: &ErrorEvent) {}
}

struct NoPubs;

impl NewPublicationHandler for NoPubs {
    fn on_new_publication(&mut self, _event: &NewPublication) {}
}

struct NoSubs;

impl NewSubscriptionHandler for NoSubs {
    fn on_new_subscription(&mut self, _event: &NewSubscription) {}
}

type PlainClient = Aeron<NoErrors, NoPubs, NoSubs>;

fn plain_client(engine: &Engine) -> PlainClient {
    let ctx = Context::<NoErrors, NoPubs, NoSubs>::new().unwrap();
    Aeron::connect(ctx, engine).unwrap()
}

#[test]
fn connect_succeeds_on_open_engine() {
    let engine = Engine::new(1, 64, 256, 8);
    let ctx = Context::<NoErrors, NoPubs, NoSubs>::new().unwrap();
    assert!(Aeron::connect(ctx, &engine).is_ok());
}

#[test]
fn connect_fails_on_closed_engine() {
    let mut engine = Engine::new(1, 64, 256, 8);
    engine.close();
    let ctx = Context::<NoErrors, NoPubs, NoSubs>::new().unwrap();
    match Aeron::connect(ctx, &engine) {
        Err(Error::Transport(code, message)) => {
            assert_eq!(code, -4);
            assert_eq!(message, "resource closed");
        }
        _ => panic!("expected a transport error"),
    }
}

#[test]
fn get_dir_is_empty_by_default() {
    let ctx = Context::<NoErrors, NoPubs, NoSubs>::new().unwrap();
    assert_eq!(ctx.get_dir(), "");
}

#[test]
fn get_dir_reflects_the_configured_directory() {
    let mut ctx = Context::<NoErrors, NoPubs, NoSubs>::new().unwrap();
    ctx.set_dir("/dev/shm/transport-test");
    assert_eq!(ctx.get_dir(), "/dev/shm/transport-test");
}

#[test]
fn registration_resolves_within_latency() {
    let mut engine = Engine::new(3, 64, 256, 8);
    let mut client = plain_client(&engine);
    let mut fut = client.add_publication("transport:ipc", StreamId(1001)).unwrap();
    let mut drives = 0usize;
    loop {
        match fut.poll(&mut client, &mut engine) {
            Drive::Pending => {
                drives += 1;
                assert!(drives <= 8, "registration should resolve against a responsive engine");
            }
            Drive::Ready(res) => {
                let publication = res.unwrap();
                assert_eq!(publication.session_id, 1);
                break;
            }
        }
    }
}

#[test]
fn polling_after_resolution_has_no_effect() {
    let mut engine = Engine::new(0, 64, 256, 8);
    let mut client = plain_client(&engine);
    let mut fut = client.add_publication("transport:ipc", StreamId(7)).unwrap();
    // first drive starts the registration, second resolves it (latency 0)
    assert!(matches!(fut.poll(&mut client, &mut engine), Drive::Pending));
    match fut.poll(&mut client, &mut engine) {
        Drive::Ready(Ok(_)) => {}
        _ => panic!("expected resolution"),
    }
    let registrations_before = engine.registrations.len();
    let correlation_before = engine.next_correlation_id;
    match fut.poll(&mut client, &mut engine) {
        Drive::Ready(Err(Error::AlreadyResolved)) => {}
        _ => panic!("expected the already-resolved error"),
    }
    assert_eq!(engine.registrations.len(), registrations_before);
    assert_eq!(engine.next_correlation_id, correlation_before);
}

#[test]
fn malformed_uri_fails_immediately_without_polling() {
    let mut engine = Engine::new(5, 64, 256, 8);
    let mut client = plain_client(&engine);
    let mut fut = client.add_publication("transport:ipc\0bad", StreamId(1001)).unwrap();
    match fut.poll(&mut client, &mut engine) {
        Drive::Ready(Err(Error::InvalidArgument)) => {}
        other => panic!("expected an immediate configuration error, got {:?}", other),
    }
    assert!(
        matches!(fut.state, AddPublicationState::Resolved),
        "the future must never enter the polling state"
    );
    assert_eq!(engine.registrations.len(), 0, "the engine must never see the URI");
}

#[test]
fn empty_channel_resolves_to_engine_error_and_notifies_error_handler() {
    let errors: Rc<RefCell<Vec<(i32, String)>>> = Rc::new(RefCell::new(Vec::new()));

    struct Recorder {
        errors: Rc<RefCell<Vec<(i32, String)>>>,
    }
    impl ErrorHandler for Recorder {
        fn on_error(&mut self, event: &ErrorEvent) {
            self.errors.borrow_mut().push((event.code, event.message.clone()));
        }
    }

    let mut engine = Engine::new(0, 64, 256, 8);
    let mut ctx = Context::<Recorder, NoPubs, NoSubs>::new().unwrap();
    ctx.set_error_handler(Recorder { errors: errors.clone() });
    let mut client = Aeron::connect(ctx, &engine).unwrap();
    let mut fut = client.add_publication("", StreamId(1)).unwrap();
    assert!(matches!(fut.poll(&mut client, &mut engine), Drive::Pending));
    match fut.poll(&mut client, &mut engine) {
        Drive::Ready(Err(Error::Transport(code, _))) => assert_eq!(code, -6),
        other => panic!("expected a transport error, got {:?}", other),
    }
    assert_eq!(errors.borrow().len(), 1);
    assert_eq!(errors.borrow()[0].0, -6);
}

#[test]
fn new_publication_notification_carries_registration_details() {
    let seen: Rc<RefCell<Vec<(String, i32, i32, i64)>>> = Rc::new(RefCell::new(Vec::new()));

    struct Recorder {
        seen: Rc<RefCell<Vec<(String, i32, i32, i64)>>>,
    }
    impl NewPublicationHandler for Recorder {
        fn on_new_publication(&mut self, event: &NewPublication) {
            self.seen.borrow_mut().push((
                event.channel.clone(),
                event.stream_id.0,
                event.session_id.0,
                event.correlation_id.0,
            ));
        }
    }

    let mut engine = Engine::new(0, 64, 256, 8);
    let mut ctx = Context::<NoErrors, Recorder, NoSubs>::new().unwrap();
    ctx.set_on_new_publication(Recorder { seen: seen.clone() });
    let mut client = Aeron::connect(ctx, &engine).unwrap();
    let mut fut = client.add_publication("transport:ipc", StreamId(1001)).unwrap();
    let publication = fut.resolve(&mut client, &mut engine).unwrap();
    assert_eq!(
        seen.borrow().as_slice(),
        &[("transport:ipc".to_string(), 1001, publication.session_id, 1)]
    );
}

#[test]
fn new_subscription_notification_carries_registration_details() {
    let seen: Rc<RefCell<Vec<(String, i32, i64)>>> = Rc::new(RefCell::new(Vec::new()));

    struct Recorder {
        seen: Rc<RefCell<Vec<(String, i32, i64)>>>,
    }
    impl NewSubscriptionHandler for Recorder {
        fn on_new_subscription(&mut self, event: &NewSubscription) {
            self.seen.borrow_mut().push((
                event.channel.clone(),
                event.stream_id.0,
                event.correlation_id.0,
            ));
        }
    }

    let mut engine = Engine::new(0, 64, 256, 8);
    let mut ctx = Context::<NoErrors, NoPubs, Recorder>::new().unwrap();
    ctx.set_on_new_subscription(Recorder { seen: seen.clone() });
    let mut client = Aeron::connect(ctx, &engine).unwrap();
    let mut fut = client.add_subscription("transport:ipc", StreamId(1001)).unwrap();
    fut.resolve(&mut client, &mut engine).unwrap();
    assert_eq!(seen.borrow().as_slice(), &[("transport:ipc".to_string(), 1001, 1)]);
}

#[test]
fn connect_and_exchange_one_message() {
    // connect, register both endpoints on the same channel and stream,
    // observe not-connected before the subscription resolves, then a
    // successful offer delivered exactly once
    let mut engine = Engine::new(1, 64, 256, 8);
    let mut client = plain_client(&engine);

    let mut fut = client.add_publication("transport:ipc", StreamId(1001)).unwrap();
    let publication = fut.resolve(&mut client, &mut engine).unwrap();

    assert!(!publication.is_connected(&engine));
    match publication.offer(&mut engine, &[42]) {
        Ok(OfferResult::NotConnected) => {}
        other => panic!("expected not connected before the subscription, got {:?}", other),
    }

    let mut fut = client.add_subscription("transport:ipc", StreamId(1001)).unwrap();
    let subscription = fut.resolve(&mut client, &mut engine).unwrap();
    assert!(publication.is_connected(&engine));
    assert!(subscription.is_connected(&engine));

    match publication.offer(&mut engine, &[42]) {
        Ok(OfferResult::Accepted(Position(p))) => assert_eq!(p, 1),
        other => panic!("expected an accepted offer, got {:?}", other),
    }

    struct Collect {
        frames: Vec<(Vec<u8>, i32)>,
    }
    impl FragmentHandler for Collect {
        fn on_fragment(&mut self, data: &[u8], header: &Header) {
            self.frames.push((data.to_vec(), header.session_id().0));
        }
    }
    let mut handler = Collect { frames: Vec::new() };
    subscription.poll(&mut engine, &mut handler, 1);
    assert_eq!(handler.frames.len(), 1, "the handler runs exactly once");
    assert_eq!(handler.frames[0].0, vec![42u8]);
    assert_eq!(handler.frames[0].1, publication.session_id);
}

#[test]
fn aeron_result_maps_codes() {
    assert!(aeron_result(0).is_ok());
    match aeron_result(-2) {
        Err(e @ Error::Transport(-2, _)) => assert_eq!(e.message(), "back pressured"),
        _ => panic!("expected a transport error"),
    }
    match aeron_result(-5) {
        Err(Error::Transport(-5, m)) => assert_eq!(m, "max position exceeded"),
        _ => panic!("expected a transport error"),
    }
}

#[test]
fn channel_status_classifies_codes() {
    assert_eq!(ChannelStatus::from_code(1), ChannelStatus::Active);
    assert_eq!(ChannelStatus::from_code(-1), ChannelStatus::Errored);
    assert_eq!(ChannelStatus::from_code(5), ChannelStatus::Other(5));
}

#[test]
fn uri_representability_checks_for_embedded_nul() {
    assert!(uri_is_representable("transport:udp?endpoint=localhost:20121"));
    assert!(uri_is_representable(""));
    assert!(!uri_is_representable("transport:ipc\0"));
}

#[test]
fn send_sync_ptr_exposes_its_handle() {
    let handle = SendSyncPtr(7);
    assert_eq!(handle.as_ptr(), 7);
}

#[test]
fn error_messages_describe_each_variant() {
    assert_eq!(Error::InvalidArgument.message(), "invalid argument");
    assert_eq!(Error::AlreadyResolved.message(), "already resolved");
    assert_eq!(Error::Transport(-1, String::new()).message(), "not connected");
    assert_eq!(Error::Transport(-3, String::new()).message(), "admin action");
    assert_eq!(Error::Transport(-99, String::new()).message(), "engine error");
}

#[test]
fn header_type_constants_match_the_frame_protocol() {
    assert_eq!(HeaderType::padding_frame(), HeaderType(0));
    assert_eq!(HeaderType::data_fragment(), HeaderType(1));
    assert_eq!(HeaderType::nak(), HeaderType(2));
    assert_eq!(HeaderType::status_message(), HeaderType(3));
    assert_eq!(HeaderType::error_frame(), HeaderType(4));
    assert_eq!(HeaderType::setup(), HeaderType(5));
    assert_eq!(HeaderType::round_trip_time_measurement(), HeaderType(6));
    assert_eq!(HeaderType::resolution(), HeaderType(7));
    assert_eq!(HeaderType::extension(), HeaderType(-1));
}
