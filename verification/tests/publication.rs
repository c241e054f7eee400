use aeron::client::Aeron;
use aeron::context::{
    Context, ErrorEvent, ErrorHandler, NewPublication, NewPublicationHandler, NewSubscription,
    NewSubscriptionHandler,
};
use aeron::engine::Engine;
use aeron::error::Error;
use aeron::publication::{OfferResult, Publication, ReservedValueSupplier};
use aeron::subscription::{FragmentHandler, Subscription};
use aeron::{ChannelStatus, Header, Position, StreamId};

struct NoErrors;

impl ErrorHandler for NoErrors {
    fn on_error(&mut self, _event: &ErrorEvent) {}
}

struct NoPubs;

impl NewPublicationHandler for NoPubs {
    fn on_new_publication(&mut self, _event: &NewPublication) {}
}

struct NoSubs;

impl NewSubscriptionHandler for NoSubs {
    fn on_new_subscription(&mut self, _event: &NewSubscription) {}
}

type PlainClient = Aeron<NoErrors, NoPubs, NoSubs>;

/// One publication and one subscription resolved on the same channel and
/// stream of a fresh engine.
fn connected_pair(engine: &mut Engine) -> (PlainClient, Publication, Subscription) {
    let ctx = Context::<NoErrors, NoPubs, NoSubs>::new().unwrap();
    let mut client = Aeron::connect(ctx, engine).unwrap();
    let mut fut = client.add_publication("transport:ipc", StreamId(1001)).unwrap();
    let publication = fut.resolve(&mut client, engine).unwrap();
    let mut fut = client.add_subscription("transport:ipc", StreamId(1001)).unwrap();
    let subscription = fut.resolve(&mut client, engine).unwrap();
    (client, publication, subscription)
}

struct Collect {
    frames: Vec<(Vec<u8>, Header)>,
}

impl FragmentHandler for Collect {
    fn on_fragment(&mut self, data: &[u8], header: &Header) {
        self.frames.push((data.to_vec(), *header));
    }
}

#[test]
fn offer_positions_accumulate_frame_lengths() {
    let mut engine = Engine::new(0, 64, 256, 8);
    let (_client, publication, _subscription) = connected_pair(&mut engine);
    match publication.offer(&mut engine, b"abc") {
        Ok(OfferResult::Accepted(Position(p))) => assert_eq!(p, 3),
        other => panic!("unexpected {:?}", other),
    }
    match publication.offer(&mut engine, b"defgh") {
        Ok(OfferResult::Accepted(Position(p))) => assert_eq!(p, 8),
        other => panic!("unexpected {:?}", other),
    }
}

#[test]
fn offer_without_subscriber_drops_the_message() {
    let mut engine = Engine::new(0, 64, 256, 8);
    let ctx = Context::<NoErrors, NoPubs, NoSubs>::new().unwrap();
    let mut client = Aeron::connect(ctx, &engine).unwrap();
    let mut fut = client.add_publication("transport:ipc", StreamId(1)).unwrap();
    let publication = fut.resolve(&mut client, &mut engine).unwrap();
    assert!(matches!(
        publication.offer(&mut engine, b"dropped"),
        Ok(OfferResult::NotConnected)
    ));
    assert_eq!(engine.streams[0].frames.len(), 0);
}

#[test]
fn offer_back_pressures_when_a_subscriber_lags_a_window() {
    let mut engine = Engine::new(0, 64, 256, 2);
    let (_client, publication, subscription) = connected_pair(&mut engine);
    assert!(matches!(publication.offer(&mut engine, b"a"), Ok(OfferResult::Accepted(_))));
    assert!(matches!(publication.offer(&mut engine, b"b"), Ok(OfferResult::Accepted(_))));
    assert!(matches!(
        publication.offer(&mut engine, b"c"),
        Ok(OfferResult::BackPressured)
    ));
    // consuming frees the window again
    let mut handler = Collect { frames: Vec::new() };
    subscription.poll(&mut engine, &mut handler, 2);
    assert!(matches!(publication.offer(&mut engine, b"c"), Ok(OfferResult::Accepted(_))));
}

#[test]
fn offer_reports_admin_action_at_a_term_boundary() {
    let mut engine = Engine::new(0, 8, 8, 8);
    let (_client, publication, _subscription) = connected_pair(&mut engine);
    match publication.offer(&mut engine, b"123456") {
        Ok(OfferResult::Accepted(Position(p))) => assert_eq!(p, 6),
        other => panic!("unexpected {:?}", other),
    }
    // six more bytes do not fit the eight-byte term: the term rotates
    assert!(matches!(
        publication.offer(&mut engine, b"123456"),
        Ok(OfferResult::AdminAction)
    ));
    // the retry lands at the start of the next term, past the padding
    match publication.offer(&mut engine, b"123456") {
        Ok(OfferResult::Accepted(Position(p))) => assert_eq!(p, 14),
        other => panic!("unexpected {:?}", other),
    }
    assert_eq!(engine.streams[0].frames[1].term_id, 1);
    assert_eq!(engine.streams[0].frames[1].term_offset, 0);
}

#[test]
fn oversize_offer_is_a_hard_error() {
    let mut engine = Engine::new(0, 4, 256, 8);
    let (_client, publication, _subscription) = connected_pair(&mut engine);
    match publication.offer(&mut engine, b"12345") {
        Err(Error::Transport(code, message)) => {
            assert_eq!(code, -6);
            assert_eq!(message, "engine error");
        }
        other => panic!("unexpected {:?}", other),
    }
}

#[test]
fn offer_on_closed_publication_is_a_hard_error() {
    let mut engine = Engine::new(0, 64, 256, 8);
    let (_client, publication, _subscription) = connected_pair(&mut engine);
    assert!(!publication.is_closed(&engine));
    assert_eq!(publication.channel_status(&engine), ChannelStatus::Active);
    publication.close(&mut engine);
    assert!(publication.is_closed(&engine));
    assert_eq!(publication.channel_status(&engine), ChannelStatus::Errored);
    match publication.offer(&mut engine, b"x") {
        Err(Error::Transport(code, message)) => {
            assert_eq!(code, -4);
            assert_eq!(message, "resource closed");
        }
        other => panic!("unexpected {:?}", other),
    }
}

#[test]
fn reserved_value_supplier_rewrites_the_frame_and_stamps_the_value() {
    struct Stamp;
    impl ReservedValueSupplier for Stamp {
        fn supply(&mut self, frame: &mut Vec<u8>) -> i64 {
            for byte in frame.iter_mut() {
                *byte = 0xAA;
            }
            42
        }
    }

    let mut engine = Engine::new(0, 64, 256, 8);
    let (_client, publication, subscription) = connected_pair(&mut engine);
    let mut supplier = Stamp;
    match publication.offer_with_reserved_value_supplier(&mut engine, b"abc", &mut supplier) {
        Ok(OfferResult::Accepted(Position(p))) => assert_eq!(p, 3),
        other => panic!("unexpected {:?}", other),
    }
    let mut handler = Collect { frames: Vec::new() };
    subscription.poll(&mut engine, &mut handler, 1);
    assert_eq!(handler.frames.len(), 1);
    assert_eq!(handler.frames[0].0, vec![0xAA, 0xAA, 0xAA]);
    assert_eq!(handler.frames[0].1.reserved_value(), 42);
}

#[test]
fn claim_commit_delivers_the_filled_bytes() {
    let mut engine = Engine::new(0, 64, 256, 8);
    let (_client, publication, subscription) = connected_pair(&mut engine);
    let (mut claim, Position(p)) = publication.try_claim(&mut engine, 4).unwrap();
    assert_eq!(p, 4);
    assert_eq!(claim.data().len(), 4);
    assert!(claim.data().iter().all(|b| *b == 0), "a fresh claim is zeroed");
    for (i, byte) in claim.data().iter_mut().enumerate() {
        *byte = b'a' + i as u8;
    }
    claim.commit(&mut engine).unwrap();
    let mut handler = Collect { frames: Vec::new() };
    subscription.poll(&mut engine, &mut handler, 1);
    assert_eq!(handler.frames.len(), 1);
    assert_eq!(handler.frames[0].0, b"abcd".to_vec());
}

#[test]
fn claim_position_never_decreases_against_prior_sends() {
    let mut engine = Engine::new(0, 64, 256, 8);
    let (_client, publication, _subscription) = connected_pair(&mut engine);
    let prior = match publication.offer(&mut engine, b"abcde") {
        Ok(OfferResult::Accepted(Position(p))) => p,
        other => panic!("unexpected {:?}", other),
    };
    let (claim, Position(p)) = publication.try_claim(&mut engine, 3).unwrap();
    assert!(p >= prior);
    assert_eq!(p, prior + 3);
    claim.commit(&mut engine).unwrap();
}

#[test]
fn aborted_claim_leaves_the_position_unaffected() {
    let mut engine = Engine::new(0, 64, 256, 8);
    let (_client, publication, _subscription) = connected_pair(&mut engine);
    match publication.offer(&mut engine, b"ab") {
        Ok(OfferResult::Accepted(Position(p))) => assert_eq!(p, 2),
        other => panic!("unexpected {:?}", other),
    }
    let (claim, Position(p)) = publication.try_claim(&mut engine, 10).unwrap();
    assert_eq!(p, 12);
    claim.abort().unwrap();
    // the claim reserved nothing: the next send continues at position 2
    match publication.offer(&mut engine, b"cd") {
        Ok(OfferResult::Accepted(Position(p))) => assert_eq!(p, 4),
        other => panic!("unexpected {:?}", other),
    }
    assert_eq!(engine.streams[0].frames.len(), 2);
}

#[test]
fn try_claim_surfaces_flow_control_as_errors() {
    let mut engine = Engine::new(0, 64, 256, 8);
    let ctx = Context::<NoErrors, NoPubs, NoSubs>::new().unwrap();
    let mut client = Aeron::connect(ctx, &engine).unwrap();
    let mut fut = client.add_publication("transport:ipc", StreamId(1)).unwrap();
    let publication = fut.resolve(&mut client, &mut engine).unwrap();
    match publication.try_claim(&mut engine, 4) {
        Err(Error::Transport(code, message)) => {
            assert_eq!(code, -1);
            assert_eq!(message, "not connected");
        }
        other => panic!("unexpected {:?}", other),
    }
}

#[test]
fn publication_destinations_are_added_and_removed_by_polling() {
    let mut engine = Engine::new(1, 64, 256, 8);
    let (_client, publication, _subscription) = connected_pair(&mut engine);
    let endpoint = "transport:udp?endpoint=localhost:20121";

    let pending = publication.add_destination(&mut engine, endpoint).unwrap();
    assert_eq!(pending.poll(&mut engine).unwrap(), false);
    assert_eq!(pending.poll(&mut engine).unwrap(), true);
    assert_eq!(engine.streams[0].publishers[0].destinations, vec![endpoint.to_string()]);
    // polling a completed handle again stays done
    assert_eq!(pending.poll(&mut engine).unwrap(), true);

    let pending = publication.remove_destination(&mut engine, endpoint).unwrap();
    assert_eq!(pending.poll(&mut engine).unwrap(), false);
    assert_eq!(pending.poll(&mut engine).unwrap(), true);
    assert!(engine.streams[0].publishers[0].destinations.is_empty());

    // removing a destination the channel does not carry fails
    let pending = publication.remove_destination(&mut engine, endpoint).unwrap();
    assert_eq!(pending.poll(&mut engine).unwrap(), false);
    match pending.poll(&mut engine) {
        Err(Error::Transport(code, _)) => assert_eq!(code, -6),
        other => panic!("unexpected {:?}", other),
    }
}

#[test]
fn destination_uri_with_embedded_nul_is_rejected_locally() {
    let mut engine = Engine::new(0, 64, 256, 8);
    let (_client, publication, _subscription) = connected_pair(&mut engine);
    let registrations_before = engine.registrations.len();
    assert!(matches!(
        publication.add_destination(&mut engine, "transport:udp\0"),
        Err(Error::InvalidArgument)
    ));
    assert_eq!(engine.registrations.len(), registrations_before);
}

#[test]
fn empty_payload_is_accepted_without_advancing_the_position() {
    let mut engine = Engine::new(0, 64, 256, 8);
    let (_client, publication, _subscription) = connected_pair(&mut engine);
    match publication.offer(&mut engine, b"") {
        Ok(OfferResult::Accepted(Position(p))) => assert_eq!(p, 0),
        other => panic!("unexpected {:?}", other),
    }
    match publication.offer(&mut engine, b"x") {
        Ok(OfferResult::Accepted(Position(p))) => assert_eq!(p, 1),
        other => panic!("unexpected {:?}", other),
    }
}

#[test]
fn oversize_claim_is_a_hard_error() {
    let mut engine = Engine::new(0, 64, 256, 8);
    let (_client, publication, _subscription) = connected_pair(&mut engine);
    match publication.try_claim(&mut engine, 65) {
        Err(Error::Transport(code, _)) => assert_eq!(code, -6),
        other => panic!("unexpected {:?}", other),
    }
}
