use aeron::client::Aeron;
use aeron::context::{
    Context, ErrorEvent, ErrorHandler, NewPublication, NewPublicationHandler, NewSubscription,
    NewSubscriptionHandler,
};
use aeron::engine::Engine;
use aeron::error::Error;
use aeron::publication::{OfferResult, Publication};
use aeron::subscription::{
    BlockHandler, ControlledFragmentHandler, FragmentHandler, HandlerAction, Subscription,
};
use aeron::{ChannelStatus, Header, HeaderType, Position, SessionId, StreamId, TermId};

struct NoErrors;

impl ErrorHandler for NoErrors {
    fn on_error(&mut self, _event: &ErrorEvent) {}
}

struct NoPubs;

impl NewPublicationHandler for NoPubs {
    fn on_new_publication(&mut self, _event: &NewPublication) {}
}

struct NoSubs;

impl NewSubscriptionHandler for NoSubs {
    fn on_new_subscription(&mut self, _event: &NewSubscription) {}
}

type PlainClient = Aeron<NoErrors, NoPubs, NoSubs>;

fn connected_pair(engine: &mut Engine) -> (PlainClient, Publication, Subscription) {
    let ctx = Context::<NoErrors, NoPubs, NoSubs>::new().unwrap();
    let mut client = Aeron::connect(ctx, engine).unwrap();
    let mut fut = client.add_publication("transport:ipc", StreamId(1001)).unwrap();
    let publication = fut.resolve(&mut client, engine).unwrap();
    let mut fut = client.add_subscription("transport:ipc", StreamId(1001)).unwrap();
    let subscription = fut.resolve(&mut client, engine).unwrap();
    (client, publication, subscription)
}

fn offer_accepted(engine: &mut Engine, publication: &Publication, data: &[u8]) -> i64 {
    match publication.offer(engine, data) {
        Ok(OfferResult::Accepted(Position(p))) => p,
        other => panic!("expected an accepted offer, got {:?}", other),
    }
}

struct Collect {
    frames: Vec<(Vec<u8>, Header)>,
}

impl FragmentHandler for Collect {
    fn on_fragment(&mut self, data: &[u8], header: &Header) {
        self.frames.push((data.to_vec(), *header));
    }
}

struct Steer {
    actions: Vec<HandlerAction>,
    seen: Vec<Vec<u8>>,
}

impl ControlledFragmentHandler for Steer {
    fn on_fragment(&mut self, data: &[u8], _header: &Header) -> HandlerAction {
        self.seen.push(data.to_vec());
        if self.actions.is_empty() {
            HandlerAction::Continue
        } else {
            self.actions.remove(0)
        }
    }
}

struct Blocks {
    blocks: Vec<(Vec<u8>, i32, i32)>,
}

impl BlockHandler for Blocks {
    fn on_block(&mut self, data: &[u8], session_id: SessionId, term_id: TermId) {
        self.blocks.push((data.to_vec(), session_id.0, term_id.0));
    }
}

#[test]
fn poll_delivers_fragments_in_order_with_headers() {
    let mut engine = Engine::new(0, 64, 256, 16);
    let (_client, publication, subscription) = connected_pair(&mut engine);
    offer_accepted(&mut engine, &publication, b"one");
    offer_accepted(&mut engine, &publication, b"two");
    let mut handler = Collect { frames: Vec::new() };
    subscription.poll(&mut engine, &mut handler, 10);
    assert_eq!(handler.frames.len(), 2);
    assert_eq!(handler.frames[0].0, b"one".to_vec());
    assert_eq!(handler.frames[1].0, b"two".to_vec());
    let header = &handler.frames[1].1;
    assert_eq!(header.session_id(), SessionId(publication.session_id));
    assert_eq!(header.stream_id(), StreamId(1001));
    assert_eq!(header.term_id(), TermId(0));
    assert_eq!(header.term_offset(), 3);
    assert_eq!(header.frame_type(), HeaderType::data_fragment());
    assert_eq!(header.version(), 1);
    assert_eq!(header.reserved_value(), 0);
}

#[test]
fn poll_respects_the_fragment_limit() {
    let mut engine = Engine::new(0, 64, 256, 16);
    let (_client, publication, subscription) = connected_pair(&mut engine);
    for _ in 0..3 {
        offer_accepted(&mut engine, &publication, b"x");
    }
    let mut handler = Collect { frames: Vec::new() };
    subscription.poll(&mut engine, &mut handler, 2);
    assert_eq!(handler.frames.len(), 2);
    subscription.poll(&mut engine, &mut handler, 2);
    assert_eq!(handler.frames.len(), 3, "the rest arrives on the next poll");
    subscription.poll(&mut engine, &mut handler, 2);
    assert_eq!(handler.frames.len(), 3, "nothing is redelivered");
}

#[test]
fn subscriber_joins_at_the_current_end_of_the_stream() {
    let mut engine = Engine::new(0, 64, 256, 16);
    let ctx = Context::<NoErrors, NoPubs, NoSubs>::new().unwrap();
    let mut client = Aeron::connect(ctx, &engine).unwrap();
    let mut fut = client.add_publication("transport:ipc", StreamId(1)).unwrap();
    let publication = fut.resolve(&mut client, &mut engine).unwrap();
    let mut fut = client.add_subscription("transport:ipc", StreamId(1)).unwrap();
    let early = fut.resolve(&mut client, &mut engine).unwrap();
    offer_accepted(&mut engine, &publication, b"before");
    // a second subscription resolving now must not see the earlier frame
    let mut fut = client.add_subscription("transport:ipc", StreamId(1)).unwrap();
    let late = fut.resolve(&mut client, &mut engine).unwrap();
    offer_accepted(&mut engine, &publication, b"after");
    let mut seen_early = Collect { frames: Vec::new() };
    early.poll(&mut engine, &mut seen_early, 10);
    let mut seen_late = Collect { frames: Vec::new() };
    late.poll(&mut engine, &mut seen_late, 10);
    assert_eq!(seen_early.frames.len(), 2);
    assert_eq!(seen_late.frames.len(), 1);
    assert_eq!(seen_late.frames[0].0, b"after".to_vec());
}

#[test]
fn controlled_poll_abort_never_advances_consumption() {
    let mut engine = Engine::new(0, 64, 256, 16);
    let (_client, publication, subscription) = connected_pair(&mut engine);
    offer_accepted(&mut engine, &publication, b"sticky");
    let mut handler = Steer { actions: vec![HandlerAction::Abort], seen: Vec::new() };
    subscription.controlled_poll(&mut engine, &mut handler, 10);
    assert_eq!(handler.seen, vec![b"sticky".to_vec()]);
    // repeated aborting polls redeliver the same fragment, unconsumed
    let mut handler = Steer { actions: vec![HandlerAction::Abort], seen: Vec::new() };
    subscription.controlled_poll(&mut engine, &mut handler, 10);
    assert_eq!(handler.seen, vec![b"sticky".to_vec()]);
    assert_eq!(engine.streams[0].subscribers[0].next_fragment, 0);
    // a plain poll then still delivers it
    let mut handler = Collect { frames: Vec::new() };
    subscription.poll(&mut engine, &mut handler, 10);
    assert_eq!(handler.frames.len(), 1);
}

#[test]
fn controlled_poll_break_stops_after_consuming_the_fragment() {
    let mut engine = Engine::new(0, 64, 256, 16);
    let (_client, publication, subscription) = connected_pair(&mut engine);
    offer_accepted(&mut engine, &publication, b"a");
    offer_accepted(&mut engine, &publication, b"b");
    offer_accepted(&mut engine, &publication, b"c");
    let mut handler = Steer { actions: vec![HandlerAction::Break], seen: Vec::new() };
    subscription.controlled_poll(&mut engine, &mut handler, 10);
    assert_eq!(handler.seen, vec![b"a".to_vec()]);
    assert_eq!(engine.streams[0].subscribers[0].next_fragment, 1);
    // commit consumes and keeps delivering, like continue
    let mut handler = Steer {
        actions: vec![HandlerAction::Commit, HandlerAction::Continue],
        seen: Vec::new(),
    };
    subscription.controlled_poll(&mut engine, &mut handler, 10);
    assert_eq!(handler.seen, vec![b"b".to_vec(), b"c".to_vec()]);
    assert_eq!(engine.streams[0].subscribers[0].next_fragment, 3);
}

#[test]
fn controlled_poll_continue_consumes_up_to_the_limit() {
    let mut engine = Engine::new(0, 64, 256, 16);
    let (_client, publication, subscription) = connected_pair(&mut engine);
    for _ in 0..4 {
        offer_accepted(&mut engine, &publication, b"z");
    }
    let mut handler = Steer { actions: Vec::new(), seen: Vec::new() };
    subscription.controlled_poll(&mut engine, &mut handler, 3);
    assert_eq!(handler.seen.len(), 3);
    assert_eq!(engine.streams[0].subscribers[0].next_fragment, 3);
}

#[test]
fn block_poll_concatenates_one_session_and_term() {
    let mut engine = Engine::new(0, 64, 256, 16);
    let (_client, publication, subscription) = connected_pair(&mut engine);
    offer_accepted(&mut engine, &publication, b"ab");
    offer_accepted(&mut engine, &publication, b"cd");
    offer_accepted(&mut engine, &publication, b"ef");
    let mut handler = Blocks { blocks: Vec::new() };
    subscription.block_poll(&mut engine, &mut handler, 100);
    assert_eq!(handler.blocks.len(), 1, "one contiguous block, one handler call");
    assert_eq!(handler.blocks[0].0, b"abcdef".to_vec());
    assert_eq!(handler.blocks[0].1, publication.session_id);
    assert_eq!(handler.blocks[0].2, 0);
    // everything was consumed
    subscription.block_poll(&mut engine, &mut handler, 100);
    assert_eq!(handler.blocks.len(), 1);
}

#[test]
fn block_poll_respects_the_byte_limit() {
    let mut engine = Engine::new(0, 64, 256, 16);
    let (_client, publication, subscription) = connected_pair(&mut engine);
    offer_accepted(&mut engine, &publication, b"ab");
    offer_accepted(&mut engine, &publication, b"cd");
    let mut handler = Blocks { blocks: Vec::new() };
    subscription.block_poll(&mut engine, &mut handler, 3);
    assert_eq!(handler.blocks.len(), 1);
    assert_eq!(handler.blocks[0].0, b"ab".to_vec());
    subscription.block_poll(&mut engine, &mut handler, 3);
    assert_eq!(handler.blocks[1].0, b"cd".to_vec());
}

#[test]
fn block_poll_stops_at_a_term_boundary() {
    let mut engine = Engine::new(0, 8, 8, 16);
    let (_client, publication, subscription) = connected_pair(&mut engine);
    offer_accepted(&mut engine, &publication, b"123456");
    assert!(matches!(
        publication.offer(&mut engine, b"7890"),
        Ok(OfferResult::AdminAction)
    ));
    offer_accepted(&mut engine, &publication, b"7890");
    let mut handler = Blocks { blocks: Vec::new() };
    subscription.block_poll(&mut engine, &mut handler, 100);
    subscription.block_poll(&mut engine, &mut handler, 100);
    assert_eq!(handler.blocks.len(), 2, "frames of different terms form separate blocks");
    assert_eq!(handler.blocks[0].0, b"123456".to_vec());
    assert_eq!(handler.blocks[0].2, 0);
    assert_eq!(handler.blocks[1].0, b"7890".to_vec());
    assert_eq!(handler.blocks[1].2, 1);
}

#[test]
fn closed_subscription_delivers_nothing() {
    let mut engine = Engine::new(0, 64, 256, 16);
    let (_client, publication, subscription) = connected_pair(&mut engine);
    offer_accepted(&mut engine, &publication, b"late");
    assert!(!subscription.is_closed(&engine));
    assert_eq!(subscription.channel_status(&engine), ChannelStatus::Active);
    subscription.close(&mut engine);
    assert!(subscription.is_closed(&engine));
    assert_eq!(subscription.channel_status(&engine), ChannelStatus::Errored);
    let mut handler = Collect { frames: Vec::new() };
    subscription.poll(&mut engine, &mut handler, 10);
    assert!(handler.frames.is_empty());
}

#[test]
fn subscription_connectivity_follows_the_publishers() {
    let mut engine = Engine::new(0, 64, 256, 16);
    let (_client, publication, subscription) = connected_pair(&mut engine);
    assert!(subscription.is_connected(&engine));
    publication.close(&mut engine);
    assert!(!subscription.is_connected(&engine));
}

#[test]
fn subscription_destinations_are_added_and_removed_by_polling() {
    let mut engine = Engine::new(0, 64, 256, 16);
    let (_client, _publication, subscription) = connected_pair(&mut engine);
    let endpoint = "transport:udp?endpoint=localhost:20122";
    let pending = subscription.add_destination(&mut engine, endpoint).unwrap();
    assert_eq!(pending.poll(&mut engine).unwrap(), true);
    assert_eq!(engine.streams[0].subscribers[0].destinations, vec![endpoint.to_string()]);
    let pending = subscription.remove_destination(&mut engine, endpoint).unwrap();
    assert_eq!(pending.poll(&mut engine).unwrap(), true);
    assert!(engine.streams[0].subscribers[0].destinations.is_empty());
    assert!(matches!(
        subscription.add_destination(&mut engine, "bad\0uri"),
        Err(Error::InvalidArgument)
    ));
}

#[test]
fn poll_with_zero_fragment_limit_delivers_nothing() {
    let mut engine = Engine::new(0, 64, 256, 16);
    let (_client, publication, subscription) = connected_pair(&mut engine);
    offer_accepted(&mut engine, &publication, b"waiting");
    let mut handler = Collect { frames: Vec::new() };
    subscription.poll(&mut engine, &mut handler, 0);
    assert!(handler.frames.is_empty());
    assert_eq!(engine.streams[0].subscribers[0].next_fragment, 0);
}
