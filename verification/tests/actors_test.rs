use websocket_builder::actor_websocket_handler::{actor_reader_read, actor_writer_step, WriteAction};
use websocket_builder::message_handler::outbound_runs_middleware;
use websocket_builder::split_actors::{
    inbound_actor_read, inbound_conversion_step, inbound_delivery, outbound_actor_processes,
    ConversionStep, Delivery, ReadAction,
};
use websocket_builder::{WsError, WsMessage};

#[test]
fn inbound_actor_rejects_binary_but_reader_skips_it() {
    let binary = Some(Ok(WsMessage::Binary(vec![1])));
    assert_eq!(inbound_actor_read(&binary), ReadAction::Stop);
    assert_eq!(actor_reader_read(&binary), ReadAction::Skip);
}

#[test]
fn readers_convert_text_and_skip_control_frames() {
    for read in [inbound_actor_read, actor_reader_read] {
        assert_eq!(read(&Some(Ok(WsMessage::Text("hi".to_string())))), ReadAction::Convert);
        assert_eq!(read(&Some(Ok(WsMessage::Ping(vec![])))), ReadAction::Skip);
        assert_eq!(read(&Some(Ok(WsMessage::Pong(vec![])))), ReadAction::Skip);
        assert_eq!(read(&Some(Ok(WsMessage::Close(None)))), ReadAction::Stop);
        assert_eq!(read(&Some(Err(WsError::ConnectionClosed))), ReadAction::Stop);
        assert_eq!(read(&None), ReadAction::Stop);
    }
}

#[test]
fn delivery_and_outbound_processing_rules() {
    assert_eq!(inbound_delivery(Some(10)), Delivery::Buffered);
    assert_eq!(inbound_delivery(None), Delivery::Direct);
    assert!(outbound_actor_processes(1, 2));
    assert!(!outbound_actor_processes(2, 2));
    assert!(!outbound_runs_middleware(0));
    assert!(outbound_runs_middleware(1));
}

#[test]
fn writer_sends_processed_and_stops_when_actor_is_gone() {
    let processed: Option<Result<Option<u8>, anyhow::Error>> = Some(Ok(Some(7)));
    assert_eq!(actor_writer_step(&processed), WriteAction::SendProcessed);
    let dropped: Option<Result<Option<u8>, anyhow::Error>> = Some(Ok(None));
    assert_eq!(actor_writer_step(&dropped), WriteAction::Skip);
    let failed: Option<Result<Option<u8>, anyhow::Error>> = Some(Err(anyhow::Error::msg("x")));
    assert_eq!(actor_writer_step(&failed), WriteAction::Skip);
    let gone: Option<Result<Option<u8>, anyhow::Error>> = None;
    assert_eq!(actor_writer_step(&gone), WriteAction::Stop);
}

#[test]
fn conversion_results_map_to_steps() {
    let delivered: Result<Option<u8>, anyhow::Error> = Ok(Some(1));
    assert_eq!(inbound_conversion_step(&delivered), ConversionStep::Deliver);
    let ignored: Result<Option<u8>, anyhow::Error> = Ok(None);
    assert_eq!(inbound_conversion_step(&ignored), ConversionStep::Filtered);
    let failed: Result<Option<u8>, anyhow::Error> = Err(anyhow::Error::msg("bad"));
    assert_eq!(inbound_conversion_step(&failed), ConversionStep::Failed);
}
