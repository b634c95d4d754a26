use shadowbox::expect_log::ExpectLog;
use shadowbox::messaging::ChunkedMessageGenerator;
use shadowbox::messaging::DispatchFailure;
use shadowbox::messaging::PageStep;
use shadowbox::messaging::error_response;
use shadowbox::messaging::location_response_key;
use shadowbox::messaging::purge_step;

#[test]
fn paging_stops_on_an_empty_chunk() {
    let gen = ChunkedMessageGenerator::new(100, 555);
    assert_eq!(gen.chunk_size, 100);
    assert_eq!(gen.channel, 555);
    let batch: Vec<u64> = vec![];
    assert_eq!(gen.advance(&batch), PageStep::Stop);
}

#[test]
fn paging_anchors_before_the_last_message_of_the_chunk() {
    let gen = ChunkedMessageGenerator::new(100, 555);
    let batch: Vec<u64> = vec![9, 8, 7];
    assert_eq!(gen.advance(&batch), PageStep::Continue(7));
}

#[test]
fn purge_deletes_only_the_target_authors_messages() {
    let step = purge_step(0, None, 5, 5);
    assert!(step.delete);
    assert_eq!(step.counter, 1);
    assert!(!step.stop);
    let step = purge_step(1, None, 6, 5);
    assert!(!step.delete);
    assert_eq!(step.counter, 1);
    assert!(!step.stop);
}

#[test]
fn purge_stops_when_the_limit_is_reached() {
    let step = purge_step(1, Some(2), 5, 5);
    assert!(step.delete);
    assert_eq!(step.counter, 2);
    assert!(step.stop);
    let step = purge_step(0, Some(2), 5, 5);
    assert!(!step.stop);
}

#[test]
fn command_errors_are_answered_with_the_error_key() {
    let failure = DispatchFailure::CommandError("boom".to_string());
    let (key, arg) = error_response(&failure).unwrap();
    assert_eq!(key, "error.command.result.response");
    assert_eq!(arg, "boom");
}

#[test]
fn command_panics_are_answered_with_the_panic_key() {
    let failure = DispatchFailure::CommandPanic(Some("panic text".to_string()));
    let (key, arg) = error_response(&failure).unwrap();
    assert_eq!(key, "error.command.panic.response");
    assert_eq!(arg, "panic text");
    let failure = DispatchFailure::CommandPanic(None);
    let (_, arg) = error_response(&failure).unwrap();
    assert_eq!(arg, "No payload");
}

#[test]
fn other_failures_are_only_logged() {
    assert_eq!(error_response(&DispatchFailure::Other), None);
}

#[test]
fn location_key_depends_on_guild_context() {
    assert_eq!(location_response_key(true), "command.whereareyou.response.server");
    assert_eq!(location_response_key(false), "command.whereareyou.response.dm");
}

#[test]
fn expect_log_unwraps_present_values() {
    let some: Option<u32> = Some(5);
    assert_eq!(some.expect_log("value was missing"), 5);
    let ok: Result<&str, u8> = Ok("fine");
    assert_eq!(ok.expect_log("operation failed"), "fine");
}
