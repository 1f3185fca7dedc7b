use std::time::{Duration, Instant};

use codewhale::dispatch::QueuedMessage;
use codewhale::pending_dispatch::{PendingDispatchState, PendingUserDispatch, PREPARING_MESSAGE_STATUS};
use codewhale::send_latency::{
    dispatch_id_for, maybe_record_send_ui_ack, maybe_record_send_ui_ack_with_preparing,
    new_dispatch_id, send_latency_trace_enabled, ui_ack_after, PendingSendUiAck, SendLatencyTrace,
    TRACE_SEND_LATENCY_ENV,
};

fn pending_ack() -> Option<PendingSendUiAck> {
    Some(PendingSendUiAck {
        dispatch_id: "send-ack".to_string(),
        enter_received_at: Instant::now(),
    })
}

#[test]
fn preparing_becomes_ready_only_after_redraw() {
    let mut pending = PendingUserDispatch {
        id: "send-test".to_string(),
        message: QueuedMessage::new("hi".to_string(), None),
        created_at: Instant::now(),
        state: PendingDispatchState::Preparing,
        generation: 1,
        needs_edit_sync: false,
    };
    assert!(!pending.is_ready());
    pending.mark_redrawn();
    assert!(pending.is_ready());
    assert_eq!(pending.state, PendingDispatchState::ReadyToDispatch);
}

#[test]
fn awaiting_engine_survives_redraw() {
    let mut pending = PendingUserDispatch {
        id: "send-test".to_string(),
        message: QueuedMessage::new("hi".to_string(), Some("skill".to_string())),
        created_at: Instant::now(),
        state: PendingDispatchState::Preparing,
        generation: 1,
        needs_edit_sync: true,
    };
    assert!(!pending.is_awaiting_engine());
    pending.mark_awaiting_engine();
    pending.mark_redrawn();
    assert!(pending.is_awaiting_engine());
    assert_eq!(pending.display(), "hi");
    let copy = pending.clone();
    assert_eq!(copy.id, "send-test");
    assert_eq!(copy.message.skill_instruction.as_deref(), Some("skill"));
    assert_eq!(PREPARING_MESSAGE_STATUS, "Preparing message…");
}

#[test]
fn trace_disabled_by_default_when_env_unset() {
    assert_eq!(TRACE_SEND_LATENCY_ENV, "CODEWHALE_TRACE_SEND_LATENCY");
    assert!(!send_latency_trace_enabled(None));
}

#[test]
fn trace_enabled_for_one_true_yes() {
    for value in ["1", "true", "TRUE", "yes", "Yes"] {
        assert!(
            send_latency_trace_enabled(Some(value)),
            "expected enabled for {value:?}"
        );
    }
    assert!(!send_latency_trace_enabled(Some("0")));
    assert!(!send_latency_trace_enabled(Some("false")));
    assert!(send_latency_trace_enabled(Some(" true\n")));
    assert!(!send_latency_trace_enabled(Some("")));
    assert!(!send_latency_trace_enabled(Some("11")));
}

fn wait(time: Duration) {
    let start = Instant::now();
    while start.elapsed() < time {}
}

#[test]
fn mark_records_segments_and_identifies_slowest() {
    let mut trace = SendLatencyTrace::start("send-test".to_string());
    trace.input_chars = 10;
    trace.history_messages = 3;
    trace.mark("enter_received");
    wait(Duration::from_millis(5));
    trace.mark("submit_input_done");
    wait(Duration::from_millis(20));
    trace.mark("system_prompt_done");
    let slowest = trace.slowest().expect("segments");
    assert_eq!(slowest.0, "system_prompt_done");
    assert!(slowest.1 >= Duration::from_millis(15).as_nanos());
    assert!(trace.total() >= Duration::from_millis(20).as_nanos());
    trace.finish();
}

#[test]
fn marks_at_given_times_identify_slowest() {
    let ms = |n: u64| Duration::from_millis(n).as_nanos();
    let mut trace = SendLatencyTrace::start("send-test".to_string());
    trace.set_dimensions(10, 3);
    trace.mark_at("enter_received", ms(0));
    trace.mark_at("submit_input_done", ms(5));
    trace.mark_at("system_prompt_done", ms(25));
    assert_eq!(trace.slowest(), Some(("system_prompt_done", ms(20))));
    assert_eq!(trace.total(), ms(25));
    assert_eq!(
        trace.segments(),
        &[
            ("enter_received", 0),
            ("submit_input_done", ms(5)),
            ("system_prompt_done", ms(20)),
        ]
    );
    let sum: u128 = trace.segments().iter().map(|s| s.1).sum();
    assert_eq!(sum, trace.total());
    let summary = trace.finish();
    assert_eq!(summary.dispatch_id, "send-test");
    assert_eq!(summary.total_ms, 25);
    assert_eq!(summary.slowest, "system_prompt_done");
    assert_eq!(summary.slowest_ms, 20);
    assert_eq!(summary.input_chars, 10);
    assert_eq!(summary.history_messages, 3);
    assert_eq!(
        summary.message,
        "send latency enter_received=0ms submit_input_done=5ms system_prompt_done=20ms"
    );
}

#[test]
fn last_of_equally_slow_segments_is_slowest() {
    let mut trace = SendLatencyTrace::start("t".to_string());
    trace.mark_at("a", 5);
    trace.mark_at("b", 10);
    trace.mark_at("back", 3);
    assert_eq!(trace.slowest(), Some(("b", 5)));
    assert_eq!(trace.total(), 3);
    assert_eq!(trace.segments()[2], ("back", 0));
}

#[test]
fn empty_trace_has_no_slowest_segment() {
    let trace = SendLatencyTrace::start("t".to_string());
    assert_eq!(trace.slowest(), None);
    let summary = trace.finish();
    assert_eq!(summary.slowest, "(none)");
    assert_eq!(summary.slowest_ms, 0);
    assert_eq!(summary.total_ms, 0);
    assert_eq!(summary.message, "send latency ");
}

#[test]
fn ui_ack_records_only_when_composer_cleared_or_loading() {
    let mut pending = pending_ack();
    maybe_record_send_ui_ack(&mut pending, false, false);
    assert!(pending.is_some(), "should wait until UI reflects send");

    maybe_record_send_ui_ack(&mut pending, true, false);
    assert!(pending.is_none(), "empty composer acknowledges");
}

#[test]
fn ui_ack_accepts_loading_and_preparing() {
    let mut pending = pending_ack();
    let ack = maybe_record_send_ui_ack(&mut pending, false, true).unwrap();
    assert_eq!(ack.dispatch_id, "send-ack");
    assert!(ack.ui_ack_ms < 60_000);

    let mut pending = pending_ack();
    assert!(maybe_record_send_ui_ack_with_preparing(&mut pending, false, false, false).is_none());
    assert!(maybe_record_send_ui_ack_with_preparing(&mut pending, false, false, true).is_some());
    assert!(maybe_record_send_ui_ack_with_preparing(&mut pending, true, true, true).is_none());

    let ack = ui_ack_after(pending_ack().clone().unwrap(), 1_999_999);
    assert_eq!(ack.ui_ack_ms, 1);
}

#[test]
fn ui_ack_time_runs_from_enter() {
    let mut pending = pending_ack();
    let began = Instant::now();
    while began.elapsed() < Duration::from_millis(4) {}
    let ack = maybe_record_send_ui_ack(&mut pending, true, true).unwrap();
    assert!(ack.ui_ack_ms >= 4);
}

#[test]
fn dispatch_id_is_stable_prefix_and_unique() {
    let a = new_dispatch_id();
    let b = new_dispatch_id();
    assert!(a.starts_with("send-"));
    assert!(b.starts_with("send-"));
    assert_ne!(a, b);
}

#[test]
fn dispatch_id_takes_first_digits_of_uuid() {
    assert_eq!(
        dispatch_id_for(0x0123_4567_89ab_cdef_0123_4567_89ab_cdef),
        "send-0123456789ab"
    );
    assert_eq!(dispatch_id_for(0), "send-000000000000");
    assert_eq!(dispatch_id_for(u128::MAX), "send-ffffffffffff");
    assert_ne!(dispatch_id_for(1 << 80), dispatch_id_for(0));
    assert_eq!(dispatch_id_for((1 << 80) - 1), dispatch_id_for(0));
    assert_eq!(new_dispatch_id().len(), 17);
}
