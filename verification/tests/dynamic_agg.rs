use rstutorial::dynamic_agg::{caps_kind, CapsKind, plan_pad, AggregateCycle, AggregateOutcome, DynamicAggState, PadPlan};
use rstutorial::FlowError;

type State = DynamicAggState<u32, &'static str, Vec<u8>>;

#[test]
fn fresh_state_is_not_negotiated() {
    let s = State::new();
    assert_eq!(s.update_src_caps(), Err(FlowError::NotNegotiated));
    assert!(s.video_info().is_none());
    assert!(s.text_caps().is_none());
    assert_eq!(s.accumulated_len(), 0);
    assert!(s.text_formats().is_empty());
}

#[test]
fn video_caps_with_info_are_stored_and_fixated() {
    let mut s = State::new();
    let fixate = s.on_caps_event("video/x-raw", "video caps", Some(42), None);
    assert_eq!(fixate, Some("video caps"));
    assert_eq!(s.update_src_caps(), Ok(&42));
    // A later video caps event replaces the description.
    let fixate = s.on_caps_event("video/x-raw", "other caps", Some(7), None);
    assert_eq!(fixate, Some("other caps"));
    assert_eq!(s.update_src_caps(), Ok(&7));
}

#[test]
fn video_caps_without_info_change_nothing() {
    let mut s = State::new();
    let fixate = s.on_caps_event("video/x-raw", "bad caps", None, Some("utf8".to_string()));
    assert_eq!(fixate, None);
    assert_eq!(s.update_src_caps(), Err(FlowError::NotNegotiated));
    assert!(s.text_formats().is_empty());
    assert!(s.text_caps().is_none());
}

#[test]
fn text_caps_are_stored_with_their_format() {
    let mut s = State::new();
    let fixate = s.on_caps_event("text/x-raw", "text caps", Some(1), Some("utf8".to_string()));
    assert_eq!(fixate, None);
    assert_eq!(s.text_caps(), Some(&"text caps"));
    assert_eq!(s.text_formats(), &vec!["utf8".to_string()]);
    // Text caps never negotiate the source pad.
    assert_eq!(s.update_src_caps(), Err(FlowError::NotNegotiated));
    let fixate = s.on_caps_event("text/x-raw", "plain text caps", None, None);
    assert_eq!(fixate, None);
    assert_eq!(s.text_caps(), Some(&"plain text caps"));
    assert_eq!(s.text_formats().len(), 1);
}

#[test]
fn other_caps_change_nothing() {
    let mut s = State::new();
    s.on_caps_event("video/x-raw", "v", Some(3), None);
    let fixate = s.on_caps_event("audio/x-raw", "a", Some(9), Some("S16LE".to_string()));
    assert_eq!(fixate, None);
    assert_eq!(s.update_src_caps(), Ok(&3));
    assert!(s.text_caps().is_none());
    assert!(s.text_formats().is_empty());
}

#[test]
fn valid_text_buffer_is_decoded_and_recorded() {
    let mut s = State::new();
    let mut texts = Vec::new();
    let bytes = "h\u{e9}llo".as_bytes().to_vec();
    let r = s.process_text_buffer(bytes.clone(), Some(bytes), "comm_0", &mut texts);
    assert_eq!(r, Ok(()));
    assert_eq!(texts, vec![("comm_0".to_string(), "h\u{e9}llo".to_string())]);
    assert_eq!(s.text_formats(), &vec!["comm_0".to_string()]);
    assert_eq!(s.accumulated_len(), 1);
}

#[test]
fn invalid_utf8_is_an_error_but_the_buffer_is_kept() {
    let mut s = State::new();
    let mut texts = Vec::new();
    let r = s.process_text_buffer(vec![0xff], Some(vec![0xff, 0xfe]), "comm_1", &mut texts);
    assert_eq!(r, Err(FlowError::Error));
    assert!(texts.is_empty());
    assert!(s.text_formats().is_empty());
    assert_eq!(s.accumulated_len(), 1);
}

#[test]
fn unmappable_buffer_is_an_error_but_kept() {
    let mut s = State::new();
    let mut texts = Vec::new();
    let r = s.process_text_buffer(vec![1, 2], None, "comm_2", &mut texts);
    assert_eq!(r, Err(FlowError::Error));
    assert!(texts.is_empty());
    assert_eq!(s.accumulated_len(), 1);
}

#[test]
fn empty_text_buffer_decodes_to_empty_text() {
    let mut s = State::new();
    let mut texts = Vec::new();
    let r = s.process_text_buffer(vec![], Some(vec![]), "comm_3", &mut texts);
    assert_eq!(r, Ok(()));
    assert_eq!(texts, vec![("comm_3".to_string(), String::new())]);
}

#[test]
fn pads_are_planned_by_name() {
    assert_eq!(plan_pad("sink", false), PadPlan::TakeVideo);
    assert_eq!(plan_pad("sink", true), PadPlan::SkipAtEos);
    assert_eq!(plan_pad("comm_0", false), PadPlan::DrainText);
    assert_eq!(plan_pad("comm_17", false), PadPlan::DrainText);
    assert_eq!(plan_pad("comm_", false), PadPlan::DrainText);
    assert_eq!(plan_pad("comm_4", true), PadPlan::SkipAtEos);
    assert_eq!(plan_pad("comm", false), PadPlan::Unknown);
    assert_eq!(plan_pad("Comm_1", false), PadPlan::Unknown);
    assert_eq!(plan_pad("sink_0", false), PadPlan::Unknown);
    assert_eq!(plan_pad("", false), PadPlan::Unknown);
}

#[test]
fn cycle_without_video_pushes_a_gap() {
    let mut c: AggregateCycle<u8> = AggregateCycle::new();
    c.take_video(None);
    assert!(matches!(c.conclude(), AggregateOutcome::PushGap));
}

#[test]
fn cycle_finishes_the_latest_video_buffer() {
    let mut c: AggregateCycle<u8> = AggregateCycle::new();
    c.take_video(Some(1));
    c.take_video(None);
    c.take_video(Some(2));
    c.take_video(None);
    assert!(matches!(c.conclude(), AggregateOutcome::FinishVideo(2)));
}

#[test]
fn cycle_collects_texts_and_updates_state() {
    let mut s: DynamicAggState<u32, &'static str, u8> = DynamicAggState::new();
    let mut c: AggregateCycle<u8> = AggregateCycle::new();
    assert_eq!(c.process_text(&mut s, 1, Some(b"goal".to_vec()), "comm_0"), Ok(()));
    assert_eq!(c.process_text(&mut s, 2, Some(vec![0xc3]), "comm_0"), Err(FlowError::Error));
    assert_eq!(c.texts(), &vec![("comm_0".to_string(), "goal".to_string())]);
    assert_eq!(s.accumulated_len(), 2);
    assert_eq!(s.text_formats(), &vec!["comm_0".to_string()]);
    // The failed text buffer ends the cycle with an error.
    assert!(matches!(c.conclude(), AggregateOutcome::Fail(FlowError::Error)));
}

#[test]
fn cycle_with_decoded_text_only_pushes_a_gap() {
    let mut s: DynamicAggState<u32, &'static str, u8> = DynamicAggState::new();
    let mut c: AggregateCycle<u8> = AggregateCycle::new();
    assert_eq!(c.process_text(&mut s, 1, Some(b"kick-off".to_vec()), "comm_0"), Ok(()));
    assert!(matches!(c.conclude(), AggregateOutcome::PushGap));
}

#[test]
fn text_failure_outranks_a_taken_video_buffer() {
    let mut s: DynamicAggState<u32, &'static str, u8> = DynamicAggState::new();
    let mut c: AggregateCycle<u8> = AggregateCycle::new();
    c.take_video(Some(9));
    assert_eq!(c.process_text(&mut s, 1, None, "comm_1"), Err(FlowError::Error));
    assert!(matches!(c.conclude(), AggregateOutcome::Fail(FlowError::Error)));
}

#[test]
fn caps_are_classified_by_structure_name() {
    assert_eq!(caps_kind("video/x-raw"), CapsKind::RawVideo);
    assert_eq!(caps_kind("text/x-raw"), CapsKind::RawText);
    assert_eq!(caps_kind("audio/x-raw"), CapsKind::Other);
    assert_eq!(caps_kind("video/x-raw-yuv"), CapsKind::Other);
    assert_eq!(caps_kind(""), CapsKind::Other);
}

#[test]
fn failed_cycle_takes_nothing_more() {
    let mut s: DynamicAggState<u32, &'static str, u8> = DynamicAggState::new();
    let mut c: AggregateCycle<u8> = AggregateCycle::new();
    assert_eq!(c.plan("comm_0", false), PadPlan::DrainText);
    assert!(c.keep_draining());
    assert_eq!(c.process_text(&mut s, 1, Some(vec![0x80]), "comm_0"), Err(FlowError::Error));
    assert!(!c.keep_draining());
    assert_eq!(c.plan("comm_1", false), PadPlan::Stop);
    assert_eq!(c.plan("sink", false), PadPlan::Stop);
    assert_eq!(c.plan("sink", true), PadPlan::Stop);
    assert_eq!(s.accumulated_len(), 1);
    assert!(s.text_formats().is_empty());
    assert!(matches!(c.conclude(), AggregateOutcome::Fail(FlowError::Error)));
}

#[test]
fn healthy_cycle_plans_as_plan_pad() {
    let c: AggregateCycle<u8> = AggregateCycle::new();
    assert_eq!(c.plan("sink", false), PadPlan::TakeVideo);
    assert_eq!(c.plan("comm_2", false), PadPlan::DrainText);
    assert_eq!(c.plan("comm_2", true), PadPlan::SkipAtEos);
    assert_eq!(c.plan("other", false), PadPlan::Unknown);
}
