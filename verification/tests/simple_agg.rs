use rstutorial::simple_agg::{aggregate_step, SimpleAggState, SimpleStep};
use rstutorial::{src_caps_from_conversion, FlowError};

#[test]
fn simple_fresh_state_is_not_negotiated() {
    let s: SimpleAggState<u32> = SimpleAggState::new();
    assert_eq!(s.update_src_caps(), Err(FlowError::NotNegotiated));
    assert!(s.video_info().is_none());
}

#[test]
fn simple_set_video_info_then_src_caps() {
    let mut s: SimpleAggState<u32> = SimpleAggState::new();
    assert_eq!(s.set_video_info(11), Ok(()));
    assert_eq!(s.update_src_caps(), Ok(&11));
    assert_eq!(s.video_info(), Some(&11));
}

#[test]
fn simple_caps_event_with_info_is_fixated() {
    let mut s: SimpleAggState<u32> = SimpleAggState::new();
    assert_eq!(s.on_caps_event("caps", Some(5)), Some("caps"));
    assert_eq!(s.update_src_caps(), Ok(&5));
    assert_eq!(s.on_caps_event("not video", None), None);
    assert_eq!(s.update_src_caps(), Ok(&5));
}

#[test]
fn simple_step_decisions() {
    assert!(matches!(aggregate_step::<u8>(None), SimpleStep::NextPad));
    assert!(matches!(aggregate_step(Some((3u8, Some(0u64)))), SimpleStep::Finish(3)));
    assert!(matches!(aggregate_step(Some((3u8, Some(40_000_000u64)))), SimpleStep::Finish(3)));
    assert!(matches!(aggregate_step(Some((3u8, None))), SimpleStep::Fail(FlowError::Error)));
}

#[test]
fn simple_first_pad_with_buffer_decides() {
    // Pads yield: nothing, a buffer with timestamp, a buffer without.
    let pops: Vec<Option<(u8, Option<u64>)>> = vec![None, Some((1, Some(10))), Some((2, None))];
    let mut end = None;
    for p in pops {
        match aggregate_step(p) {
            SimpleStep::NextPad => continue,
            other => {
                end = Some(other);
                break;
            }
        }
    }
    assert!(matches!(end, Some(SimpleStep::Finish(1))));
}

#[test]
fn conversion_failure_is_not_negotiated() {
    assert_eq!(src_caps_from_conversion(Some("caps")), Ok("caps"));
    assert_eq!(src_caps_from_conversion::<&str>(None), Err(FlowError::NotNegotiated));
}
