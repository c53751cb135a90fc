use clipsnap::imaging::{decode_image, encode_png};
use clipsnap::monitor::{
    calculate_hash, ClipboardImage, CyclePlan, ImageStep, MonitorState, TextStep, BASE_POLL_MS,
    IDLE_POLL_MS,
};

fn image(bytes: Vec<u8>, width: usize, height: usize) -> Option<ClipboardImage> {
    Some(ClipboardImage { width, height, bytes })
}

fn text_written(plan: &CyclePlan) -> bool {
    matches!(plan.text, TextStep::Store { .. })
}

fn image_written(plan: &CyclePlan) -> bool {
    matches!(plan.image, ImageStep::Store { .. })
}

#[test]
fn same_text_in_two_cycles_is_stored_once() {
    let mut state = MonitorState::new();
    let first = state.plan_cycle(Some("hello".to_string()), None);
    assert!(text_written(&first));
    if let TextStep::Store { text, .. } = &first.text {
        assert_eq!(text, "hello");
    }
    state.complete_cycle(&first, true, false);
    let second = state.plan_cycle(Some("hello".to_string()), None);
    assert!(!text_written(&second));
    state.complete_cycle(&second, false, false);
    let third = state.plan_cycle(Some("other".to_string()), None);
    assert!(text_written(&third));
}

#[test]
fn failed_text_write_is_retried() {
    let mut state = MonitorState::new();
    let first = state.plan_cycle(Some("retry me".to_string()), None);
    state.complete_cycle(&first, false, false);
    let second = state.plan_cycle(Some("retry me".to_string()), None);
    assert!(text_written(&second));
}

#[test]
fn empty_or_missing_text_is_ignored() {
    let state = MonitorState::new();
    assert!(!text_written(&state.plan_cycle(Some(String::new()), None)));
    assert!(!text_written(&state.plan_cycle(None, None)));
}

#[test]
fn same_image_in_two_cycles_is_stored_once() {
    let mut state = MonitorState::new();
    let bytes = vec![200u8; 4 * 4 * 4];
    let first = state.plan_cycle(None, image(bytes.clone(), 4, 4));
    match &first.image {
        ImageStep::Store { png, thumbnail, hash } => {
            assert_eq!(*hash, calculate_hash(&bytes));
            let decoded = decode_image(png).unwrap();
            assert_eq!((decoded.width, decoded.height), (4, 4));
            assert_eq!(*png, encode_png(&bytes, 4, 4).unwrap());
            assert!(!thumbnail.is_empty());
        }
        _ => panic!("a new image is stored"),
    }
    state.complete_cycle(&first, false, true);
    let second = state.plan_cycle(None, image(bytes, 4, 4));
    assert!(!image_written(&second));
    assert!(matches!(second.image, ImageStep::Unchanged));
}

#[test]
fn unreadable_image_is_not_offered_again() {
    let mut state = MonitorState::new();
    let first = state.plan_cycle(None, image(vec![1, 2, 3], 4, 4));
    assert!(matches!(first.image, ImageStep::Unreadable { .. }));
    state.complete_cycle(&first, false, false);
    let second = state.plan_cycle(None, image(vec![1, 2, 3], 4, 4));
    assert!(matches!(second.image, ImageStep::Unchanged));
}

#[test]
fn polling_slows_after_quiet_cycles_and_recovers() {
    let mut state = MonitorState::new();
    assert_eq!(state.poll_interval_ms(), BASE_POLL_MS);
    for _ in 0..5 {
        let plan = state.plan_cycle(None, None);
        state.complete_cycle(&plan, false, false);
    }
    assert_eq!(state.no_change_count, 5);
    assert_eq!(state.poll_interval_ms(), 750);
    let plan = state.plan_cycle(None, None);
    state.complete_cycle(&plan, false, false);
    assert_eq!(state.poll_interval_ms(), IDLE_POLL_MS);
    assert_eq!(state.poll_interval_ms(), 1000);
    let plan = state.plan_cycle(Some("change".to_string()), None);
    state.complete_cycle(&plan, true, false);
    assert_eq!(state.no_change_count, 0);
    assert_eq!(state.poll_interval_ms(), 750);
}

#[test]
fn quiet_counter_saturates() {
    let mut state = MonitorState { last_text_hash: None, last_image_hash: None, no_change_count: u32::MAX };
    let plan = state.plan_cycle(None, None);
    state.complete_cycle(&plan, false, false);
    assert_eq!(state.no_change_count, u32::MAX);
}

#[test]
fn hash_tells_contents_apart() {
    assert_eq!(calculate_hash(b"abc"), calculate_hash(b"abc"));
    assert_ne!(calculate_hash(b"abc"), calculate_hash(b"abd"));
}
