use measured::label::resolve_label;
use measured::metric::{sample_millis, CallKind, LABEL_KEY, MAX_MILLIS};

#[test]
fn custom_name_is_the_label() {
    assert_eq!(resolve_label(Some("custom_process_name"), "process_data"), "custom_process_name");
}

#[test]
fn declared_name_is_the_label_without_a_custom_one() {
    assert_eq!(resolve_label(None, "process_data"), "process_data");
}

#[test]
fn empty_custom_name_falls_back_to_the_declared_one() {
    assert_eq!(resolve_label(Some(""), "process_data"), "process_data");
}

#[test]
fn blank_custom_name_is_kept() {
    assert_eq!(resolve_label(Some(" "), "process_data"), " ");
}

#[test]
fn empty_names_give_an_empty_label() {
    assert_eq!(resolve_label(Some(""), ""), "");
    assert_eq!(resolve_label(None, ""), "");
}

#[test]
fn custom_name_may_equal_the_declared_one() {
    assert_eq!(resolve_label(Some("process_data"), "process_data"), "process_data");
}

#[test]
fn label_is_the_same_on_every_call() {
    let first = resolve_label(Some("stable"), "declared").to_owned();
    for _ in 0..100 {
        assert_eq!(resolve_label(Some("stable"), "declared"), first);
    }
}

#[test]
fn non_ascii_names_pass_through() {
    assert_eq!(resolve_label(Some("mesure_dur\u{e9}e"), "f"), "mesure_dur\u{e9}e");
    assert_eq!(resolve_label(None, "\u{51fd}\u{6570}"), "\u{51fd}\u{6570}");
}

#[test]
fn metric_names_by_kind() {
    assert_eq!(CallKind::Sync.metric_name(), "function_duration_milliseconds");
    assert_eq!(CallKind::Async.metric_name(), "async_function_duration_milliseconds");
}

#[test]
fn metric_names_differ() {
    assert_ne!(CallKind::Sync.metric_name(), CallKind::Async.metric_name());
}

#[test]
fn label_key_is_function() {
    assert_eq!(LABEL_KEY, "function");
}

#[test]
fn small_durations_are_kept() {
    assert_eq!(sample_millis(0), 0);
    assert_eq!(sample_millis(1), 1);
    assert_eq!(sample_millis(10), 10);
    assert_eq!(sample_millis(86_400_000), 86_400_000);
}

#[test]
fn durations_of_months_are_kept() {
    assert_eq!(sample_millis(4_294_967_295), 4_294_967_295);
    assert_eq!(sample_millis(4_294_967_296), 4_294_967_296);
    assert_eq!(sample_millis(31_536_000_000), 31_536_000_000);
}

#[test]
fn largest_sample_is_kept() {
    assert_eq!(MAX_MILLIS, u64::MAX);
    assert_eq!(sample_millis(18_446_744_073_709_551_615), 18_446_744_073_709_551_615);
}

#[test]
fn durations_beyond_the_largest_sample_saturate() {
    assert_eq!(sample_millis(18_446_744_073_709_551_616), u64::MAX);
    assert_eq!(sample_millis(u128::MAX), u64::MAX);
}
