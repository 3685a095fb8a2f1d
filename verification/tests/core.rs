//! Tests of the thumbnail core: the scale policy, freshness rule,
//! coalescing bookkeeping, pipeline driver, and the placeholder fallback.

use dexr::coalesce::{
    finish_generation, plan_generation, InFlightMap, Plan, ResultSlot,
};
use dexr::error::{io_ctx, Io, IoKind};
use dexr::extract::{
    classify_bus_error, pipeline_description, PipelineDriver, PipelineEvent, TIMEOUT_SECONDS,
};
use dexr::fallback::{fallback_outcome, is_placeholder, placeholder_payload};
use dexr::fresh::{is_fresh, is_fresh_with_retry};
use dexr::scale::calculate_actual_size;
use dexr::thumbnail::{thumbnail_eligibility, GenerateError, Type};

#[test]
fn test_calculate_actual_size() {
    assert_eq!(calculate_actual_size(24, 24, 24), (24, 24));
    assert_eq!(calculate_actual_size(48, 48, 24), (24, 24));
    assert_eq!(calculate_actual_size(48, 24, 24), (24, 16));
    assert_eq!(calculate_actual_size(24, 48, 24), (16, 24));
}

#[test]
fn scale_applies_encoder_floor() {
    // an extremely wide source would scale its height to zero; the floor
    // holds both dimensions at the encoder minimum
    assert_eq!(calculate_actual_size(2000, 1, 48), (48, 16));
    assert_eq!(calculate_actual_size(1, 2000, 48), (16, 48));
    assert_eq!(calculate_actual_size(0, 0, 48), (48, 48));
}

#[test]
fn scale_never_overflows_on_large_sources() {
    let (w, h) = calculate_actual_size(u32::MAX, u32::MAX - 1, 48);
    assert_eq!(w, 48);
    assert_eq!(h, 47);
}

#[test]
fn freshness_strictly_newer_cache_is_fresh() {
    assert_eq!(is_fresh(Ok(5), Ok(10)), Ok(true));
    // equal timestamps are conservatively stale
    assert_eq!(is_fresh(Ok(10), Ok(10)), Ok(false));
    assert_eq!(is_fresh(Ok(11), Ok(10)), Ok(false));
}

#[test]
fn freshness_missing_cache_is_a_miss_not_an_error() {
    assert_eq!(is_fresh(Ok(5), Err(IoKind::NotFound)), Ok(false));
}

#[test]
fn freshness_source_error_propagates() {
    assert_eq!(is_fresh(Err(IoKind::NotFound), Ok(10)), Err(IoKind::NotFound));
    assert_eq!(is_fresh(Err(IoKind::Other), Err(IoKind::NotFound)), Err(IoKind::Other));
    assert_eq!(is_fresh(Ok(5), Err(IoKind::Other)), Err(IoKind::Other));
}

#[test]
fn retry_policy_treats_placeholder_as_stale() {
    // with the policy off, a fresh placeholder is reused like any cache file
    assert_eq!(is_fresh_with_retry(Ok(5), Ok(10), false, true), Ok(true));
    // with the policy on, the failure is retried whatever the timestamps say
    assert_eq!(is_fresh_with_retry(Ok(5), Ok(10), true, true), Ok(false));
    // a real thumbnail is unaffected by the policy
    assert_eq!(is_fresh_with_retry(Ok(5), Ok(10), true, false), Ok(true));
    // a source metadata failure still propagates
    assert_eq!(is_fresh_with_retry(Err(IoKind::Other), Ok(10), true, true), Err(IoKind::Other));
}

#[test]
fn placeholder_recognition_is_exact() {
    let payload = placeholder_payload();
    assert!(is_placeholder(&payload));
    let mut altered = payload.clone();
    altered[10] ^= 1;
    assert!(!is_placeholder(&altered));
    let mut truncated = payload.clone();
    truncated.pop();
    assert!(!is_placeholder(&truncated));
    assert!(!is_placeholder(&[]));
}

#[test]
fn coalescing_one_leader_rest_join() {
    let mut map = InFlightMap::new();
    let key = String::from("cache/abc.png");
    // first caller with a stale cache leads
    assert_eq!(map.plan(false, &key), Plan::Lead);
    // every concurrent caller for the same path joins
    assert_eq!(map.plan(false, &key), Plan::Join);
    assert_eq!(map.plan(false, &key), Plan::Join);
    // a different path is independent
    let other = String::from("cache/def.png");
    assert_eq!(map.plan(false, &other), Plan::Lead);
}

#[test]
fn coalescing_completion_clears_the_entry() {
    let mut map = InFlightMap::new();
    let key = String::from("k");
    assert_eq!(map.plan(false, &key), Plan::Lead);
    assert!(map.contains_key(&key));
    assert!(map.complete(&key));
    assert!(!map.contains_key(&key));
    // completing again finds nothing
    assert!(!map.complete(&key));
    // with the entry gone, the next stale caller leads again
    assert_eq!(map.plan(false, &key), Plan::Lead);
}

#[test]
fn freshness_hit_bypasses_bookkeeping() {
    let mut map = InFlightMap::new();
    let key = String::from("k");
    assert_eq!(map.plan(true, &key), Plan::Fresh);
    assert!(!map.contains_key(&key));
}

#[test]
fn plan_generation_labels_freshness_errors() {
    let mut map = InFlightMap::new();
    let key = String::from("k");
    let r = plan_generation(&mut map, Err(IoKind::Other), &key);
    match r {
        Err(e @ GenerateError::Io { context, kind }) => {
            assert_eq!(context, "checking freshness of thumbnail");
            assert_eq!(kind, IoKind::Other);
            assert_eq!(e.status(), 500);
        }
        other => panic!("unexpected plan: {other:?}"),
    }
    let r = plan_generation(&mut map, Ok(false), &key);
    assert_eq!(r, Ok(Plan::Lead));
}

#[test]
fn finish_removes_entry_and_publishes() {
    let mut map = InFlightMap::new();
    let key = String::from("k");
    assert_eq!(map.plan(false, &key), Plan::Lead);
    let mut slot = ResultSlot::empty();
    assert_eq!(slot.get(), None);
    let found = finish_generation(&mut map, &key, &mut slot, Err(GenerateError::Decode));
    assert!(found);
    assert!(!map.contains_key(&key));
    // every waiter reads the same published value
    assert_eq!(slot.get(), Some(Err(GenerateError::Decode)));
    assert_eq!(slot.get(), Some(Err(GenerateError::Decode)));
}

#[test]
fn driver_timeout_yields_timeout_and_teardown() {
    assert_eq!(TIMEOUT_SECONDS, 5);
    let mut driver = PipelineDriver::start();
    assert!(!driver.released);
    let r = driver.on_event(PipelineEvent::TimedOut);
    assert_eq!(r, Some(Err(GenerateError::Timeout)));
    // the test double's teardown obligation is set on the timeout path too
    assert!(driver.released);
}

#[test]
fn driver_takes_exactly_one_frame() {
    let mut driver = PipelineDriver::start();
    let r = driver.on_event(PipelineEvent::Frame(vec![1, 2, 3]));
    assert_eq!(r, Some(Ok(vec![1, 2, 3])));
    assert!(driver.released);
}

#[test]
fn driver_warning_is_non_fatal() {
    let mut driver = PipelineDriver::start();
    let r = driver.on_event(PipelineEvent::Warning);
    assert_eq!(r, None);
    assert!(!driver.released);
    let r = driver.on_event(PipelineEvent::EndOfStream);
    assert_eq!(r, Some(Err(GenerateError::Empty)));
    assert!(driver.released);
}

#[test]
fn driver_classifies_bus_errors() {
    let mut driver = PipelineDriver::start();
    let r = driver.on_event(PipelineEvent::BusError {
        message: String::from("Your GStreamer installation is missing a plug-in."),
    });
    assert_eq!(r, Some(Err(GenerateError::Unsupported)));
    assert!(driver.released);

    let mut driver = PipelineDriver::start();
    let r = driver.on_event(PipelineEvent::BusError {
        message: String::from("Internal data stream error."),
    });
    assert_eq!(r, Some(Err(GenerateError::Backend)));
    assert!(driver.released);
}

#[test]
fn classify_recognizes_missing_decoder() {
    assert_eq!(
        classify_bus_error("Your GStreamer installation is missing a plug-in."),
        GenerateError::Unsupported
    );
    assert_eq!(classify_bus_error("could not link elements"), GenerateError::Backend);
    assert_eq!(classify_bus_error(""), GenerateError::Backend);
}

#[test]
fn pipeline_description_names_the_stages() {
    assert_eq!(
        pipeline_description("/data/video.mkv"),
        "uridecodebin uri=file:///data/video.mkv ! videoscale ! videoconvert \
         ! thumbnailscale ! pngenc ! appsink name=sink"
    );
}

#[test]
fn fallback_placeholder_is_the_fixed_png() {
    let payload = placeholder_payload();
    assert_eq!(payload.len(), 68);
    // PNG signature, so the slot stays servable as an image
    assert_eq!(&payload[..8], &[0x89, 0x50, 0x4e, 0x47, 0x0d, 0x0a, 0x1a, 0x0a]);
    assert_eq!(&payload[payload.len() - 8..], &[0x49, 0x45, 0x4e, 0x44, 0xae, 0x42, 0x60, 0x82]);
    // the payload is fixed: two calls agree byte for byte
    assert_eq!(payload, placeholder_payload());
}

#[test]
fn fallback_reports_the_original_error() {
    // a decode failure after a successful placeholder write stays a decode
    // failure: the cache file holds the placeholder, the caller learns the
    // truth
    assert_eq!(fallback_outcome(GenerateError::Decode, Ok(())), GenerateError::Decode);
    assert_eq!(fallback_outcome(GenerateError::Timeout, Ok(())), GenerateError::Timeout);
}

#[test]
fn fallback_write_failure_takes_precedence() {
    let write_err = io_ctx("writing placeholder image to output", IoKind::Other);
    assert_eq!(
        fallback_outcome(GenerateError::Decode, Err(write_err)),
        GenerateError::Io { context: "writing placeholder image to output", kind: IoKind::Other }
    );
}

#[test]
fn not_rich_extensions_never_reach_the_extractor() {
    assert_eq!(thumbnail_eligibility(Some("txt")), Err(GenerateError::NotRich));
    assert_eq!(thumbnail_eligibility(Some("")), Err(GenerateError::NotRich));
    assert_eq!(thumbnail_eligibility(None), Err(GenerateError::NotRich));
    // the allowlist is case-sensitive
    assert_eq!(thumbnail_eligibility(Some("PNG")), Err(GenerateError::NotRich));
    assert_eq!(thumbnail_eligibility(Some("png")), Ok(Type::Image));
    assert_eq!(thumbnail_eligibility(Some("mkv")), Ok(Type::Video));
}

#[test]
fn extension_allowlist_is_exact() {
    assert_eq!(Type::from_extension("jpeg"), Some(Type::Image));
    assert_eq!(Type::from_extension("farbfeld"), Some(Type::Image));
    assert_eq!(Type::from_extension("webm"), Some(Type::Video));
    assert_eq!(Type::from_extension("mov"), Some(Type::Video));
    assert_eq!(Type::from_extension("jpg "), None);
    assert_eq!(Type::from_extension("exe"), None);
}

#[test]
fn error_statuses_follow_the_mapping() {
    assert_eq!(GenerateError::NotRich.status(), 404);
    assert_eq!(GenerateError::Decode.status(), 404);
    assert_eq!(GenerateError::Timeout.status(), 404);
    assert_eq!(GenerateError::Empty.status(), 404);
    assert_eq!(GenerateError::Unsupported.status(), 404);
    assert_eq!(GenerateError::Backend.status(), 404);
    assert_eq!(GenerateError::Io { context: "x", kind: IoKind::NotFound }.status(), 404);
    assert_eq!(GenerateError::Io { context: "x", kind: IoKind::Other }.status(), 500);
    let io = Io { context: "reading metadata", kind: IoKind::Other };
    assert_eq!(io.status(), 500);
}

#[test]
fn error_messages_are_the_fixed_diagnostics() {
    assert_eq!(
        GenerateError::NotRich.message(),
        "file type does not support rich thumbnails"
    );
    assert_eq!(GenerateError::Timeout.message(), "thumbnail generation timed out");
    assert_eq!(GenerateError::Empty.message(), "video has no frames");
    assert_eq!(GenerateError::Unsupported.message(), "file format not supported");
    assert_eq!(
        GenerateError::Io { context: "opening thumbnail output", kind: IoKind::Other }.message(),
        "opening thumbnail output"
    );
}
