use bhtune_server::routes::stream::{
    FetchedSample, RunPoll, RunStream, SamplePoll, StreamError, StreamEvent, StreamKind, StreamPhase,
};
use bhtune_server::error::ApiError;
use bhtune_server::routes::history::no_run;
use bhtune_server::spa::{asset_path, cache_control, last_segment_has_dot, static_target, StaticTarget, INDEX_HTML, NOT_BUILT_MESSAGE};

fn describe(events: &[StreamEvent]) -> Vec<String> {
    events
        .iter()
        .map(|event| match event {
            StreamEvent::Initial => "initial".to_string(),
            StreamEvent::Sample(i) => format!("sample {i}"),
            StreamEvent::Done => "done".to_string(),
            StreamEvent::Error(error) => format!("error {}", error.text()),
        })
        .collect()
}

fn samples(ticks: &[(i64, bool)]) -> SamplePoll {
    SamplePoll::Fetched(ticks.iter().map(|&(tick, encodes)| FetchedSample { tick, encodes }).collect())
}

fn found(initial: Option<bool>, terminal: bool) -> RunPoll {
    RunPoll::Found { initial, terminal, done_encodes: true }
}

#[test]
fn full_stream_replays_initial_and_samples_then_done() {
    let (mut stream, events) = RunStream::open(StreamKind::Full, 0);
    assert!(events.is_empty());
    assert_eq!(stream.phase, StreamPhase::PollRun);
    assert_eq!(stream.last_tick, -1);

    assert_eq!(describe(&stream.run_polled(found(None, false))), Vec::<String>::new());
    assert_eq!(describe(&stream.samples_polled(samples(&[(0, true), (1, true)]))), ["sample 0", "sample 1"]);
    assert_eq!(stream.last_tick, 1);
    assert_eq!(stream.phase, StreamPhase::Sleep);
    assert!(stream.slept(false).is_empty());

    assert_eq!(describe(&stream.run_polled(found(Some(true), false))), ["initial"]);
    assert!(stream.sent_initial);
    assert_eq!(describe(&stream.samples_polled(samples(&[(2, false), (3, true)]))), ["sample 1"]);
    assert_eq!(stream.last_tick, 3);
    stream.slept(false);

    assert!(stream.run_polled(found(Some(true), true)).is_empty());
    assert_eq!(describe(&stream.samples_polled(samples(&[]))), ["done"]);
    assert_eq!(stream.phase, StreamPhase::Closed);
    assert_eq!(stream.last_tick, 3);
}

#[test]
fn full_stream_tolerates_a_missing_run_and_reports_storage_failures() {
    let (mut stream, _) = RunStream::open(StreamKind::Full, 0);
    assert!(stream.run_polled(RunPoll::Missing).is_empty());
    assert_eq!(stream.phase, StreamPhase::PollSamples { terminal: false, done_encodes: false });
    let events = stream.samples_polled(SamplePoll::Failed("database is locked".to_string()));
    assert_eq!(describe(&events), ["error database is locked"]);
    assert_eq!(stream.phase, StreamPhase::Closed);

    let (mut other, _) = RunStream::open(StreamKind::Full, 0);
    assert_eq!(describe(&other.run_polled(RunPoll::Failed("gone".to_string()))), ["error gone"]);
    assert_eq!(other.phase, StreamPhase::Closed);
}

#[test]
fn demo_stream_with_no_lifetime_ends_at_once() {
    let (stream, events) = RunStream::open(StreamKind::Demo, 0);
    assert_eq!(describe(&events), ["error demo stream lifetime exceeded"]);
    assert_eq!(stream.phase, StreamPhase::Closed);
}

#[test]
fn demo_stream_fails_closed_with_fixed_messages() {
    let (mut stream, events) = RunStream::open(StreamKind::Demo, 900);
    assert!(events.is_empty());
    assert_eq!(describe(&stream.run_polled(RunPoll::Missing)), ["error demo run is no longer available"]);

    let (mut stream, _) = RunStream::open(StreamKind::Demo, 900);
    assert_eq!(describe(&stream.run_polled(RunPoll::Failed("secret".to_string()))), ["error demo stream unavailable"]);

    let (mut stream, _) = RunStream::open(StreamKind::Demo, 900);
    assert_eq!(describe(&stream.run_polled(RunPoll::TimedOut)), ["error demo stream lifetime exceeded"]);

    let (mut stream, _) = RunStream::open(StreamKind::Demo, 900);
    assert_eq!(describe(&stream.run_polled(found(Some(false), false))), ["error demo stream unavailable"]);
    assert_eq!(stream.phase, StreamPhase::Closed);

    let (mut stream, _) = RunStream::open(StreamKind::Demo, 900);
    stream.run_polled(found(Some(true), false));
    let events = stream.samples_polled(samples(&[(0, true), (1, false), (2, true)]));
    assert_eq!(describe(&events), ["sample 0", "error demo stream unavailable"]);
    assert_eq!(stream.last_tick, 1);
    assert_eq!(stream.phase, StreamPhase::Closed);

    let (mut stream, _) = RunStream::open(StreamKind::Demo, 900);
    stream.run_polled(found(None, false));
    stream.samples_polled(samples(&[]));
    assert_eq!(describe(&stream.slept(true)), ["error demo stream lifetime exceeded"]);

    let (mut stream, _) = RunStream::open(StreamKind::Demo, 900);
    stream.run_polled(RunPoll::Found { initial: None, terminal: true, done_encodes: false });
    assert_eq!(describe(&stream.samples_polled(samples(&[(0, true)]))), ["sample 0", "error demo stream unavailable"]);
}

#[test]
fn initial_readings_are_sent_only_once() {
    let (mut stream, _) = RunStream::open(StreamKind::Demo, 900);
    assert_eq!(describe(&stream.run_polled(found(Some(true), false))), ["initial"]);
    stream.samples_polled(samples(&[]));
    stream.slept(false);
    assert!(stream.run_polled(found(Some(true), false)).is_empty());
    assert!(stream.sent_initial);
}

#[test]
fn stream_error_texts() {
    assert_eq!(StreamError::LifetimeExceeded.text(), "demo stream lifetime exceeded");
    assert_eq!(StreamError::RunUnavailable.text(), "demo run is no longer available");
    assert_eq!(StreamError::Unavailable.text(), "demo stream unavailable");
    assert_eq!(StreamError::Failed("x".to_string()).text(), "x");
}

#[test]
fn spa_fallback_serves_files_client_routes_and_real_404s() {
    assert_eq!(asset_path("/assets/index-abc.js"), "assets/index-abc.js");
    assert_eq!(asset_path("///x"), "x");
    assert_eq!(asset_path("/"), "");
    assert_eq!(static_target("", false, false, true), StaticTarget::NotBuilt);
    assert_eq!(static_target("", true, false, true), StaticTarget::Index);
    assert_eq!(static_target("assets/index-abc.js", true, true, true), StaticTarget::Asset);
    assert_eq!(static_target("assets/missing.js", true, false, true), StaticTarget::NotFound);
    assert_eq!(static_target("runs/1", true, false, true), StaticTarget::Index);
    assert_eq!(static_target("v1.2/runs", true, false, true), StaticTarget::Index);
    assert_eq!(static_target("runs/1", true, false, false), StaticTarget::NotFound);
    assert!(last_segment_has_dot("a/b.c"));
    assert!(!last_segment_has_dot("a.b/c"));
    assert!(!last_segment_has_dot(""));
    assert_eq!(cache_control(INDEX_HTML), "no-cache");
    assert_eq!(cache_control("assets/index-abc.js"), "public, max-age=31536000, immutable");
}

#[test]
fn streaming_an_unknown_run_returns_404() {
    let response = no_run(999).into_response_parts();
    assert_eq!(response.status, 404);
    assert_eq!(response.body.error, "no run with id 999");
    assert!(matches!(no_run(999), ApiError::NotFound(_)));
}

#[test]
fn streaming_a_completed_run_replays_every_sample_then_emits_done() {
    let (mut stream, events) = RunStream::open(StreamKind::Full, 0);
    assert!(events.is_empty());
    assert!(stream.run_polled(found(None, true)).is_empty());
    let events = describe(&stream.samples_polled(samples(&[(0, true), (1, true)])));
    assert_eq!(events, ["sample 0", "sample 1", "done"]);
    assert_eq!(stream.phase, StreamPhase::Closed);
}

#[test]
fn streaming_emits_initial_readings_before_replayed_samples() {
    let (mut stream, _) = RunStream::open(StreamKind::Full, 0);
    let mut events = describe(&stream.run_polled(found(Some(true), true)));
    events.extend(describe(&stream.samples_polled(samples(&[(0, true)]))));
    assert_eq!(events, ["initial", "sample 0", "done"]);
}

#[test]
fn streaming_a_run_with_no_samples_still_terminates_with_done() {
    let (mut stream, _) = RunStream::open(StreamKind::Full, 0);
    let mut events = describe(&stream.run_polled(found(None, true)));
    events.extend(describe(&stream.samples_polled(samples(&[]))));
    assert_eq!(events, ["done"]);
    assert_eq!(stream.phase, StreamPhase::Closed);
}

#[test]
fn streaming_a_still_running_run_waits_for_it_to_finish_before_closing() {
    let (mut stream, _) = RunStream::open(StreamKind::Full, 0);
    let mut events = describe(&stream.run_polled(found(None, false)));
    events.extend(describe(&stream.samples_polled(samples(&[(0, true)]))));
    assert_eq!(stream.phase, StreamPhase::Sleep);
    events.extend(describe(&stream.slept(false)));
    events.extend(describe(&stream.run_polled(found(None, true))));
    events.extend(describe(&stream.samples_polled(samples(&[]))));
    assert_eq!(events, ["sample 0", "done"]);
    assert_eq!(stream.phase, StreamPhase::Closed);
}

#[test]
fn reports_a_clear_503_when_the_built_state_is_unavailable() {
    let path = asset_path("/");
    assert_eq!(static_target(&path, false, false, false), StaticTarget::NotBuilt);
    assert_eq!(static_target(&path, false, false, true), StaticTarget::NotBuilt);
    assert!(NOT_BUILT_MESSAGE.contains("pnpm run build"));
}

#[test]
fn root_serves_index_html_with_no_cache() {
    let path = asset_path("/");
    assert_eq!(static_target(&path, true, false, true), StaticTarget::Index);
    assert_eq!(cache_control(INDEX_HTML), "no-cache");
}

#[test]
fn an_unknown_client_side_route_falls_back_to_index_html() {
    let path = asset_path("/runs/1");
    assert_eq!(static_target(&path, true, false, true), StaticTarget::Index);
}

#[test]
fn a_real_embedded_asset_is_served_with_a_long_lived_cache_header() {
    let path = asset_path("/assets/app.js");
    assert_eq!(static_target(&path, true, true, true), StaticTarget::Asset);
    assert_eq!(cache_control(&path), "public, max-age=31536000, immutable");
}

#[test]
fn a_missing_path_with_a_file_extension_is_a_real_404() {
    let path = asset_path("/assets/does-not-exist.js");
    assert_eq!(static_target(&path, true, false, true), StaticTarget::NotFound);
}

#[test]
fn a_client_route_returns_404_when_the_spa_entry_point_is_missing() {
    let path = asset_path("/runs/1");
    assert_eq!(static_target(&path, true, false, false), StaticTarget::NotFound);
}
