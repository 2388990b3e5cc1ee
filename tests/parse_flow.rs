use nft_metadata_crawler_parser::{
    Action, Event, JsonOutput, Lookup, MediaOutput, ParserConfig, Phase, Stored, Timestamp,
    UriRecord, Worker,
};

fn config(num_parsers: usize) -> ParserConfig {
    ParserConfig {
        google_application_credentials: "creds.json".to_string(),
        bucket: "bucket".to_string(),
        subscription_name: "sub".to_string(),
        database_url: "postgres://db".to_string(),
        cdn_prefix: "https://cdn/".to_string(),
        ipfs_prefix: "https://ipfs/".to_string(),
        num_parsers,
        max_file_size_bytes: 5_000_000,
        image_quality: 80,
    }
}

fn worker(token_data_id: &str, token_uri: &str, force: bool) -> Worker {
    Worker::new(
        config(2),
        token_data_id.to_string(),
        token_uri.to_string(),
        7,
        Timestamp { secs: 1_682_942_400, nanos: 0 },
        force,
        5_000_000,
        80,
    )
}

/// Canned answers of the outside world for one run.
struct World {
    stored: Option<UriRecord>,
    token_read_fails: bool,
    image_lookup: Lookup,
    animation_lookup: Lookup,
    json: Option<(Option<&'static str>, Option<&'static str>, bool)>,
    json_upload: Option<&'static str>,
    image: Option<Vec<u8>>,
    image_upload: Option<&'static str>,
}

fn happy_world() -> World {
    World {
        stored: None,
        token_read_fails: false,
        image_lookup: Lookup::Missing,
        animation_lookup: Lookup::Missing,
        json: Some((Some("ipfs://img1"), None, true)),
        json_upload: Some("gcs://t1.json"),
        image: Some(vec![1, 2, 3]),
        image_upload: Some("gcs://t1.png"),
    }
}

/// What was asked of the outside world, in order.
struct Trace {
    kinds: Vec<&'static str>,
    uris: Vec<String>,
    last_upsert: Option<UriRecord>,
}

fn drive(w: &mut Worker, world: &World) -> Trace {
    let mut trace = Trace { kinds: Vec::new(), uris: Vec::new(), last_upsert: None };
    let mut event = Event::Begin;
    for _ in 0..64 {
        let action = w.parse(event).expect("the worker accepts the answer it asked for");
        event = match action {
            Action::FindByTokenUri(u) => {
                trace.kinds.push("find_token");
                trace.uris.push(u);
                Event::Read(if world.token_read_fails {
                    Stored::Failed
                } else {
                    match &world.stored {
                        Some(r) => Stored::Found(r.duplicate()),
                        None => Stored::Missing,
                    }
                })
            }
            Action::FindByRawImageUri(u) => {
                trace.kinds.push("find_image");
                trace.uris.push(u);
                Event::Looked(world.image_lookup)
            }
            Action::FindByRawAnimationUri(u) => {
                trace.kinds.push("find_animation");
                trace.uris.push(u);
                Event::Looked(world.animation_lookup)
            }
            Action::ResolveUri(u) => {
                trace.kinds.push("resolve");
                trace.uris.push(u);
                Event::Resolved(None)
            }
            Action::FetchJson { uri, .. } => {
                trace.kinds.push("fetch_json");
                trace.uris.push(uri);
                Event::JsonParsed(world.json.map(|(img, anim, present)| JsonOutput {
                    raw_image_uri: img.map(|s| s.to_string()),
                    raw_animation_uri: anim.map(|s| s.to_string()),
                    json: if present {
                        Some(serde_json::from_str("{\"image\":\"ipfs://img1\"}").unwrap())
                    } else {
                        None
                    },
                }))
            }
            Action::WriteJson { token_data_id, .. } => {
                trace.kinds.push("write_json");
                trace.uris.push(token_data_id);
                Event::Uploaded(world.json_upload.map(|s| s.to_string()))
            }
            Action::Optimize { uri, .. } => {
                trace.kinds.push("optimize");
                trace.uris.push(uri);
                Event::Optimized(world.image.clone().map(|bytes| MediaOutput {
                    bytes,
                    format: image::ImageFormat::Png,
                }))
            }
            Action::WriteImage { token_data_id, .. } => {
                trace.kinds.push("write_image");
                trace.uris.push(token_data_id);
                Event::Uploaded(world.image_upload.map(|s| s.to_string()))
            }
            Action::Upsert(r) => {
                trace.kinds.push("upsert");
                trace.uris.push(r.token_uri.clone());
                trace.last_upsert = Some(r);
                Event::Committed
            }
            Action::Done => {
                trace.kinds.push("done");
                return trace;
            }
        };
    }
    panic!("the parse did not finish");
}

fn count(trace: &Trace, kind: &str) -> usize {
    trace.kinds.iter().filter(|k| **k == kind).count()
}

#[test]
fn scenario_a_first_sight_of_token() {
    let mut w = worker("t1", "ipfs://abc", false);
    let trace = drive(&mut w, &happy_world());
    let r = w.record();
    assert_eq!(r.token_uri, "ipfs://abc");
    assert_eq!(r.cdn_json_uri.as_deref(), Some("gcs://t1.json"));
    assert_eq!(r.raw_image_uri.as_deref(), Some("ipfs://img1"));
    assert_eq!(r.json_parser_retry_count, 0);
    assert_eq!(r.cdn_image_uri.as_deref(), Some("gcs://t1.png"));
    assert_eq!(w.phase(), Phase::Finished);
    assert_eq!(
        trace.kinds,
        vec![
            "find_token", "resolve", "fetch_json", "write_json", "upsert", "find_image",
            "resolve", "optimize", "write_image", "upsert", "done"
        ]
    );
    assert_eq!(trace.uris[0], "ipfs://abc");
    assert_eq!(trace.uris[2], "ipfs://abc");
    assert_eq!(trace.uris[5], "ipfs://img1");
    assert_eq!(trace.uris[7], "ipfs://img1");
}

#[test]
fn scenario_b_json_timeout() {
    let mut w = worker("t1", "ipfs://abc", false);
    let world = World { json: None, ..happy_world() };
    let trace = drive(&mut w, &world);
    let r = w.record();
    assert_eq!(r.cdn_json_uri, None);
    assert_eq!(r.json_parser_retry_count, 1);
    assert_eq!(count(&trace, "write_json"), 0);
    assert_eq!(count(&trace, "find_image"), 0);
    // the image stage runs on the token URI
    let opt = trace.kinds.iter().position(|k| *k == "optimize").unwrap();
    assert_eq!(trace.uris[opt], "ipfs://abc");
}

#[test]
fn known_token_skips_json_fetch_and_upload() {
    let mut w = worker("t1", "ipfs://abc", false);
    let world = World { stored: Some(stored_record()), ..happy_world() };
    let trace = drive(&mut w, &world);
    assert_eq!(count(&trace, "fetch_json"), 0);
    assert_eq!(count(&trace, "write_json"), 0);
    // the run goes on from the stored record and keeps what it holds
    let r = trace.last_upsert.unwrap();
    assert_eq!(r.cdn_json_uri.as_deref(), Some("gcs://old.json"));
    assert_eq!(r.json_parser_retry_count, 3);
    assert_eq!(r.animation_optimizer_retry_count, 2);
    assert_eq!(r.raw_image_uri.as_deref(), Some("ipfs://img0"));
    assert_eq!(r.token_uri, "ipfs://abc");
}

fn stored_record() -> UriRecord {
    let mut r = UriRecord::new("ipfs://abc".to_string());
    r.raw_image_uri = Some("ipfs://img0".to_string());
    r.cdn_json_uri = Some("gcs://old.json".to_string());
    r.cdn_image_uri = Some("gcs://old.png".to_string());
    r.json_parser_retry_count = 3;
    r.image_optimizer_retry_count = 1;
    r.animation_optimizer_retry_count = 2;
    r
}

#[test]
fn failures_never_lower_stored_counters_or_drop_cdn_uris() {
    let mut w = worker("t1", "ipfs://abc", true);
    let world = World {
        stored: Some(stored_record()),
        json: None,
        image: None,
        ..happy_world()
    };
    let trace = drive(&mut w, &world);
    assert_eq!(count(&trace, "fetch_json"), 1);
    // the failed fetch leaves no raw URI, so the image stage works on the token URI
    let opt = trace.kinds.iter().position(|k| *k == "optimize").unwrap();
    assert_eq!(trace.uris[opt], "ipfs://abc");
    let r = w.record();
    assert_eq!(r.raw_image_uri, None);
    assert_eq!(r.json_parser_retry_count, 4);
    assert_eq!(r.image_optimizer_retry_count, 2);
    assert_eq!(r.animation_optimizer_retry_count, 2);
    assert_eq!(r.cdn_json_uri.as_deref(), Some("gcs://old.json"));
    assert_eq!(r.cdn_image_uri.as_deref(), Some("gcs://old.png"));
}

#[test]
fn failed_token_read_skips_only_the_json_stage() {
    let mut w = worker("t1", "ipfs://abc", false);
    let world = World { token_read_fails: true, ..happy_world() };
    let trace = drive(&mut w, &world);
    assert_eq!(
        trace.kinds,
        vec!["find_token", "resolve", "optimize", "write_image", "upsert", "done"]
    );
    assert_eq!(trace.uris[1], "ipfs://abc");
}

#[test]
fn failed_token_read_under_force_runs_every_stage() {
    let mut w = worker("t1", "ipfs://abc", true);
    let world = World {
        token_read_fails: true,
        json: Some((Some("ipfs://img1"), Some("ipfs://anim1"), true)),
        ..happy_world()
    };
    let trace = drive(&mut w, &world);
    assert_eq!(count(&trace, "fetch_json"), 1);
    assert_eq!(count(&trace, "optimize"), 2);
    assert_eq!(count(&trace, "upsert"), 3);
}

#[test]
fn forced_run_does_all_stages_without_lookups() {
    let mut w = worker("t1", "ipfs://abc", true);
    let world = World {
        stored: Some(stored_record()),
        image_lookup: Lookup::Found,
        animation_lookup: Lookup::Found,
        json: Some((Some("ipfs://img1"), Some("ipfs://anim1"), true)),
        ..happy_world()
    };
    let trace = drive(&mut w, &world);
    assert_eq!(count(&trace, "find_token"), 1);
    assert_eq!(count(&trace, "find_image"), 0);
    assert_eq!(count(&trace, "find_animation"), 0);
    assert_eq!(count(&trace, "fetch_json"), 1);
    assert_eq!(count(&trace, "optimize"), 2);
    assert_eq!(count(&trace, "upsert"), 3);
    assert_eq!(w.record().cdn_animation_uri.as_deref(), Some("gcs://t1.png"));
}

#[test]
fn forced_runs_are_repeatable() {
    let world = World { json: Some((Some("ipfs://img1"), Some("ipfs://anim1"), true)), ..happy_world() };
    let mut first = worker("t1", "ipfs://abc", true);
    let mut second = worker("t1", "ipfs://abc", true);
    let trace = drive(&mut first, &world);
    let world = World { stored: trace.last_upsert, ..world };
    drive(&mut second, &world);
    assert_eq!(first.record().cdn_json_uri, second.record().cdn_json_uri);
    assert_eq!(first.record().cdn_image_uri, second.record().cdn_image_uri);
    assert_eq!(first.record().cdn_animation_uri, second.record().cdn_animation_uri);
    assert_eq!(first.record().cdn_json_uri.as_deref(), Some("gcs://t1.json"));
}

#[test]
fn json_failure_counts_one_per_run() {
    let mut stored: Option<UriRecord> = None;
    for run in 1..=3u64 {
        let world = World { json: None, stored, ..happy_world() };
        let mut w = worker("t1", "ipfs://abc", true);
        let trace = drive(&mut w, &world);
        assert_eq!(w.record().json_parser_retry_count, run);
        let upserted = trace.last_upsert.unwrap();
        assert_eq!(upserted.json_parser_retry_count, run);
        stored = Some(upserted);
    }
}

#[test]
fn animation_found_in_store_is_skipped() {
    let mut w = worker("t1", "ipfs://abc", false);
    let world = World {
        json: Some((Some("ipfs://img1"), Some("ipfs://anim1"), true)),
        animation_lookup: Lookup::Found,
        ..happy_world()
    };
    let trace = drive(&mut w, &world);
    assert_eq!(count(&trace, "find_animation"), 1);
    assert_eq!(count(&trace, "optimize"), 1);
    assert_eq!(count(&trace, "write_image"), 1);
    assert_eq!(count(&trace, "upsert"), 2);
}

#[test]
fn animation_lookup_failure_still_optimizes() {
    let mut w = worker("t1", "ipfs://abc", false);
    let world = World {
        json: Some((Some("ipfs://img1"), Some("ipfs://anim1"), true)),
        animation_lookup: Lookup::Failed,
        ..happy_world()
    };
    let trace = drive(&mut w, &world);
    assert_eq!(count(&trace, "optimize"), 2);
    let last_opt = trace.kinds.iter().rposition(|k| *k == "optimize").unwrap();
    assert_eq!(trace.uris[last_opt], "ipfs://anim1");
    assert_eq!(w.record().cdn_animation_uri.as_deref(), Some("gcs://t1.png"));
}

#[test]
fn image_failure_still_acknowledged_once() {
    let mut w = worker("t1", "ipfs://abc", false);
    let world = World { image: None, ..happy_world() };
    let trace = drive(&mut w, &world);
    assert_eq!(count(&trace, "done"), 1);
    assert_eq!(w.record().image_optimizer_retry_count, 1);
    assert_eq!(w.record().cdn_image_uri, None);
    assert_eq!(count(&trace, "write_image"), 0);
    assert!(w.parse(Event::Committed).is_none());
    assert!(w.parse(Event::Begin).is_none());
}

#[test]
fn empty_image_is_not_uploaded() {
    let mut w = worker("t1", "ipfs://abc", false);
    let world = World { image: Some(vec![]), ..happy_world() };
    let trace = drive(&mut w, &world);
    assert_eq!(count(&trace, "write_image"), 0);
    assert_eq!(w.record().image_optimizer_retry_count, 0);
}

#[test]
fn null_json_is_not_uploaded() {
    let mut w = worker("t1", "ipfs://abc", false);
    let world = World { json: Some((None, None, false)), ..happy_world() };
    let trace = drive(&mut w, &world);
    assert_eq!(count(&trace, "write_json"), 0);
    assert_eq!(w.record().cdn_json_uri, None);
    assert_eq!(w.record().json_parser_retry_count, 0);
}

#[test]
fn failed_upload_leaves_cdn_uri_empty() {
    let mut w = worker("t1", "ipfs://abc", false);
    let world = World { json_upload: None, image_upload: None, ..happy_world() };
    drive(&mut w, &world);
    assert_eq!(w.record().cdn_json_uri, None);
    assert_eq!(w.record().cdn_image_uri, None);
}

#[test]
fn resolved_uri_is_used_for_the_fetch() {
    let mut w = worker("t1", "ipfs://abc", true);
    match w.parse(Event::Begin) {
        Some(Action::FindByTokenUri(u)) => assert_eq!(u, "ipfs://abc"),
        _ => panic!("expected a token read"),
    }
    match w.parse(Event::Read(Stored::Missing)) {
        Some(Action::ResolveUri(u)) => assert_eq!(u, "ipfs://abc"),
        _ => panic!("expected a resolve"),
    }
    match w.parse(Event::Resolved(Some("https://gateway/abc".to_string()))) {
        Some(Action::FetchJson { uri, max_file_size_bytes }) => {
            assert_eq!(uri, "https://gateway/abc");
            assert_eq!(max_file_size_bytes, 5_000_000);
        }
        _ => panic!("expected a fetch"),
    }
}

#[test]
fn event_out_of_turn_is_refused() {
    let mut w = worker("t1", "ipfs://abc", false);
    assert!(w.parse(Event::Committed).is_none());
    assert_eq!(w.phase(), Phase::Start);
    assert!(w.parse(Event::Begin).is_some());
    assert_eq!(w.phase(), Phase::Lookup(nft_metadata_crawler_parser::Stage::Json));
    assert!(w.parse(Event::Resolved(None)).is_none());
    assert!(w.parse(Event::Looked(Lookup::Missing)).is_none());
}

#[test]
fn worker_keeps_its_provenance() {
    let w = worker("t1", "ipfs://abc", false);
    assert_eq!(w.token_data_id(), "t1");
    assert_eq!(w.last_transaction_version(), 7);
    assert_eq!(w.last_transaction_timestamp(), Timestamp { secs: 1_682_942_400, nanos: 0 });
    assert_eq!(w.record().json_parser_retry_count, 0);
}

#[test]
fn queue_holds_two_entries_per_worker_and_blocks_the_fifth() {
    let cfg = config(2);
    let cap = cfg.queue_capacity().unwrap();
    assert_eq!(cap, 4);
    let (sender, receiver) = crossbeam_channel::bounded::<u32>(cap);
    for i in 0..4 {
        sender.try_send(i).unwrap();
    }
    match sender.try_send(4) {
        Err(crossbeam_channel::TrySendError::Full(item)) => assert_eq!(item, 4),
        _ => panic!("a full queue must refuse the fifth entry"),
    }
    assert_eq!(receiver.recv().unwrap(), 0);
    sender.try_send(4).unwrap();
    let drained: Vec<u32> = receiver.try_iter().collect();
    assert_eq!(drained, vec![1, 2, 3, 4]);
}

#[test]
fn queue_capacity_overflow_is_none() {
    assert_eq!(config(usize::MAX).queue_capacity(), None);
    assert_eq!(config(0).queue_capacity(), Some(0));
}

#[test]
fn server_name_is_parser() {
    assert_eq!(config(1).get_server_name(), "parser");
}

#[test]
fn record_copy_is_equal() {
    let mut r = UriRecord::new("ipfs://abc".to_string());
    r.cdn_image_uri = Some("gcs://x".to_string());
    r.image_optimizer_retry_count = 3;
    let c = r.duplicate();
    assert_eq!(c.cdn_image_uri.as_deref(), Some("gcs://x"));
    assert_eq!(c.image_optimizer_retry_count, 3);
    assert_eq!(c.token_uri, "ipfs://abc");
}
