use std::collections::HashMap;

use tg_image_hosting::d1::D1;
use tg_image_hosting::error::{Error, ErrorKind};
use tg_image_hosting::file::{File, Message, PhotoSize};
use tg_image_hosting::handler::{
    blob_key_of, DownloadAction, DownloadEvent, DownloadState, Handler, Upstream,
};
use tg_image_hosting::tg::{
    HandleAction, HandleEvent, HandleState, ResolveAction, ResolveEvent, TgBot, UpdateContent,
};

const HOST: &str = "files.example.com";
const YEAR: &str = "public, max-age=31536000";

/// Everything outside the library, held in memory, with a count of every
/// call that reaches it.
struct World {
    store: D1,
    /// Alias to the answer of the platform when it is asked for a path.
    platform: HashMap<String, Result<Option<String>, Error>>,
    /// Download URL to status, whether the body streams, and the body.
    upstream: HashMap<String, (u16, bool, Vec<u8>)>,
    blobs: HashMap<String, Vec<u8>>,
    cache: HashMap<String, Vec<u8>>,
    cache_fails: bool,
    cache_checks: usize,
    lookups: usize,
    blob_checks: usize,
    path_requests: usize,
    path_updates: usize,
    fetches: usize,
    clock: i64,
}

impl World {
    fn new() -> World {
        World {
            store: D1::new(),
            platform: HashMap::new(),
            upstream: HashMap::new(),
            blobs: HashMap::new(),
            cache: HashMap::new(),
            cache_fails: false,
            cache_checks: 0,
            lookups: 0,
            blob_checks: 0,
            path_requests: 0,
            path_updates: 0,
            fetches: 0,
            clock: 1_700_000_000,
        }
    }

    fn reset_counts(&mut self) {
        self.cache_checks = 0;
        self.lookups = 0;
        self.blob_checks = 0;
        self.path_requests = 0;
        self.path_updates = 0;
        self.fetches = 0;
    }

    fn resolver(&mut self, action: ResolveAction) -> ResolveEvent {
        match action {
            ResolveAction::Lookup { key } => {
                self.lookups += 1;
                ResolveEvent::Found(self.store.get(&key))
            }
            ResolveAction::GetPath { file_id } => {
                self.path_requests += 1;
                ResolveEvent::Path(self.platform.get(&file_id).cloned().unwrap_or(Ok(None)))
            }
            ResolveAction::SavePath { file_unique_id, file_path } => {
                self.path_updates += 1;
                ResolveEvent::Saved(self.store.save_file_path(&file_unique_id, &file_path))
            }
            ResolveAction::Finish(outcome) => panic!("the pipeline handed on {:?}", outcome),
        }
    }
}

fn handler(r2: bool) -> Handler {
    Handler::new(HOST.to_string(), r2, TgBot::new(1, "TOKEN".to_string()))
}

fn download_url(path: &str) -> String {
    format!("https://api.telegram.org/file/botTOKEN/{}", path)
}

fn record(unique: &str, alias: &str, path: &str) -> File {
    File {
        file_id: alias.to_string(),
        file_unique_id: unique.to_string(),
        thumbnail_file_id: String::new(),
        thumbnail_file_unique_id: String::new(),
        message_id: 1,
        user_id: 2,
        file_name: String::new(),
        file_size: 3,
        mime_type: String::new(),
        add_time: 0,
        update_time: 0,
        file_path: path.to_string(),
    }
}

/// A stream of content: its bytes, and where it came from.
#[derive(Clone, Debug, PartialEq, Eq)]
struct Stream {
    bytes: Vec<u8>,
    origin: &'static str,
}

/// A response of the edge cache: the bytes that it carries.
#[derive(Clone, Debug, PartialEq, Eq)]
struct Cached(Vec<u8>);

type Event = DownloadEvent<Stream, Cached>;
type Action = DownloadAction<Stream, Cached>;

fn begin(handler: &Handler, name: &str) -> (DownloadState, Action) {
    handler.download(DownloadState::Start, Event::Request { file_name: Some(name.to_string()) })
}

/// Serves one request against the world, as an application would.
fn serve(world: &mut World, handler: &Handler, name: &str) -> Result<Vec<u8>, Error> {
    let mut text = String::new();
    let (mut state, mut action) = begin(handler, name);
    loop {
        let event = match action {
            DownloadAction::CheckCache { url } => {
                world.cache_checks += 1;
                if world.cache_fails {
                    DownloadEvent::Cached(Err(Error::new(ErrorKind::Other, "cache is down")))
                } else {
                    DownloadEvent::Cached(Ok(world.cache.get(&url).cloned().map(Cached)))
                }
            }
            DownloadAction::Resolver(request) => DownloadEvent::Resolver(world.resolver(request)),
            DownloadAction::CheckBlob { key } => {
                world.blob_checks += 1;
                DownloadEvent::Stored(
                    world.blobs.get(&key).cloned().map(|bytes| Stream { bytes, origin: "blob store" }),
                )
            }
            DownloadAction::Fetch { url, ttl_status, ttl_seconds } => {
                assert_eq!(ttl_status, "200-299");
                assert_eq!(ttl_seconds, 31536000);
                world.fetches += 1;
                match world.upstream.get(&url) {
                    Some((status, streamable, content)) => {
                        text = String::from_utf8_lossy(content).to_string();
                        let body = if *streamable {
                            Some(Stream { bytes: content.clone(), origin: "download" })
                        } else {
                            None
                        };
                        DownloadEvent::Upstream(Ok(Upstream { status: *status, body }))
                    }
                    None => DownloadEvent::Upstream(Ok(Upstream { status: 404, body: None })),
                }
            }
            DownloadAction::ReadText => DownloadEvent::Text(Ok(text.clone())),
            DownloadAction::ServeCached(Cached(bytes)) => {
                assert_eq!(state, DownloadState::Done);
                return Ok(bytes);
            }
            DownloadAction::Serve { body, blob_key, cache_url, cache_control } => {
                assert_eq!(state, DownloadState::Done);
                assert_eq!(cache_control, YEAR);
                assert_eq!(body.origin == "blob store", blob_key.is_none() && handler.r2);
                if let Some(key) = blob_key {
                    world.blobs.insert(key, body.bytes.clone());
                }
                world.cache.insert(cache_url, body.bytes.clone());
                return Ok(body.bytes);
            }
            DownloadAction::Fail(e) => {
                assert_eq!(state, DownloadState::Done);
                return Err(e);
            }
        };
        (state, action) = handler.download(state, event);
    }
}

/// Handles one inbound update against the world, as an application would.
fn ingest(world: &mut World, bot: &TgBot, content: UpdateContent) -> (Result<(), Error>, Vec<String>) {
    let mut replies = Vec::new();
    let (mut state, mut action) = bot.handle(HOST, HandleState::Start, HandleEvent::Update(content));
    loop {
        let event = match action {
            HandleAction::GetPath { file_id } => {
                world.path_requests += 1;
                HandleEvent::Path(world.platform.get(&file_id).cloned().unwrap_or(Ok(None)))
            }
            HandleAction::Save { files } => {
                world.clock += 1;
                HandleEvent::Saved(world.store.save(&files, world.clock))
            }
            HandleAction::Send(reply) => {
                replies.push(reply.text);
                HandleEvent::Sent(Ok(()))
            }
            HandleAction::Finish(outcome) => return (outcome, replies),
        };
        (state, action) = bot.handle(HOST, state, event);
    }
}

fn world_with(path: &str) -> World {
    let mut w = World::new();
    w.store.save(&vec![record("AQADu1", "AgAD1", path)], 1).unwrap();
    w
}

#[test]
fn cold_request_is_fetched_once_and_kept_in_both_tiers() {
    let mut w = world_with("photos/file_1.jpg");
    w.upstream.insert(download_url("photos/file_1.jpg"), (200, true, b"image bytes".to_vec()));
    let h = handler(true);
    assert_eq!(serve(&mut w, &h, "AQADu1.jpg"), Ok(b"image bytes".to_vec()));
    assert_eq!((w.cache_checks, w.lookups, w.blob_checks, w.path_requests, w.path_updates, w.fetches), (1, 1, 1, 0, 0, 1));
    assert_eq!(w.blobs.get("AQADu1.jpg"), Some(&b"image bytes".to_vec()));
    assert_eq!(w.cache.get("https://files.example.com/f/AQADu1.jpg"), Some(&b"image bytes".to_vec()));
}

#[test]
fn caller_and_blob_store_see_the_same_bytes() {
    let mut w = world_with("photos/file_1.jpg");
    let content: Vec<u8> = (0..=255u8).cycle().take(10_000).collect();
    w.upstream.insert(download_url("photos/file_1.jpg"), (200, true, content.clone()));
    let served = serve(&mut w, &handler(true), "AgAD1.jpg").unwrap();
    assert_eq!(served, content);
    assert_eq!(w.blobs.get("AQADu1.jpg"), Some(&served));
    assert_eq!(w.cache.get("https://files.example.com/f/AgAD1.jpg"), Some(&served));
}

#[test]
fn edge_cache_hit_bypasses_everything_else() {
    let mut w = world_with("photos/file_1.jpg");
    w.cache.insert("https://files.example.com/f/AQADu1.jpg".to_string(), b"cached".to_vec());
    assert_eq!(serve(&mut w, &handler(true), "AQADu1.jpg"), Ok(b"cached".to_vec()));
    assert_eq!((w.cache_checks, w.lookups, w.blob_checks, w.path_requests, w.path_updates, w.fetches), (1, 0, 0, 0, 0, 0));
}

#[test]
fn edge_cache_that_fails_counts_as_empty() {
    let mut w = world_with("photos/file_1.jpg");
    w.cache_fails = true;
    w.upstream.insert(download_url("photos/file_1.jpg"), (200, true, b"x".to_vec()));
    assert_eq!(serve(&mut w, &handler(false), "AQADu1.jpg"), Ok(b"x".to_vec()));
    assert_eq!(w.fetches, 1);
}

#[test]
fn blob_store_hit_asks_neither_the_platform_nor_the_download_location() {
    let mut w = world_with("photos/file_1.jpg");
    w.blobs.insert("AQADu1.jpg".to_string(), b"from the blob store".to_vec());
    assert_eq!(serve(&mut w, &handler(true), "AQADu1.jpg"), Ok(b"from the blob store".to_vec()));
    assert_eq!((w.path_requests, w.path_updates, w.fetches), (0, 0, 0));
    assert_eq!((w.cache_checks, w.lookups, w.blob_checks), (1, 1, 1));
    assert_eq!(w.blobs.len(), 1);
    assert_eq!(w.cache.get("https://files.example.com/f/AQADu1.jpg"), Some(&b"from the blob store".to_vec()));
}

#[test]
fn blob_store_hit_by_alias_and_with_another_extension() {
    let mut w = world_with("photos/file_1.jpg");
    w.blobs.insert("AQADu1.jpg".to_string(), b"blob".to_vec());
    assert_eq!(serve(&mut w, &handler(true), "AgAD1.png"), Ok(b"blob".to_vec()));
    assert_eq!(serve(&mut w, &handler(true), "AgAD1"), Ok(b"blob".to_vec()));
    assert_eq!(w.fetches, 0);
    assert!(w.cache.contains_key("https://files.example.com/f/AgAD1.png"));
    assert!(w.cache.contains_key("https://files.example.com/f/AgAD1."));
}

#[test]
fn without_a_blob_store_nothing_is_asked_of_it() {
    let mut w = world_with("photos/file_1.jpg");
    w.blobs.insert("AQADu1.jpg".to_string(), b"never read".to_vec());
    w.upstream.insert(download_url("photos/file_1.jpg"), (200, true, b"fetched".to_vec()));
    assert_eq!(serve(&mut w, &handler(false), "AQADu1.jpg"), Ok(b"fetched".to_vec()));
    assert_eq!((w.blob_checks, w.fetches), (0, 1));
    assert_eq!(w.blobs.get("AQADu1.jpg"), Some(&b"never read".to_vec()));
}

#[test]
fn repeated_requests_return_the_same_bytes() {
    let mut w = world_with("photos/file_1.jpg");
    w.upstream.insert(download_url("photos/file_1.jpg"), (200, true, b"same".to_vec()));
    let h = handler(true);
    let first = serve(&mut w, &h, "AQADu1.jpg");
    w.cache.clear();
    let second = serve(&mut w, &h, "AQADu1.jpg");
    w.cache.clear();
    w.blobs.clear();
    let third = serve(&mut w, &h, "AQADu1.jpg");
    assert_eq!(first, Ok(b"same".to_vec()));
    assert_eq!(second, first);
    assert_eq!(third, first);
    assert_eq!(w.fetches, 2);
}

#[test]
fn unresolved_record_is_resolved_persisted_and_fetched() {
    let mut w = world_with("");
    w.platform.insert("AgAD1".to_string(), Ok(Some("photos/file_9.jpg".to_string())));
    w.upstream.insert(download_url("photos/file_9.jpg"), (200, true, b"nine".to_vec()));
    assert_eq!(serve(&mut w, &handler(true), "AQADu1.jpg"), Ok(b"nine".to_vec()));
    assert_eq!((w.lookups, w.path_requests, w.path_updates, w.fetches), (1, 1, 1, 1));
    assert_eq!(w.store.get(&"AQADu1".to_string()).unwrap().file_path, "photos/file_9.jpg");
    assert_eq!(w.blobs.get("AQADu1"), Some(&b"nine".to_vec()));
}

#[test]
fn stale_path_is_repaired_once() {
    let mut w = world_with("photos/stale.jpg");
    w.platform.insert("AgAD1".to_string(), Ok(Some("photos/fresh.jpg".to_string())));
    w.upstream.insert(download_url("photos/fresh.jpg"), (200, true, b"fresh bytes".to_vec()));
    assert_eq!(serve(&mut w, &handler(true), "AQADu1.jpg"), Ok(b"fresh bytes".to_vec()));
    assert_eq!((w.lookups, w.path_requests, w.path_updates, w.fetches), (2, 1, 1, 2));
    assert_eq!(w.store.get(&"AQADu1".to_string()).unwrap().file_path, "photos/fresh.jpg");
    assert_eq!(w.blobs.get("AQADu1.jpg"), Some(&b"fresh bytes".to_vec()));
}

#[test]
fn content_gone_from_the_fresh_path_too_is_not_found() {
    let mut w = world_with("photos/stale.jpg");
    w.platform.insert("AgAD1".to_string(), Ok(Some("photos/also-gone.jpg".to_string())));
    let r = serve(&mut w, &handler(true), "AQADu1.jpg");
    assert_eq!(r, Err(Error::new(ErrorKind::NotFound, "file not found")));
    assert_eq!((w.lookups, w.path_requests, w.path_updates, w.fetches), (2, 1, 1, 2));
    assert_eq!(w.store.get(&"AQADu1".to_string()).unwrap().file_path, "photos/also-gone.jpg");
    assert!(w.blobs.is_empty());
    assert!(w.cache.is_empty());
}

#[test]
fn repair_fails_when_the_platform_has_no_fresh_path() {
    let mut w = world_with("photos/stale.jpg");
    w.platform.insert("AgAD1".to_string(), Ok(None));
    let r = serve(&mut w, &handler(false), "AQADu1.jpg");
    assert_eq!(r, Err(Error::new(ErrorKind::PathUnavailable, "File path is empty")));
    assert_eq!((w.path_requests, w.path_updates, w.fetches), (1, 0, 1));
    assert_eq!(w.store.get(&"AQADu1".to_string()).unwrap().file_path, "photos/stale.jpg");
}

#[test]
fn unknown_key_is_not_found() {
    let mut w = world_with("photos/file_1.jpg");
    let r = serve(&mut w, &handler(true), "nobody.jpg");
    assert_eq!(r, Err(Error::new(ErrorKind::NotFound, "File not found")));
    assert_eq!(r.unwrap_err().status_code(), 404);
    assert_eq!((w.lookups, w.blob_checks, w.path_requests, w.fetches), (1, 0, 0, 0));
}

#[test]
fn empty_identifier_is_rejected_after_the_cache() {
    let mut w = world_with("photos/file_1.jpg");
    for name in ["", ".", "..", ".jpg"] {
        w.reset_counts();
        let r = serve(&mut w, &handler(true), name);
        if name == ".jpg" {
            assert_eq!(r, Err(Error::new(ErrorKind::NotFound, "File not found")));
            assert_eq!((w.cache_checks, w.lookups), (1, 1));
        } else {
            assert_eq!(r, Err(Error::new(ErrorKind::NotFound, "File id is empty")));
            assert_eq!((w.cache_checks, w.lookups), (1, 0));
        }
    }
}

#[test]
fn failed_download_quotes_status_and_body() {
    let mut w = world_with("photos/file_1.jpg");
    w.upstream.insert(download_url("photos/file_1.jpg"), (502, true, b"bad gateway".to_vec()));
    let r = serve(&mut w, &handler(true), "AQADu1.jpg");
    assert_eq!(
        r,
        Err(Error::new(ErrorKind::UpstreamTransport, "status code is not 200, but 502, bad gateway"))
    );
    assert_eq!(w.fetches, 1);
    assert!(w.blobs.is_empty());
}

#[test]
fn other_success_statuses_are_failures_too() {
    let mut w = world_with("photos/file_1.jpg");
    w.upstream.insert(download_url("photos/file_1.jpg"), (204, true, Vec::new()));
    let r = serve(&mut w, &handler(false), "AQADu1.jpg");
    assert_eq!(r, Err(Error::new(ErrorKind::UpstreamTransport, "status code is not 200, but 204, ")));
}

#[test]
fn body_that_does_not_stream_is_a_failure() {
    let mut w = world_with("photos/file_1.jpg");
    w.upstream.insert(download_url("photos/file_1.jpg"), (200, false, b"x".to_vec()));
    let r = serve(&mut w, &handler(true), "AQADu1.jpg");
    assert_eq!(r, Err(Error::new(ErrorKind::StreamCastFailure, "body is not streamable")));
    assert_eq!(r.unwrap_err().status_code(), 500);
    assert!(w.blobs.is_empty());
}

#[test]
fn transport_failures_are_surfaced_as_they_are() {
    let h = handler(true);
    let down = Error::new(ErrorKind::UpstreamTransport, "connection reset by peer");
    let fetching = DownloadState::Fetch {
        key: "AQADu1".to_string(),
        cache_url: "https://files.example.com/f/AQADu1.jpg".to_string(),
        blob_key: Some("AQADu1.jpg".to_string()),
        forced: false,
    };
    assert_eq!(
        h.download(fetching, Event::Upstream(Err(down.clone()))),
        (DownloadState::Done, Action::Fail(down.clone()))
    );
    assert_eq!(
        h.download(DownloadState::Text { status: 500 }, Event::Text(Err(down.clone()))),
        (DownloadState::Done, Action::Fail(down))
    );
}

#[test]
fn store_without_a_table_fails_the_request() {
    let mut w = World::new();
    let r = serve(&mut w, &handler(true), "AQADu1.jpg");
    assert_eq!(r, Err(Error::new(ErrorKind::SchemaMissing, "no such table: files")));
}

#[test]
fn download_rejects_events_nobody_asked_for() {
    let h = handler(true);
    let unexpected = || (DownloadState::Done, Action::Fail(Error::new(ErrorKind::Protocol, "unexpected event")));
    let cache = || DownloadState::Cache { key: "k".to_string(), cache_url: "u".to_string() };
    let lookup = || DownloadState::Lookup { key: "k".to_string(), cache_url: "u".to_string() };
    let held = || Some(Stream { bytes: vec![1], origin: "blob store" });
    assert_eq!(h.download(DownloadState::Start, Event::Stored(held())), unexpected());
    assert_eq!(h.download(cache(), Event::Stored(held())), unexpected());
    assert_eq!(h.download(lookup(), Event::Cached(Ok(Some(Cached(vec![1]))))), unexpected());
    assert_eq!(h.download(lookup(), Event::Resolver(ResolveEvent::Path(Ok(None)))), unexpected());
    assert_eq!(
        h.download(DownloadState::Done, Event::Request { file_name: Some("a.jpg".to_string()) }),
        unexpected()
    );
    assert_eq!(h.download(DownloadState::Text { status: 500 }, Event::Stored(None)), unexpected());
    let resolving = DownloadState::Resolve {
        key: "k".to_string(),
        cache_url: "u".to_string(),
        blob_key: None,
        forced: true,
        inner: tg_image_hosting::tg::ResolveState::Lookup { force_refresh: true },
    };
    assert_eq!(
        h.download(
            resolving,
            Event::Resolver(ResolveEvent::Request { key: "other".to_string(), force_refresh: false })
        ),
        unexpected()
    );
}

#[test]
fn blob_key_is_content_identifier_and_extension_of_the_path() {
    assert_eq!(blob_key_of(&record("AQADu1", "AgAD1", "photos/file_1.jpg")), "AQADu1.jpg");
    assert_eq!(blob_key_of(&record("AQADu1", "AgAD1", "documents/README")), "AQADu1");
    assert_eq!(blob_key_of(&record("AQADu1", "AgAD1", "")), "AQADu1");
}

#[test]
fn cache_url_is_rebuilt_from_the_parts_of_the_name() {
    let h = handler(true);
    let (state, action) = begin(&h, "AQADu1.jpg");
    assert_eq!(action, Action::CheckCache { url: "https://files.example.com/f/AQADu1.jpg".to_string() });
    assert_eq!(
        state,
        DownloadState::Cache {
            key: "AQADu1".to_string(),
            cache_url: "https://files.example.com/f/AQADu1.jpg".to_string()
        }
    );
    let (_, action) = begin(&h, "AQADu1");
    assert_eq!(action, Action::CheckCache { url: "https://files.example.com/f/AQADu1.".to_string() });
}

#[test]
fn credential_shows_up_in_the_download_url_only() {
    let mut w = world_with("photos/file_1.jpg");
    w.upstream.insert(download_url("photos/file_1.jpg"), (200, true, b"x".to_vec()));
    let h = handler(true);
    let mut seen_fetch = false;
    let (mut state, mut action) = begin(&h, "AQADu1.jpg");
    loop {
        let shown = format!("{:?} {:?}", state, action);
        let event = match action {
            DownloadAction::Fetch { url, .. } => {
                seen_fetch = true;
                assert_eq!(url, download_url("photos/file_1.jpg"));
                assert!(!format!("{:?}", state).contains("TOKEN"));
                let body = Some(Stream { bytes: vec![7], origin: "download" });
                DownloadEvent::Upstream(Ok(Upstream { status: 200, body }))
            }
            other => {
                assert!(!shown.contains("TOKEN"));
                match other {
                    DownloadAction::CheckCache { .. } => DownloadEvent::Cached(Ok(None)),
                    DownloadAction::Resolver(request) => DownloadEvent::Resolver(w.resolver(request)),
                    DownloadAction::CheckBlob { .. } => DownloadEvent::Stored(None),
                    _ => break,
                }
            }
        };
        (state, action) = h.download(state, event);
    }
    assert!(seen_fetch);
}

#[test]
fn request_without_a_name_is_not_found() {
    assert_eq!(
        handler(true).download(DownloadState::Start, Event::Request { file_name: None }),
        (DownloadState::Done, Action::Fail(Error::new(ErrorKind::NotFound, "file name is not found")))
    );
}

#[test]
fn the_stream_served_is_the_stream_of_the_last_download() {
    let h = handler(true);
    let fetching = |forced| DownloadState::Fetch {
        key: "AQADu1".to_string(),
        cache_url: "https://files.example.com/f/AQADu1.jpg".to_string(),
        blob_key: Some("AQADu1.jpg".to_string()),
        forced,
    };
    let second = Stream { bytes: b"second".to_vec(), origin: "download" };
    for forced in [false, true] {
        assert_eq!(
            h.download(fetching(forced), Event::Upstream(Ok(Upstream { status: 200, body: Some(second.clone()) }))),
            (
                DownloadState::Done,
                Action::Serve {
                    body: second.clone(),
                    blob_key: Some("AQADu1.jpg".to_string()),
                    cache_url: "https://files.example.com/f/AQADu1.jpg".to_string(),
                    cache_control: YEAR.to_string(),
                }
            )
        );
    }
}

#[test]
fn the_stream_of_the_blob_store_is_served_and_not_written_back() {
    let h = handler(true);
    let asked = DownloadState::Blob {
        key: "AgAD1".to_string(),
        cache_url: "https://files.example.com/f/AgAD1.png".to_string(),
        file: record("AQADu1", "AgAD1", "photos/file_1.jpg"),
    };
    let held = Stream { bytes: b"held".to_vec(), origin: "blob store" };
    assert_eq!(
        h.download(asked, Event::Stored(Some(held.clone()))),
        (
            DownloadState::Done,
            Action::Serve {
                body: held,
                blob_key: None,
                cache_url: "https://files.example.com/f/AgAD1.png".to_string(),
                cache_control: YEAR.to_string(),
            }
        )
    );
}

#[test]
fn a_not_found_answer_with_a_body_is_still_not_found() {
    let h = handler(false);
    let fetching = DownloadState::Fetch {
        key: "AQADu1".to_string(),
        cache_url: "u".to_string(),
        blob_key: None,
        forced: true,
    };
    let page = Stream { bytes: b"<html>404</html>".to_vec(), origin: "download" };
    assert_eq!(
        h.download(fetching, Event::Upstream(Ok(Upstream { status: 404, body: Some(page) }))),
        (DownloadState::Done, Action::Fail(Error::new(ErrorKind::NotFound, "file not found")))
    );
}

#[test]
fn register_and_project_page() {
    assert_eq!(handler(true).register(), "https://files.example.com/webhook");
    assert_eq!(Handler::github_page(), "https://github.com/Asutorufa/tg-image-hosting");
}

#[test]
fn photo_is_ingested_then_served_cold_then_served_from_the_blob_store() {
    let mut w = World::new();
    let h = handler(true);
    w.platform.insert("AgAD...a1".to_string(), Ok(Some("photos/file_1.jpg".to_string())));
    w.upstream.insert(download_url("photos/file_1.jpg"), (200, true, b"\x89PNG image".to_vec()));
    let message = Message {
        message_id: 10,
        chat_id: 20,
        user_id: Some(30),
        document: None,
        photo: Some(vec![PhotoSize {
            file_id: "AgAD...a1".to_string(),
            file_unique_id: "AQAD...u1".to_string(),
            file_size: Some(10),
        }]),
        video: None,
    };

    let (outcome, replies) = ingest(&mut w, &h.bot, UpdateContent::Message(message));
    assert_eq!(outcome, Ok(()));
    assert_eq!(
        replies,
        vec![
            "https://files\\.example\\.com/f/AgAD\\.\\.\\.a1\\.jpg\nhttps://files\\.example\\.com/f/AQAD\\.\\.\\.u1\\.jpg\n"
                .to_string()
        ]
    );
    assert_eq!(w.store.len(), 1);
    assert_eq!(w.store.get(&"AQAD...u1".to_string()).unwrap().file_path, "photos/file_1.jpg");
    assert_eq!(w.path_requests, 1);

    w.reset_counts();
    assert_eq!(serve(&mut w, &h, "AQAD...u1.jpg"), Ok(b"\x89PNG image".to_vec()));
    assert_eq!((w.path_requests, w.fetches), (0, 1));

    w.reset_counts();
    w.cache.clear();
    assert_eq!(serve(&mut w, &h, "AQAD...u1.jpg"), Ok(b"\x89PNG image".to_vec()));
    assert_eq!((w.path_requests, w.path_updates, w.fetches, w.blob_checks), (0, 0, 0, 1));

    w.reset_counts();
    assert_eq!(serve(&mut w, &h, "AQAD...u1.jpg"), Ok(b"\x89PNG image".to_vec()));
    assert_eq!((w.cache_checks, w.lookups, w.blob_checks, w.fetches), (1, 0, 0, 0));
}

#[test]
fn ingesting_into_a_store_without_a_table_creates_it() {
    let mut w = World::new();
    w.platform.insert("a".to_string(), Ok(Some("photos/p.jpg".to_string())));
    let message = Message {
        message_id: 1,
        chat_id: 2,
        user_id: None,
        document: None,
        photo: Some(vec![PhotoSize { file_id: "a".to_string(), file_unique_id: "u".to_string(), file_size: None }]),
        video: None,
    };
    assert!(!w.store.is_created());
    let (outcome, replies) = ingest(&mut w, &handler(false).bot, UpdateContent::EditedMessage(message));
    assert_eq!(outcome, Ok(()));
    assert_eq!(replies.len(), 1);
    assert!(w.store.is_created());
    assert_eq!(w.store.get(&"a".to_string()).unwrap().file_unique_id, "u");
}
