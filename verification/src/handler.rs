//! The retrieval pipeline: edge cache, durable blob store, path resolution,
//! download, and the one repair of a stale path.
//!
//! The pipeline decides; it does not read or write. It is a step function
//! from where a request stands and what was reported, to where the request
//! stands next and what is to be done. Streams and responses pass through it
//! as values of types that it does not look into.

use vstd::prelude::*;
use crate::d1::{got, law_saved_path_is_found, path_saved, store_wf, D1View};
use crate::error::{unexpected_event, Error, ErrorKind, ErrorView};
use crate::file::{File, FileView};
use crate::machine::{
    count, lemma_count_concat, lemma_run_budget, lemma_run_concat, lemma_run_idle, lemma_run_len,
    lemma_run_push, run,
};
use crate::text::{
    chars_of, decimal, decimal_string, find_last, last_index_of, lemma_last_index_of, string_of,
};
use crate::tg::{
    derived_ext, download_url, get_ext, law_derived_ext, resolve_found, resolve_request,
    resolve_step, ResolveAction, ResolveActionView, ResolveEvent, ResolveState, ResolveStateView,
    TgBot,
};

verus! {

/// The serving side of the relay.
#[derive(Clone, Debug, PartialEq, Eq)]
pub struct Handler {
    /// The public host under which content is served.
    pub host: String,
    /// Whether a durable blob store is attached.
    pub r2: bool,
    pub bot: TgBot,
}

/// Mathematical view of a [`Handler`].
pub struct HandlerView {
    pub host: Seq<char>,
    pub r2: bool,
    pub bot_token: Seq<char>,
}

impl View for Handler {
    type V = HandlerView;

    open spec fn view(&self) -> HandlerView {
        HandlerView { host: self.host@, r2: self.r2, bot_token: self.bot.bot_token@ }
    }
}

/// What a download location answered.
#[derive(Debug, PartialEq, Eq)]
pub struct Upstream<B> {
    pub status: u16,
    /// The body of the answer, if it can be consumed as a stream.
    pub body: Option<B>,
}

/// How a download ended, as far as the repair of a path is concerned.
#[derive(Debug, PartialEq, Eq)]
pub enum DownloadResult<B> {
    /// The content is there, as this stream.
    Stream(B),
    /// The location no longer holds the content.
    NotFound,
}

/// Where the serving of one request stands.
#[derive(Clone, Debug, PartialEq, Eq)]
pub enum DownloadState {
    /// The request has not been seen yet.
    Start,
    /// The edge cache has been asked.
    Cache { key: String, cache_url: String },
    /// The store has been asked for the record, for the first time.
    Lookup { key: String, cache_url: String },
    /// The durable blob store has been asked; `file` is the record found.
    Blob { key: String, cache_url: String, file: File },
    /// A resolution of the download location is under way, past its lookup
    /// when it is the first one, from its lookup on when it is `forced`.
    Resolve {
        key: String,
        cache_url: String,
        blob_key: Option<String>,
        forced: bool,
        inner: ResolveState,
    },
    /// The download location has been asked for the content.
    Fetch { key: String, cache_url: String, blob_key: Option<String>, forced: bool },
    /// The text of a failed download has been asked for.
    Text { status: u16 },
    /// Nothing is left to do.
    Done,
}

/// Mathematical view of a [`DownloadState`].
pub enum DownloadStateView {
    Start,
    Cache { key: Seq<char>, cache_url: Seq<char> },
    Lookup { key: Seq<char>, cache_url: Seq<char> },
    Blob { key: Seq<char>, cache_url: Seq<char>, file: FileView },
    Resolve {
        key: Seq<char>,
        cache_url: Seq<char>,
        blob_key: Option<Seq<char>>,
        forced: bool,
        inner: ResolveStateView,
    },
    Fetch { key: Seq<char>, cache_url: Seq<char>, blob_key: Option<Seq<char>>, forced: bool },
    Text { status: u16 },
    Done,
}

/// The characters of an optional key.
pub open spec fn key_view(k: Option<String>) -> Option<Seq<char>> {
    match k {
        Some(s) => Some(s@),
        None => None,
    }
}

impl View for DownloadState {
    type V = DownloadStateView;

    open spec fn view(&self) -> DownloadStateView {
        match *self {
            DownloadState::Start => DownloadStateView::Start,
            DownloadState::Cache { key, cache_url } => DownloadStateView::Cache {
                key: key@,
                cache_url: cache_url@,
            },
            DownloadState::Lookup { key, cache_url } => DownloadStateView::Lookup {
                key: key@,
                cache_url: cache_url@,
            },
            DownloadState::Blob { key, cache_url, file } => DownloadStateView::Blob {
                key: key@,
                cache_url: cache_url@,
                file: file@,
            },
            DownloadState::Resolve {
                key,
                cache_url,
                blob_key,
                forced,
                inner,
            } => DownloadStateView::Resolve {
                key: key@,
                cache_url: cache_url@,
                blob_key: key_view(blob_key),
                forced,
                inner: inner@,
            },
            DownloadState::Fetch { key, cache_url, blob_key, forced } => DownloadStateView::Fetch {
                key: key@,
                cache_url: cache_url@,
                blob_key: key_view(blob_key),
                forced,
            },
            DownloadState::Text { status } => DownloadStateView::Text { status },
            DownloadState::Done => DownloadStateView::Done,
        }
    }
}

/// What the outside world reports back while a request is served. `B` is
/// what a stream of content is to the outside world, `C` what a response of
/// the edge cache is: the pipeline hands both on and never looks inside.
#[derive(Debug, PartialEq, Eq)]
pub enum DownloadEvent<B, C> {
    /// The request has arrived, for the public name `file_name`: an alias or
    /// a content identifier, a dot and an extension. A request may arrive
    /// without a name.
    Request { file_name: Option<String> },
    /// The edge cache's answer: the response that it holds for the URL, if
    /// it holds one.
    Cached(Result<Option<C>, Error>),
    /// An answer to a request of the path resolver.
    Resolver(ResolveEvent),
    /// The durable blob store's answer: the stream that it holds under the
    /// key, if it holds one. A store that fails to answer counts as not
    /// holding it.
    Stored(Option<B>),
    /// The download location's answer.
    Upstream(Result<Upstream<B>, Error>),
    /// The text of the body of a failed download.
    Text(Result<String, Error>),
}

/// What is to be done next for a request.
#[derive(Debug, PartialEq, Eq)]
pub enum DownloadAction<B, C> {
    /// Ask the edge cache for the response kept under `url`.
    CheckCache { url: String },
    /// Do what the path resolver asks for.
    Resolver(ResolveAction),
    /// Ask the durable blob store for the stream kept under `key`.
    CheckBlob { key: String },
    /// Ask the download location `url` for the content, and let answers
    /// whose status lies in the range `ttl_status` be kept for `ttl_seconds`.
    Fetch { url: String, ttl_status: String, ttl_seconds: u32 },
    /// Read the body of the failed download as text.
    ReadText,
    /// Answer with this response of the edge cache.
    ServeCached(C),
    /// Answer with the stream `body`, under the header value
    /// `cache_control`. Behind the answer, and without ever failing or
    /// delaying it, a copy of the same stream goes to the durable blob store
    /// under `blob_key`, if there is one, and a copy to the edge cache under
    /// `cache_url` with the same header value.
    Serve { body: B, blob_key: Option<String>, cache_url: String, cache_control: String },
    /// Answer with this failure.
    Fail(Error),
}

/// Mathematical view of a [`DownloadAction`].
pub enum DownloadActionView<B, C> {
    CheckCache { url: Seq<char> },
    Resolver(ResolveActionView),
    CheckBlob { key: Seq<char> },
    Fetch { url: Seq<char>, ttl_status: Seq<char>, ttl_seconds: u32 },
    ReadText,
    ServeCached(C),
    Serve { body: B, blob_key: Option<Seq<char>>, cache_url: Seq<char>, cache_control: Seq<char> },
    Fail(ErrorView),
}

impl<B, C> View for DownloadAction<B, C> {
    type V = DownloadActionView<B, C>;

    open spec fn view(&self) -> DownloadActionView<B, C> {
        match *self {
            DownloadAction::CheckCache { url } => DownloadActionView::CheckCache { url: url@ },
            DownloadAction::Resolver(a) => DownloadActionView::Resolver(a@),
            DownloadAction::CheckBlob { key } => DownloadActionView::CheckBlob { key: key@ },
            DownloadAction::Fetch { url, ttl_status, ttl_seconds } => DownloadActionView::Fetch {
                url: url@,
                ttl_status: ttl_status@,
                ttl_seconds,
            },
            DownloadAction::ReadText => DownloadActionView::ReadText,
            DownloadAction::ServeCached(response) => DownloadActionView::ServeCached(response),
            DownloadAction::Serve {
                body,
                blob_key,
                cache_url,
                cache_control,
            } => DownloadActionView::Serve {
                body,
                blob_key: key_view(blob_key),
                cache_url: cache_url@,
                cache_control: cache_control@,
            },
            DownloadAction::Fail(e) => DownloadActionView::Fail(e@),
        }
    }
}

/// Whether a public name is one of the two names made of dots only that
/// stand for a directory.
pub open spec fn is_dots(name: Seq<char>) -> bool {
    name == seq!['.'] || name == seq!['.', '.']
}

/// The identifier in a public name: what stands before its last dot. A name
/// without a dot, or with its only dot in front, is an identifier as a
/// whole; `.` and `..` hold none.
pub open spec fn name_stem(name: Seq<char>) -> Seq<char> {
    let i = last_index_of(name, '.');
    if is_dots(name) {
        Seq::empty()
    } else if i <= 0 {
        name
    } else {
        name.subrange(0, i)
    }
}

/// The extension in a public name: what stands behind its last dot, empty
/// where [`name_stem`] takes the whole name or nothing.
pub open spec fn name_ext(name: Seq<char>) -> Seq<char> {
    let i = last_index_of(name, '.');
    if is_dots(name) || i <= 0 {
        Seq::empty()
    } else {
        name.subrange(i + 1, name.len() as int)
    }
}

/// The extension of a public name holds no dot; a name with an extension is
/// its identifier, a dot and its extension; and a name without a dot is an
/// identifier as a whole.
pub proof fn law_name_parts(name: Seq<char>)
    ensures
        forall|k: int| 0 <= k < name_ext(name).len() ==> name_ext(name)[k] != '.',
        name_ext(name).len() > 0 ==> name == name_stem(name) + seq!['.'] + name_ext(name),
        !name.contains('.') ==> name_stem(name) == name && name_ext(name).len() == 0,
{
    lemma_last_index_of(name, '.');
}

/// What is announced is found again: the public name that is announced for
/// a record, an identifier without a dot followed by the extension of the
/// record's download path, is read back as that identifier.
pub proof fn law_announced_name_is_read_back(id: Seq<char>, path: Seq<char>)
    requires
        id.len() > 0,
        !id.contains('.'),
    ensures
        name_stem(id + derived_ext(path)) == id,
{
    let ext = derived_ext(path);
    let name = id + ext;
    law_derived_ext(path);
    lemma_last_index_of(name, '.');
    assert(!is_dots(name));
    if ext.len() > 0 {
        assert(name[id.len() as int] == ext[0]);
    }
}

/// The URL that stands for a request in the edge cache: scheme, host and
/// path of the public URL, rebuilt from the parts of the public name.
pub open spec fn cache_url(host: Seq<char>, name: Seq<char>) -> Seq<char> {
    "https://"@ + host + "/f/"@ + name_stem(name) + "."@ + name_ext(name)
}

/// The key of a record's content in the durable blob store: its content
/// identifier, followed by the extension of its download path.
pub open spec fn blob_key(file: FileView) -> Seq<char> {
    file.file_unique_id + derived_ext(file.file_path)
}

/// The URL at which the platform is told to deliver updates.
pub open spec fn webhook_url(host: Seq<char>) -> Seq<char> {
    "https://"@ + host + "/webhook"@
}

/// The value of the cache header on everything that is served: public, and
/// fresh for a year.
pub open spec fn cache_control() -> Seq<char> {
    "public, max-age=31536000"@
}

/// The range of statuses whose answers a download may keep.
pub open spec fn ttl_status() -> Seq<char> {
    "200-299"@
}

/// For how many seconds a download may keep such an answer: a year.
pub open spec fn ttl_seconds() -> u32 {
    31536000
}

/// The failure that answers a request without a public name.
pub open spec fn missing_name() -> ErrorView {
    ErrorView { kind: ErrorKind::NotFound, message: "file name is not found"@ }
}

/// The failure that answers content which is gone even from a fresh path.
pub open spec fn content_not_found() -> ErrorView {
    ErrorView { kind: ErrorKind::NotFound, message: "file not found"@ }
}

/// The failure that answers a body which cannot be streamed.
pub open spec fn not_streamable() -> ErrorView {
    ErrorView { kind: ErrorKind::StreamCastFailure, message: "body is not streamable"@ }
}

/// The failure that answers a download with a status other than success and
/// not found, with the text of its body.
pub open spec fn bad_status(status: u16, text: Seq<char>) -> ErrorView {
    ErrorView {
        kind: ErrorKind::UpstreamTransport,
        message: "status code is not 200, but "@ + decimal(status as nat) + ", "@ + text,
    }
}

/// How a download with this answer ended, for statuses that end it: success
/// with a body that streams, and not found.
pub open spec fn download_result<B>(answer: Upstream<B>) -> Option<DownloadResult<B>> {
    if answer.status == 404 {
        Some(DownloadResult::NotFound)
    } else if answer.status == 200 && answer.body is Some {
        Some(DownloadResult::Stream(answer.body->0))
    } else {
        None
    }
}

/// The request to download from `url`.
pub open spec fn fetch<B, C>(url: Seq<char>) -> DownloadActionView<B, C> {
    DownloadActionView::Fetch { url, ttl_status: ttl_status(), ttl_seconds: ttl_seconds() }
}

/// The answer that streams `body` and copies it behind the answer.
pub open spec fn serve<B, C>(
    body: B,
    blob_key: Option<Seq<char>>,
    cache_url: Seq<char>,
) -> DownloadActionView<B, C> {
    DownloadActionView::Serve { body, blob_key, cache_url, cache_control: cache_control() }
}

/// What the pipeline makes of a step of the path resolver: a download when
/// the resolver ended with a URL, a failure when it ended with one, and the
/// resolver's own request otherwise.
pub open spec fn after_resolver<B, C>(
    key: Seq<char>,
    cache_url: Seq<char>,
    blob_key: Option<Seq<char>>,
    forced: bool,
    step: (ResolveStateView, ResolveActionView),
) -> (DownloadStateView, DownloadActionView<B, C>) {
    match step.1 {
        ResolveActionView::Finish(Ok(found)) => (
            DownloadStateView::Fetch { key, cache_url, blob_key, forced },
            fetch(found.0),
        ),
        ResolveActionView::Finish(Err(e)) => (DownloadStateView::Done, DownloadActionView::Fail(e)),
        request => (
            DownloadStateView::Resolve { key, cache_url, blob_key, forced, inner: step.0 },
            DownloadActionView::Resolver(request),
        ),
    }
}

/// The failure that ends a request on an event that it did not ask for.
pub open spec fn unexpected<B, C>() -> (DownloadStateView, DownloadActionView<B, C>) {
    (DownloadStateView::Done, DownloadActionView::Fail(unexpected_event()))
}

/// What follows a miss of the edge cache: the resolution of the download
/// location begins.
pub open spec fn after_cache_miss<B, C>(key: Seq<char>, cache_url: Seq<char>) -> (
    DownloadStateView,
    DownloadActionView<B, C>,
) {
    match resolve_request(key, false).1 {
        ResolveActionView::Finish(Err(e)) => (DownloadStateView::Done, DownloadActionView::Fail(e)),
        request => (
            DownloadStateView::Lookup { key, cache_url },
            DownloadActionView::Resolver(request),
        ),
    }
}

/// What follows a download that found nothing: one resolution that does not
/// trust the cached path, unless that has been tried already.
pub open spec fn after_not_found<B, C>(
    key: Seq<char>,
    cache_url: Seq<char>,
    blob_key: Option<Seq<char>>,
    forced: bool,
) -> (DownloadStateView, DownloadActionView<B, C>) {
    if forced {
        (DownloadStateView::Done, DownloadActionView::Fail(content_not_found()))
    } else {
        after_resolver(key, cache_url, blob_key, true, resolve_request(key, true))
    }
}

/// One step of the serving of a request.
///
/// A request without a name fails. Otherwise the edge cache is asked first,
/// under the URL rebuilt from the public name; what it holds is the answer,
/// and a cache that fails counts as empty. Then the record is looked up.
/// With a durable blob store attached, that store is asked next, under the
/// record's key, and so before the platform is asked for anything; what it
/// holds is streamed as the answer and copied to the edge cache only.
/// Otherwise the download location is resolved and asked. Content that is
/// not found there leads to one resolution that does not trust the cached
/// path and to one more download; content not found again is a failure. Any
/// other status than success is a failure that quotes the body, and so is a
/// body that does not stream. A successful download is streamed as the
/// answer and copied to the blob store, if attached, and to the edge cache.
pub open spec fn download_step<B, C>(
    h: HandlerView,
    state: DownloadStateView,
    event: DownloadEvent<B, C>,
) -> (DownloadStateView, DownloadActionView<B, C>) {
    match (state, event) {
        (DownloadStateView::Start, DownloadEvent::Request { file_name: Some(name) }) => (
            DownloadStateView::Cache { key: name_stem(name@), cache_url: cache_url(h.host, name@) },
            DownloadActionView::CheckCache { url: cache_url(h.host, name@) },
        ),
        (DownloadStateView::Start, DownloadEvent::Request { file_name: None }) => (
            DownloadStateView::Done,
            DownloadActionView::Fail(missing_name()),
        ),
        (DownloadStateView::Cache { .. }, DownloadEvent::Cached(Ok(Some(response)))) => (
            DownloadStateView::Done,
            DownloadActionView::ServeCached(response),
        ),
        (DownloadStateView::Cache { key, cache_url }, DownloadEvent::Cached(_)) => after_cache_miss(
            key,
            cache_url,
        ),
        (
            DownloadStateView::Lookup { key, cache_url },
            DownloadEvent::Resolver(ResolveEvent::Found(Ok(file))),
        ) => if h.r2 {
            (
                DownloadStateView::Blob { key, cache_url, file: file@ },
                DownloadActionView::CheckBlob { key: blob_key(file@) },
            )
        } else {
            after_resolver(key, cache_url, None, false, resolve_found(h.bot_token, false, file@))
        },
        (
            DownloadStateView::Lookup { .. },
            DownloadEvent::Resolver(ResolveEvent::Found(Err(e))),
        ) => (DownloadStateView::Done, DownloadActionView::Fail(e@)),
        (
            DownloadStateView::Blob { key, cache_url, file },
            DownloadEvent::Stored(held),
        ) => match held {
            Some(body) => (DownloadStateView::Done, serve(body, None, cache_url)),
            None => after_resolver(
                key,
                cache_url,
                Some(blob_key(file)),
                false,
                resolve_found(h.bot_token, false, file),
            ),
        },
        (
            DownloadStateView::Resolve { key, cache_url, blob_key, forced, inner },
            DownloadEvent::Resolver(answer),
        ) => if answer is Request {
            unexpected()
        } else {
            after_resolver(
                key,
                cache_url,
                blob_key,
                forced,
                resolve_step(h.bot_token, inner, answer),
            )
        },
        (
            DownloadStateView::Fetch { key, cache_url, blob_key, forced },
            DownloadEvent::Upstream(Ok(answer)),
        ) => match download_result(answer) {
            Some(DownloadResult::NotFound) => after_not_found(key, cache_url, blob_key, forced),
            Some(DownloadResult::Stream(body)) => (
                DownloadStateView::Done,
                serve(body, blob_key, cache_url),
            ),
            None => if answer.status == 200 {
                (DownloadStateView::Done, DownloadActionView::Fail(not_streamable()))
            } else {
                (DownloadStateView::Text { status: answer.status }, DownloadActionView::ReadText)
            },
        },
        (DownloadStateView::Fetch { .. }, DownloadEvent::Upstream(Err(e))) => (
            DownloadStateView::Done,
            DownloadActionView::Fail(e@),
        ),
        (DownloadStateView::Text { status }, DownloadEvent::Text(Ok(text))) => (
            DownloadStateView::Done,
            DownloadActionView::Fail(bad_status(status, text@)),
        ),
        (DownloadStateView::Text { .. }, DownloadEvent::Text(Err(e))) => (
            DownloadStateView::Done,
            DownloadActionView::Fail(e@),
        ),
        _ => unexpected(),
    }
}

/// The step function of the serving side `h`.
pub open spec fn download_machine<B, C>(h: HandlerView) -> spec_fn(
    DownloadStateView,
    DownloadEvent<B, C>,
) -> (DownloadStateView, DownloadActionView<B, C>) {
    |s: DownloadStateView, e: DownloadEvent<B, C>| download_step(h, s, e)
}

/// Where the serving of a request stands after `events`, from `start`, and
/// what it asked for on the way, in order.
pub open spec fn download_run<B, C>(
    h: HandlerView,
    start: DownloadStateView,
    events: Seq<DownloadEvent<B, C>>,
) -> (DownloadStateView, Seq<DownloadActionView<B, C>>) {
    run(download_machine(h), start, events)
}

/// How many of `actions` ask the download location for content.
pub open spec fn fetches<B, C>(actions: Seq<DownloadActionView<B, C>>) -> nat {
    count(actions, |a: DownloadActionView<B, C>| a is Fetch)
}

/// How many of `actions` ask the platform for a download path.
pub open spec fn path_requests<B, C>(actions: Seq<DownloadActionView<B, C>>) -> nat {
    count(
        actions,
        |a: DownloadActionView<B, C>| a matches DownloadActionView::Resolver(r) && r is GetPath,
    )
}

/// How many of `actions` hand a download path to the store.
pub open spec fn path_updates<B, C>(actions: Seq<DownloadActionView<B, C>>) -> nat {
    count(
        actions,
        |a: DownloadActionView<B, C>| a matches DownloadActionView::Resolver(r) && r is SavePath,
    )
}

/// How many of `actions` look a record up in the store.
pub open spec fn lookups<B, C>(actions: Seq<DownloadActionView<B, C>>) -> nat {
    count(
        actions,
        |a: DownloadActionView<B, C>| a matches DownloadActionView::Resolver(r) && r is Lookup,
    )
}

/// The states in which a run that began at the start can stand: a first
/// resolution is past its lookup, a forced one has begun.
pub open spec fn reachable(s: DownloadStateView) -> bool {
    match s {
        DownloadStateView::Resolve { forced, inner, .. } => inner is Path || inner is Saving || (
        forced && inner is Lookup),
        _ => true,
    }
}

/// How many downloads a run can have asked for when it stands in `s`.
pub open spec fn fetch_budget(s: DownloadStateView) -> nat {
    match s {
        DownloadStateView::Start => 0,
        DownloadStateView::Cache { .. } => 0,
        DownloadStateView::Lookup { .. } => 0,
        DownloadStateView::Blob { .. } => 0,
        DownloadStateView::Resolve { forced, .. } => if forced {
            1
        } else {
            0
        },
        DownloadStateView::Fetch { forced, .. } => if forced {
            2
        } else {
            1
        },
        DownloadStateView::Text { .. } => 2,
        DownloadStateView::Done => 2,
    }
}

/// How many paths a run can have asked the platform for when it stands in `s`.
pub open spec fn path_budget(s: DownloadStateView) -> nat {
    match s {
        DownloadStateView::Start => 0,
        DownloadStateView::Cache { .. } => 0,
        DownloadStateView::Lookup { .. } => 0,
        DownloadStateView::Blob { .. } => 0,
        DownloadStateView::Resolve { forced, inner, .. } => if forced && !(inner is Lookup) {
            2
        } else {
            1
        },
        DownloadStateView::Fetch { forced, .. } => if forced {
            2
        } else {
            1
        },
        DownloadStateView::Text { .. } => 2,
        DownloadStateView::Done => 2,
    }
}

/// How many paths a run can have handed to the store when it stands in `s`.
pub open spec fn update_budget(s: DownloadStateView) -> nat {
    match s {
        DownloadStateView::Start => 0,
        DownloadStateView::Cache { .. } => 0,
        DownloadStateView::Lookup { .. } => 0,
        DownloadStateView::Blob { .. } => 0,
        DownloadStateView::Resolve { forced, inner, .. } => if forced {
            if inner is Saving {
                2
            } else {
                1
            }
        } else {
            if inner is Saving {
                1
            } else {
                0
            }
        },
        DownloadStateView::Fetch { forced, .. } => if forced {
            2
        } else {
            1
        },
        DownloadStateView::Text { .. } => 2,
        DownloadStateView::Done => 2,
    }
}

/// How many lookups a run can have asked the store for when it stands in `s`.
pub open spec fn lookup_budget(s: DownloadStateView) -> nat {
    match s {
        DownloadStateView::Start => 0,
        DownloadStateView::Cache { .. } => 0,
        DownloadStateView::Lookup { .. } => 1,
        DownloadStateView::Blob { .. } => 1,
        DownloadStateView::Resolve { forced, .. } => if forced {
            2
        } else {
            1
        },
        DownloadStateView::Fetch { forced, .. } => if forced {
            2
        } else {
            1
        },
        DownloadStateView::Text { .. } => 2,
        DownloadStateView::Done => 2,
    }
}

/// A step from a reachable state leads to a reachable state, and what it
/// asks for is within what the state it leads to allows.
proof fn lemma_step_budget<B, C>(h: HandlerView, s: DownloadStateView, event: DownloadEvent<B, C>)
    requires
        reachable(s),
    ensures
        reachable(download_step(h, s, event).0),
        fetch_budget(download_step(h, s, event).0) >= fetch_budget(s) + if download_step(
            h,
            s,
            event,
        ).1 is Fetch {
            1nat
        } else {
            0nat
        },
        path_budget(download_step(h, s, event).0) >= path_budget(s) + if (download_step(
            h,
            s,
            event,
        ).1 matches DownloadActionView::Resolver(r) && r is GetPath) {
            1nat
        } else {
            0nat
        },
        update_budget(download_step(h, s, event).0) >= update_budget(s) + if (download_step(
            h,
            s,
            event,
        ).1 matches DownloadActionView::Resolver(r) && r is SavePath) {
            1nat
        } else {
            0nat
        },
        lookup_budget(download_step(h, s, event).0) >= lookup_budget(s) + if (download_step(
            h,
            s,
            event,
        ).1 matches DownloadActionView::Resolver(r) && r is Lookup) {
            1nat
        } else {
            0nat
        },
{
}

/// Along a run from the start, the downloads asked for stay within the
/// budget of the state reached.
proof fn lemma_fetch_budget<B, C>(h: HandlerView, events: Seq<DownloadEvent<B, C>>)
    ensures
        reachable(download_run(h, DownloadStateView::Start, events).0),
        fetches(download_run(h, DownloadStateView::Start, events).1) <= fetch_budget(
            download_run(h, DownloadStateView::Start, events).0,
        ),
{
    let step = download_machine(h);
    let good = |s: DownloadStateView| reachable(s);
    let budget = |s: DownloadStateView| fetch_budget(s);
    let wanted = |a: DownloadActionView<B, C>| a is Fetch;
    assert forall|s: DownloadStateView, e: DownloadEvent<B, C>| good(s) implies good(
        (#[trigger] step(s, e)).0,
    ) && budget(step(s, e).0) >= budget(s) + if wanted(step(s, e).1) {
        1nat
    } else {
        0nat
    } by {
        lemma_step_budget(h, s, e);
    }
    lemma_run_budget(step, DownloadStateView::Start, events, good, budget, wanted);
}

/// Along a run from the start, the paths asked of the platform stay within
/// the budget of the state reached.
proof fn lemma_path_budget<B, C>(h: HandlerView, events: Seq<DownloadEvent<B, C>>)
    ensures
        path_requests(download_run(h, DownloadStateView::Start, events).1) <= path_budget(
            download_run(h, DownloadStateView::Start, events).0,
        ),
{
    let step = download_machine(h);
    let good = |s: DownloadStateView| reachable(s);
    let budget = |s: DownloadStateView| path_budget(s);
    let wanted = |a: DownloadActionView<B, C>|
        a matches DownloadActionView::Resolver(r) && r is GetPath;
    assert forall|s: DownloadStateView, e: DownloadEvent<B, C>| good(s) implies good(
        (#[trigger] step(s, e)).0,
    ) && budget(step(s, e).0) >= budget(s) + if wanted(step(s, e).1) {
        1nat
    } else {
        0nat
    } by {
        lemma_step_budget(h, s, e);
    }
    lemma_run_budget(step, DownloadStateView::Start, events, good, budget, wanted);
}

/// Along a run from the start, the paths handed to the store stay within
/// the budget of the state reached.
proof fn lemma_update_budget<B, C>(h: HandlerView, events: Seq<DownloadEvent<B, C>>)
    ensures
        path_updates(download_run(h, DownloadStateView::Start, events).1) <= update_budget(
            download_run(h, DownloadStateView::Start, events).0,
        ),
{
    let step = download_machine(h);
    let good = |s: DownloadStateView| reachable(s);
    let budget = |s: DownloadStateView| update_budget(s);
    let wanted = |a: DownloadActionView<B, C>|
        a matches DownloadActionView::Resolver(r) && r is SavePath;
    assert forall|s: DownloadStateView, e: DownloadEvent<B, C>| good(s) implies good(
        (#[trigger] step(s, e)).0,
    ) && budget(step(s, e).0) >= budget(s) + if wanted(step(s, e).1) {
        1nat
    } else {
        0nat
    } by {
        lemma_step_budget(h, s, e);
    }
    lemma_run_budget(step, DownloadStateView::Start, events, good, budget, wanted);
}

/// Along a run from the start, the lookups asked for stay within the budget
/// of the state reached.
proof fn lemma_lookup_budget<B, C>(h: HandlerView, events: Seq<DownloadEvent<B, C>>)
    ensures
        lookups(download_run(h, DownloadStateView::Start, events).1) <= lookup_budget(
            download_run(h, DownloadStateView::Start, events).0,
        ),
{
    let step = download_machine(h);
    let good = |s: DownloadStateView| reachable(s);
    let budget = |s: DownloadStateView| lookup_budget(s);
    let wanted = |a: DownloadActionView<B, C>|
        a matches DownloadActionView::Resolver(r) && r is Lookup;
    assert forall|s: DownloadStateView, e: DownloadEvent<B, C>| good(s) implies good(
        (#[trigger] step(s, e)).0,
    ) && budget(step(s, e).0) >= budget(s) + if wanted(step(s, e).1) {
        1nat
    } else {
        0nat
    } by {
        lemma_step_budget(h, s, e);
    }
    lemma_run_budget(step, DownloadStateView::Start, events, good, budget, wanted);
}

/// Along a run from the start, what was asked for stays within what the
/// state reached allows.
pub proof fn lemma_download_budget<B, C>(h: HandlerView, events: Seq<DownloadEvent<B, C>>)
    ensures
        reachable(download_run(h, DownloadStateView::Start, events).0),
        fetches(download_run(h, DownloadStateView::Start, events).1) <= fetch_budget(
            download_run(h, DownloadStateView::Start, events).0,
        ),
        path_requests(download_run(h, DownloadStateView::Start, events).1) <= path_budget(
            download_run(h, DownloadStateView::Start, events).0,
        ),
        path_updates(download_run(h, DownloadStateView::Start, events).1) <= update_budget(
            download_run(h, DownloadStateView::Start, events).0,
        ),
        lookups(download_run(h, DownloadStateView::Start, events).1) <= lookup_budget(
            download_run(h, DownloadStateView::Start, events).0,
        ),
{
    lemma_fetch_budget(h, events);
    lemma_path_budget(h, events);
    lemma_update_budget(h, events);
    lemma_lookup_budget(h, events);
}

/// No retry loop: whatever is reported back, in whatever order, the serving
/// of one request asks for at most two downloads, asks the platform for at
/// most two paths, hands at most two paths to the store and looks the record
/// up at most twice.
pub proof fn law_download_bounded<B, C>(h: HandlerView, events: Seq<DownloadEvent<B, C>>)
    ensures
        fetches(download_run(h, DownloadStateView::Start, events).1) <= 2,
        path_requests(download_run(h, DownloadStateView::Start, events).1) <= 2,
        path_updates(download_run(h, DownloadStateView::Start, events).1) <= 2,
        lookups(download_run(h, DownloadStateView::Start, events).1) <= 2,
{
    lemma_download_budget(h, events);
}

/// A request that is done stays done: whatever is reported to it afterwards,
/// it asks for no download, no path, no update and no lookup.
pub proof fn lemma_done_is_final<B, C>(h: HandlerView, events: Seq<DownloadEvent<B, C>>)
    ensures
        download_run(h, DownloadStateView::Done, events).0 == DownloadStateView::Done,
        fetches(download_run(h, DownloadStateView::Done, events).1) == 0,
        path_requests(download_run(h, DownloadStateView::Done, events).1) == 0,
        path_updates(download_run(h, DownloadStateView::Done, events).1) == 0,
        lookups(download_run(h, DownloadStateView::Done, events).1) == 0,
{
    let step = download_machine(h);
    let start = DownloadStateView::Done;
    let idle = |s: DownloadStateView| s == DownloadStateView::Done;
    lemma_run_idle(step, start, events, idle, |a: DownloadActionView<B, C>| a is Fetch);
    lemma_run_idle(
        step,
        start,
        events,
        idle,
        |a: DownloadActionView<B, C>| a matches DownloadActionView::Resolver(r) && r is GetPath,
    );
    lemma_run_idle(
        step,
        start,
        events,
        idle,
        |a: DownloadActionView<B, C>| a matches DownloadActionView::Resolver(r) && r is SavePath,
    );
    lemma_run_idle(
        step,
        start,
        events,
        idle,
        |a: DownloadActionView<B, C>| a matches DownloadActionView::Resolver(r) && r is Lookup,
    );
}

/// Short circuit on the durable blob store: when the store holds the
/// content, the stream that it hands out is the answer, copied to the edge
/// cache and not written to the store again, and the whole request, whatever
/// is reported to it later, asks the platform for no path, hands no path to
/// the metadata store and asks for no download.
pub proof fn law_blob_hit_short_circuit<B, C>(
    h: HandlerView,
    events: Seq<DownloadEvent<B, C>>,
    held: B,
    later: Seq<DownloadEvent<B, C>>,
)
    requires
        download_run(h, DownloadStateView::Start, events).0 is Blob,
    ensures
        ({
            let asked = download_run(h, DownloadStateView::Start, events).0;
            let whole = download_run(
                h,
                DownloadStateView::Start,
                events.push(DownloadEvent::Stored(Some(held))) + later,
            );
            &&& whole.0 == DownloadStateView::Done
            &&& whole.1.len() == events.len() + 1 + later.len()
            &&& whole.1[events.len() as int] == serve::<B, C>(held, None, asked->Blob_cache_url)
            &&& fetches(whole.1) == 0
            &&& path_requests(whole.1) == 0
            &&& path_updates(whole.1) == 0
        }),
{
    let step = download_machine::<B, C>(h);
    let start = DownloadStateView::Start;
    let hit = events.push(DownloadEvent::Stored(Some(held)));
    let before = run(step, start, events);
    let at_hit = run(step, start, hit);
    let after = run(step, DownloadStateView::Done, later);
    lemma_download_budget(h, events);
    lemma_run_push(step, start, events, DownloadEvent::Stored(Some(held)));
    assert(at_hit.1.drop_last() == before.1);
    lemma_run_concat(step, start, hit, later);
    lemma_done_is_final(h, later);
    lemma_count_concat(at_hit.1, after.1, |a: DownloadActionView<B, C>| a is Fetch);
    lemma_count_concat(
        at_hit.1,
        after.1,
        |a: DownloadActionView<B, C>| a matches DownloadActionView::Resolver(r) && r is GetPath,
    );
    lemma_count_concat(
        at_hit.1,
        after.1,
        |a: DownloadActionView<B, C>| a matches DownloadActionView::Resolver(r) && r is SavePath,
    );
    lemma_run_len(step, start, events);
    lemma_run_len(step, DownloadStateView::Done, later);
}

/// A cold request for content whose path is known: with a durable blob
/// store attached and nothing held in either tier, the edge cache is asked,
/// the record is looked up, the blob store is asked, and the content is
/// downloaded from the location of the cached path, without a word to the
/// platform; the stream of the download is the answer, copied to the blob
/// store under the record's key and to the edge cache under the request's
/// URL.
pub proof fn law_cold_request<B, C>(
    h: HandlerView,
    name: String,
    miss: Result<Option<C>, Error>,
    file: File,
    body: B,
)
    requires
        h.r2,
        name_stem(name@).len() > 0,
        !(miss matches Ok(Some(_))),
        file.file_path@.len() > 0,
    ensures
        download_run(
            h,
            DownloadStateView::Start,
            seq![
                DownloadEvent::Request { file_name: Some(name) },
                DownloadEvent::Cached(miss),
                DownloadEvent::Resolver(ResolveEvent::Found(Ok(file))),
                DownloadEvent::Stored(None),
                DownloadEvent::Upstream(Ok(Upstream { status: 200, body: Some(body) })),
            ],
        ) == (
            DownloadStateView::Done,
            seq![
                DownloadActionView::<B, C>::CheckCache { url: cache_url(h.host, name@) },
                DownloadActionView::Resolver(ResolveActionView::Lookup { key: name_stem(name@) }),
                DownloadActionView::CheckBlob { key: blob_key(file@) },
                fetch(download_url(h.bot_token, file.file_path@)),
                serve(body, Some(blob_key(file@)), cache_url(h.host, name@)),
            ],
        ),
{
    let step = download_machine(h);
    let start = DownloadStateView::Start;
    let e0 = DownloadEvent::Request { file_name: Some(name) };
    let e1 = DownloadEvent::Cached(miss);
    let e2 = DownloadEvent::Resolver(ResolveEvent::Found(Ok(file)));
    let e3 = DownloadEvent::Stored(None);
    let e4 = DownloadEvent::Upstream(Ok(Upstream { status: 200, body: Some(body) }));
    let none = Seq::<DownloadEvent<B, C>>::empty();
    lemma_run_push(step, start, none, e0);
    lemma_run_push(step, start, none.push(e0), e1);
    lemma_run_push(step, start, none.push(e0).push(e1), e2);
    lemma_run_push(step, start, none.push(e0).push(e1).push(e2), e3);
    lemma_run_push(step, start, none.push(e0).push(e1).push(e2).push(e3), e4);
    assert(seq![e0, e1, e2, e3, e4] == none.push(e0).push(e1).push(e2).push(e3).push(e4));
    let actions = run(step, start, seq![e0, e1, e2, e3, e4]).1;
    assert(actions == seq![
        DownloadActionView::<B, C>::CheckCache { url: cache_url(h.host, name@) },
        DownloadActionView::Resolver(ResolveActionView::Lookup { key: name_stem(name@) }),
        DownloadActionView::CheckBlob { key: blob_key(file@) },
        fetch(download_url(h.bot_token, file.file_path@)),
        serve(body, Some(blob_key(file@)), cache_url(h.host, name@)),
    ]);
}

/// Short circuit on the edge cache: a response that the edge cache holds is
/// the answer, and the request asks for nothing else, whatever is reported
/// to it later.
pub proof fn law_cache_hit_short_circuit<B, C>(
    h: HandlerView,
    name: String,
    held: C,
    later: Seq<DownloadEvent<B, C>>,
)
    ensures
        ({
            let hit = seq![
                DownloadEvent::Request { file_name: Some(name) },
                DownloadEvent::Cached(Ok(Some(held))),
            ];
            let whole = download_run(h, DownloadStateView::Start, hit + later);
            &&& whole.0 == DownloadStateView::Done
            &&& whole.1.len() == 2 + later.len()
            &&& whole.1[0] == (DownloadActionView::<B, C>::CheckCache {
                url: cache_url(h.host, name@),
            })
            &&& whole.1[1] == DownloadActionView::<B, C>::ServeCached(held)
            &&& lookups(whole.1) == 0
            &&& fetches(whole.1) == 0
            &&& path_requests(whole.1) == 0
            &&& path_updates(whole.1) == 0
        }),
{
    let step = download_machine(h);
    let start = DownloadStateView::Start;
    let e0 = DownloadEvent::Request { file_name: Some(name) };
    let e1 = DownloadEvent::Cached(Ok(Some(held)));
    let none = Seq::<DownloadEvent<B, C>>::empty();
    let hit = seq![e0, e1];
    lemma_run_push(step, start, none, e0);
    lemma_run_push(step, start, none.push(e0), e1);
    assert(hit == none.push(e0).push(e1));
    let at_hit = run(step, start, hit);
    let after = run(step, DownloadStateView::Done, later);
    lemma_download_budget(h, none.push(e0));
    assert(at_hit.1.drop_last() == run(step, start, none.push(e0)).1);
    lemma_run_concat(step, start, hit, later);
    lemma_done_is_final(h, later);
    lemma_run_len(step, DownloadStateView::Done, later);
    lemma_count_concat(at_hit.1, after.1, |a: DownloadActionView<B, C>| a is Fetch);
    lemma_count_concat(
        at_hit.1,
        after.1,
        |a: DownloadActionView<B, C>| a matches DownloadActionView::Resolver(r) && r is GetPath,
    );
    lemma_count_concat(
        at_hit.1,
        after.1,
        |a: DownloadActionView<B, C>| a matches DownloadActionView::Resolver(r) && r is SavePath,
    );
    lemma_count_concat(
        at_hit.1,
        after.1,
        |a: DownloadActionView<B, C>| a matches DownloadActionView::Resolver(r) && r is Lookup,
    );
}

/// Repair of a stale path: when a first download finds nothing, the record
/// is looked up again, the platform is asked for a fresh path whatever the
/// record's cached one, the fresh path goes to the store, and the content is
/// downloaded from the fresh location; the stream of that download, and no
/// other, is the answer, copied as any successful download is.
pub proof fn law_repair_on_stale_path<B, C>(
    h: HandlerView,
    key: Seq<char>,
    cache_url: Seq<char>,
    blob_key: Option<Seq<char>>,
    gone: Upstream<B>,
    file: File,
    fresh: String,
    body: B,
)
    requires
        key.len() > 0,
        fresh@.len() > 0,
        gone.status == 404,
    ensures
        download_run(
            h,
            DownloadStateView::Fetch { key, cache_url, blob_key, forced: false },
            seq![
                DownloadEvent::<B, C>::Upstream(Ok(gone)),
                DownloadEvent::Resolver(ResolveEvent::Found(Ok(file))),
                DownloadEvent::Resolver(ResolveEvent::Path(Ok(Some(fresh)))),
                DownloadEvent::Resolver(ResolveEvent::Saved(Ok(()))),
                DownloadEvent::Upstream(Ok(Upstream { status: 200, body: Some(body) })),
            ],
        ) == (
            DownloadStateView::Done,
            seq![
                DownloadActionView::<B, C>::Resolver(ResolveActionView::Lookup { key }),
                DownloadActionView::Resolver(
                    ResolveActionView::GetPath { file_id: file.file_id@ },
                ),
                DownloadActionView::Resolver(
                    ResolveActionView::SavePath {
                        file_unique_id: file.file_unique_id@,
                        file_path: fresh@,
                    },
                ),
                fetch(download_url(h.bot_token, fresh@)),
                serve(body, blob_key, cache_url),
            ],
        ),
{
    let step = download_machine(h);
    let start = DownloadStateView::Fetch { key, cache_url, blob_key, forced: false };
    let e0 = DownloadEvent::Upstream(Ok(gone));
    let e1 = DownloadEvent::Resolver(ResolveEvent::Found(Ok(file)));
    let e2 = DownloadEvent::Resolver(ResolveEvent::Path(Ok(Some(fresh))));
    let e3 = DownloadEvent::Resolver(ResolveEvent::Saved(Ok(())));
    let e4 = DownloadEvent::Upstream(Ok(Upstream { status: 200, body: Some(body) }));
    let none = Seq::<DownloadEvent<B, C>>::empty();
    lemma_run_push(step, start, none, e0);
    lemma_run_push(step, start, none.push(e0), e1);
    lemma_run_push(step, start, none.push(e0).push(e1), e2);
    lemma_run_push(step, start, none.push(e0).push(e1).push(e2), e3);
    lemma_run_push(step, start, none.push(e0).push(e1).push(e2).push(e3), e4);
    assert(seq![e0, e1, e2, e3, e4] == none.push(e0).push(e1).push(e2).push(e3).push(e4));
    let actions = run(step, start, seq![e0, e1, e2, e3, e4]).1;
    assert(actions == seq![
        DownloadActionView::<B, C>::Resolver(ResolveActionView::Lookup { key }),
        DownloadActionView::Resolver(ResolveActionView::GetPath { file_id: file.file_id@ }),
        DownloadActionView::Resolver(
            ResolveActionView::SavePath { file_unique_id: file.file_unique_id@, file_path: fresh@ },
        ),
        fetch(download_url(h.bot_token, fresh@)),
        serve(body, blob_key, cache_url),
    ]);
}

/// One repair only: a download that finds nothing after a forced resolution
/// ends the request with the failure that the content is not found, and
/// nothing is asked for any more.
pub proof fn law_second_not_found_is_final<B, C>(
    h: HandlerView,
    key: Seq<char>,
    cache_url: Seq<char>,
    blob_key: Option<Seq<char>>,
    gone: Upstream<B>,
    later: Seq<DownloadEvent<B, C>>,
)
    requires
        gone.status == 404,
    ensures
        download_step(
            h,
            DownloadStateView::Fetch { key, cache_url, blob_key, forced: true },
            DownloadEvent::<B, C>::Upstream(Ok(gone)),
        ) == (DownloadStateView::Done, DownloadActionView::<B, C>::Fail(content_not_found())),
        fetches(download_run(h, DownloadStateView::Done, later).1) == 0,
        path_requests(download_run(h, DownloadStateView::Done, later).1) == 0,
        lookups(download_run(h, DownloadStateView::Done, later).1) == 0,
{
    lemma_done_is_final(h, later);
}

/// A repaired path is used: once a fresh path of the content of a record has
/// been handed to the store, a resolution by any key that finds the record
/// ends with the download URL of the fresh path, and asks the platform for
/// nothing.
pub proof fn law_repaired_path_is_used(
    s: D1View,
    token: Seq<char>,
    key: Seq<char>,
    fresh: Seq<char>,
)
    requires
        store_wf(s),
        got(s, key) is Ok,
        fresh.len() > 0,
    ensures
        ({
            let id = got(s, key)->Ok_0.file_unique_id;
            let after = path_saved(s, id, fresh).0;
            &&& got(after, key) is Ok
            &&& got(after, key)->Ok_0.file_unique_id == id
            &&& got(after, key)->Ok_0.file_path == fresh
            &&& resolve_found(token, false, got(after, key)->Ok_0) == (
                ResolveStateView::Done,
                ResolveActionView::Finish(Ok((download_url(token, fresh), id))),
            )
        }),
{
    law_saved_path_is_found(s, got(s, key)->Ok_0.file_unique_id, fresh, key);
}

/// One stream, handed on: the stream that the pipeline gives out as the
/// answer, and for copying to the two tiers, is the stream that it has just
/// been handed, by the blob store or by a download that succeeded; and a
/// response of the edge cache that it gives out is the response that it has
/// just been handed.
pub proof fn law_served_stream_is_the_stream_received<B, C>(
    h: HandlerView,
    state: DownloadStateView,
    event: DownloadEvent<B, C>,
)
    ensures
        download_step(h, state, event).1 matches DownloadActionView::Serve { body, blob_key, .. }
            ==> (event == DownloadEvent::<B, C>::Stored(Some(body)) && blob_key is None) || (
        event matches DownloadEvent::Upstream(Ok(answer)) && answer.status == 200 && answer.body
            == Some(body)),
        download_step(h, state, event).1 matches DownloadActionView::ServeCached(response)
            ==> event == DownloadEvent::<B, C>::Cached(Ok(Some(response))),
{
}

/// What the pipeline asks of the path resolver is a lookup, a path or an
/// update, never the end of a resolution: that it takes care of itself.
pub proof fn law_resolver_is_asked_requests_only<B, C>(
    h: HandlerView,
    state: DownloadStateView,
    event: DownloadEvent<B, C>,
)
    ensures
        download_step(h, state, event).1 matches DownloadActionView::Resolver(request)
            ==> !(request is Finish),
{
}

/// The credential stays where it belongs: two serving sides that differ in
/// nothing but the bot's credential stand in the same state after the same
/// step and ask for the same thing, except that the URLs of their downloads
/// may differ.
pub proof fn law_credential_only_in_download_url<B, C>(
    h1: HandlerView,
    h2: HandlerView,
    state: DownloadStateView,
    event: DownloadEvent<B, C>,
)
    requires
        h1.host == h2.host,
        h1.r2 == h2.r2,
    ensures
        ({
            let one = download_step(h1, state, event);
            let two = download_step(h2, state, event);
            &&& one.0 == two.0
            &&& one.1 is Fetch <==> two.1 is Fetch
            &&& !(one.1 is Fetch) ==> one.1 == two.1
        }),
{
}

/// The end of a request on an event that it did not ask for.
fn fail_unexpected<B, C>() -> (r: (DownloadState, DownloadAction<B, C>))
    ensures
        (r.0@, r.1@) == unexpected::<B, C>(),
{
    (DownloadState::Done, DownloadAction::Fail(Error::unexpected()))
}

/// The request to download from `url`.
fn fetch_action<B, C>(url: String) -> (a: DownloadAction<B, C>)
    ensures
        a@ == fetch::<B, C>(url@),
{
    DownloadAction::Fetch { url, ttl_status: String::from_str("200-299"), ttl_seconds: 31536000 }
}

/// The answer that streams `body` and copies it behind the answer.
fn serve_action<B, C>(body: B, blob_key: Option<String>, cache_url: String) -> (a: DownloadAction<
    B,
    C,
>)
    ensures
        a@ == serve::<B, C>(body, key_view(blob_key), cache_url@),
{
    DownloadAction::Serve {
        body,
        blob_key,
        cache_url,
        cache_control: String::from_str("public, max-age=31536000"),
    }
}

/// How a download with this answer ended, see [`download_result`].
fn classify<B>(answer: Upstream<B>) -> (r: Option<DownloadResult<B>>)
    ensures
        r == download_result(answer),
{
    if answer.status == 404 {
        Some(DownloadResult::NotFound)
    } else if answer.status == 200 {
        match answer.body {
            Some(body) => Some(DownloadResult::Stream(body)),
            None => None,
        }
    } else {
        None
    }
}

/// Splits a public name into identifier and extension.
pub fn split_name(name: &str) -> (parts: (String, String))
    ensures
        parts.0@ == name_stem(name@),
        parts.1@ == name_ext(name@),
{
    let v = chars_of(name);
    let dots = (v.len() == 1 && v[0] == '.') || (v.len() == 2 && v[0] == '.' && v[1] == '.');
    assert(dots == is_dots(name@)) by {
        if dots {
            assert(name@ =~= seq!['.'] || name@ =~= seq!['.', '.']);
        }
    }
    if dots {
        return (String::new(), String::new());
    }
    match find_last(&v, '.') {
        Some(i) => {
            if i == 0 {
                (string_of(&v, 0, v.len()), String::new())
            } else {
                (string_of(&v, 0, i), string_of(&v, i + 1, v.len()))
            }
        },
        None => (string_of(&v, 0, v.len()), String::new()),
    }
}

/// The key of a record's content in the durable blob store.
pub fn blob_key_of(file: &File) -> (key: String)
    ensures
        key@ == blob_key(file@),
{
    let mut key = file.file_unique_id.clone();
    let ext = get_ext(file.file_path.as_str());
    key.append(ext.as_str());
    key
}

/// What the pipeline makes of a step of the path resolver.
fn lift<B, C>(
    key: String,
    cache_url: String,
    blob_key: Option<String>,
    forced: bool,
    step: (ResolveState, ResolveAction),
) -> (r: (DownloadState, DownloadAction<B, C>))
    ensures
        (r.0@, r.1@) == after_resolver::<B, C>(
            key@,
            cache_url@,
            key_view(blob_key),
            forced,
            (step.0@, step.1@),
        ),
{
    let (inner, action) = step;
    match action {
        ResolveAction::Finish(Ok(found)) => (
            DownloadState::Fetch { key, cache_url, blob_key, forced },
            fetch_action(found.0),
        ),
        ResolveAction::Finish(Err(e)) => (DownloadState::Done, DownloadAction::Fail(e)),
        request => (
            DownloadState::Resolve { key, cache_url, blob_key, forced, inner },
            DownloadAction::Resolver(request),
        ),
    }
}

impl Handler {
    /// The serving side for `host`, with or without a durable blob store.
    pub fn new(host: String, r2: bool, bot: TgBot) -> (h: Handler)
        ensures
            h.host == host,
            h.r2 == r2,
            h.bot == bot,
    {
        Handler { host, r2, bot }
    }

    /// The page to which every other request is sent on.
    pub fn github_page() -> (url: String)
        ensures
            url@ == "https://github.com/Asutorufa/tg-image-hosting"@,
    {
        String::from_str("https://github.com/Asutorufa/tg-image-hosting")
    }

    /// The URL at which the platform is told to deliver updates.
    pub fn register(&self) -> (url: String)
        ensures
            url@ == webhook_url(self.host@),
    {
        let mut url = String::from_str("https://");
        url.append(self.host.as_str());
        url.append("/webhook");
        url
    }

    /// The URL that stands for the public name with these parts in the edge
    /// cache.
    fn cache_key(&self, stem: &str, ext: &str) -> (url: String)
        ensures
            url@ == "https://"@ + self.host@ + "/f/"@ + stem@ + "."@ + ext@,
    {
        let mut url = String::from_str("https://");
        url.append(self.host.as_str());
        url.append("/f/");
        url.append(stem);
        url.append(".");
        url.append(ext);
        url
    }

    /// One step of the serving of a request, see [`download_step`].
    pub fn download<B, C>(&self, state: DownloadState, event: DownloadEvent<B, C>) -> (r: (
        DownloadState,
        DownloadAction<B, C>,
    ))
        ensures
            (r.0@, r.1@) == download_step(self@, state@, event),
    {
        match (state, event) {
            (DownloadState::Start, DownloadEvent::Request { file_name: None }) => (
                DownloadState::Done,
                DownloadAction::Fail(Error::new(ErrorKind::NotFound, "file name is not found")),
            ),
            (DownloadState::Start, DownloadEvent::Request { file_name: Some(name) }) => {
                let (key, ext) = split_name(name.as_str());
                let cache_url = self.cache_key(key.as_str(), ext.as_str());
                let url = cache_url.clone();
                (DownloadState::Cache { key, cache_url }, DownloadAction::CheckCache { url })
            },
            (DownloadState::Cache { .. }, DownloadEvent::Cached(Ok(Some(response)))) => (
                DownloadState::Done,
                DownloadAction::ServeCached(response),
            ),
            (DownloadState::Cache { key, cache_url }, DownloadEvent::Cached(_)) => {
                let asked = key.clone();
                let step = self.bot.get_file_url(
                    ResolveState::Start,
                    ResolveEvent::Request { key: asked, force_refresh: false },
                );
                match step.1 {
                    ResolveAction::Finish(Err(e)) => (DownloadState::Done, DownloadAction::Fail(e)),
                    request => (
                        DownloadState::Lookup { key, cache_url },
                        DownloadAction::Resolver(request),
                    ),
                }
            },
            (
                DownloadState::Lookup { key, cache_url },
                DownloadEvent::Resolver(ResolveEvent::Found(Ok(file))),
            ) => {
                if self.r2 {
                    let blob = blob_key_of(&file);
                    (
                        DownloadState::Blob { key, cache_url, file },
                        DownloadAction::CheckBlob { key: blob },
                    )
                } else {
                    let step = self.bot.get_file_url(
                        ResolveState::Lookup { force_refresh: false },
                        ResolveEvent::Found(Ok(file)),
                    );
                    lift(key, cache_url, None, false, step)
                }
            },
            (
                DownloadState::Lookup { .. },
                DownloadEvent::Resolver(ResolveEvent::Found(Err(e))),
            ) => (DownloadState::Done, DownloadAction::Fail(e)),
            (DownloadState::Blob { key, cache_url, file }, DownloadEvent::Stored(held)) => {
                match held {
                    Some(body) => (DownloadState::Done, serve_action(body, None, cache_url)),
                    None => {
                        let blob = blob_key_of(&file);
                        let step = self.bot.get_file_url(
                            ResolveState::Lookup { force_refresh: false },
                            ResolveEvent::Found(Ok(file)),
                        );
                        lift(key, cache_url, Some(blob), false, step)
                    },
                }
            },
            (
                DownloadState::Resolve { key, cache_url, blob_key, forced, inner },
                DownloadEvent::Resolver(answer),
            ) => {
                match answer {
                    ResolveEvent::Request { .. } => fail_unexpected(),
                    answer => {
                        let step = self.bot.get_file_url(inner, answer);
                        lift(key, cache_url, blob_key, forced, step)
                    },
                }
            },
            (
                DownloadState::Fetch { key, cache_url, blob_key, forced },
                DownloadEvent::Upstream(Ok(answer)),
            ) => {
                let status = answer.status;
                match classify(answer) {
                    Some(DownloadResult::NotFound) => {
                        if forced {
                            (
                                DownloadState::Done,
                                DownloadAction::Fail(
                                    Error::new(ErrorKind::NotFound, "file not found"),
                                ),
                            )
                        } else {
                            let asked = key.clone();
                            let step = self.bot.get_file_url(
                                ResolveState::Start,
                                ResolveEvent::Request { key: asked, force_refresh: true },
                            );
                            lift(key, cache_url, blob_key, true, step)
                        }
                    },
                    Some(DownloadResult::Stream(body)) => (
                        DownloadState::Done,
                        serve_action(body, blob_key, cache_url),
                    ),
                    None => {
                        if status == 200 {
                            (
                                DownloadState::Done,
                                DownloadAction::Fail(
                                    Error::new(
                                        ErrorKind::StreamCastFailure,
                                        "body is not streamable",
                                    ),
                                ),
                            )
                        } else {
                            (DownloadState::Text { status }, DownloadAction::ReadText)
                        }
                    },
                }
            },
            (DownloadState::Fetch { .. }, DownloadEvent::Upstream(Err(e))) => (
                DownloadState::Done,
                DownloadAction::Fail(e),
            ),
            (DownloadState::Text { status }, DownloadEvent::Text(Ok(text))) => {
                let mut message = String::from_str("status code is not 200, but ");
                let code = decimal_string(status as u64);
                message.append(code.as_str());
                message.append(", ");
                message.append(text.as_str());
                (
                    DownloadState::Done,
                    DownloadAction::Fail(Error { kind: ErrorKind::UpstreamTransport, message }),
                )
            },
            (DownloadState::Text { .. }, DownloadEvent::Text(Err(e))) => (
                DownloadState::Done,
                DownloadAction::Fail(e),
            ),
            _ => fail_unexpected(),
        }
    }
}

} // verus!
