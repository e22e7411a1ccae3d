//! The messaging-platform side of the relay: reply text, download URLs, the
//! path resolver and the ingestion of inbound messages.
//!
//! Resolver and ingestion are step functions: they say what to ask of the
//! platform and of the store, and what to make of the answers.

use vstd::prelude::*;
use crate::error::{unexpected_event, Error, ErrorKind, ErrorView};
use crate::file::{message_files, File, FileView, Message};
use crate::machine::{
    count, lemma_run_budget, lemma_run_concat, lemma_run_len, lemma_run_push, run,
};
use crate::text::{chars_of, find_last, last_index_of, lemma_last_index_of, string_of};

verus! {

/// The characters that MarkdownV2 reserves.
pub open spec fn is_markdown_special(c: char) -> bool {
    c == '\\' || c == '_' || c == '*' || c == '[' || c == ']' || c == '(' || c == ')' || c == '~'
        || c == '`' || c == '>' || c == '#' || c == '+' || c == '-' || c == '=' || c == '|' || c
        == '{' || c == '}' || c == '.' || c == '!'
}

/// One character as it is written in escaped text: behind a backslash when
/// it is reserved, alone otherwise.
pub open spec fn escaped_char(c: char) -> Seq<char> {
    if is_markdown_special(c) {
        seq!['\\', c]
    } else {
        seq![c]
    }
}

/// `s` with a backslash in front of every reserved character.
pub open spec fn escaped(s: Seq<char>) -> Seq<char>
    decreases s.len(),
{
    if s.len() == 0 {
        Seq::empty()
    } else {
        escaped(s.drop_last()) + escaped_char(s.last())
    }
}

/// The extension that a download path carries: everything from its last dot
/// on, the dot included; empty when the path holds no dot.
pub open spec fn derived_ext(path: Seq<char>) -> Seq<char> {
    let i = last_index_of(path, '.');
    if i < 0 {
        Seq::empty()
    } else {
        path.subrange(i, path.len() as int)
    }
}

/// The extension of a path is the end of the path; it is empty exactly when
/// the path holds no dot, and otherwise begins with the only dot it holds.
pub proof fn law_derived_ext(path: Seq<char>)
    ensures
        derived_ext(path).len() <= path.len(),
        path.subrange(path.len() - derived_ext(path).len(), path.len() as int) == derived_ext(
            path,
        ),
        derived_ext(path).len() > 0 <==> path.contains('.'),
        derived_ext(path).len() > 0 ==> derived_ext(path)[0] == '.',
        forall|k: int| 0 < k < derived_ext(path).len() ==> derived_ext(path)[k] != '.',
{
    lemma_last_index_of(path, '.');
}

/// Whether MarkdownV2 reserves `c`.
fn is_special(c: char) -> (b: bool)
    ensures
        b == is_markdown_special(c),
{
    c == '\\' || c == '_' || c == '*' || c == '[' || c == ']' || c == '(' || c == ')' || c == '~'
        || c == '`' || c == '>' || c == '#' || c == '+' || c == '-' || c == '=' || c == '|' || c
        == '{' || c == '}' || c == '.' || c == '!'
}

/// Escapes `s` for MarkdownV2.
pub fn markdown_escape(s: &str) -> (out: String)
    ensures
        out@ == escaped(s@),
{
    let mut out = String::new();
    for c in it: s.chars()
        invariant
            it.seq() == s@,
            out@ == escaped(it.seq().take(it.index() as int)),
    {
        proof {
            let i = it.index() as int;
            assert(s@.take(i + 1).drop_last() == s@.take(i));
        }
        if is_special(c) {
            out.push('\\');
        }
        out.push(c);
    }
    assert(s@.take(s@.len() as int) == s@);
    out
}

/// The extension of a download path, see [`derived_ext`].
pub fn get_ext(path: &str) -> (ext: String)
    ensures
        ext@ == derived_ext(path@),
{
    let v = chars_of(path);
    match find_last(&v, '.') {
        Some(i) => string_of(&v, i, v.len()),
        None => String::new(),
    }
}

/// What an inbound update carries.
#[derive(Clone, Debug, PartialEq, Eq)]
pub enum UpdateContent {
    Message(Message),
    EditedMessage(Message),
    ChannelPost(Message),
    /// Any update that carries no message.
    Other,
}

/// A text message to send through the platform. Link previews are always
/// switched off.
#[derive(Clone, Debug, PartialEq, Eq)]
pub struct Reply {
    pub chat_id: i64,
    /// The message that this one answers, if any.
    pub reply_to: Option<i32>,
    pub text: String,
    /// Whether `text` is written in MarkdownV2.
    pub markdown: bool,
}

/// Mathematical view of a [`Reply`].
pub struct ReplyView {
    pub chat_id: i64,
    pub reply_to: Option<i32>,
    pub text: Seq<char>,
    pub markdown: bool,
}

impl View for Reply {
    type V = ReplyView;

    open spec fn view(&self) -> ReplyView {
        ReplyView {
            chat_id: self.chat_id,
            reply_to: self.reply_to,
            text: self.text@,
            markdown: self.markdown,
        }
    }
}

/// Where the handling of one inbound update stands.
#[derive(Clone, Debug, PartialEq, Eq)]
pub enum HandleState {
    /// The update has not been seen yet.
    Start,
    /// The download path of `files[next]` has been asked for.
    Paths { chat_id: i64, message_id: i32, files: Vec<File>, next: usize },
    /// The store has been asked to take `files`.
    Saving { chat_id: i64, message_id: i32, files: Vec<File> },
    /// The reply has been handed over for sending.
    Replying,
    /// Nothing is left to do.
    Done,
}

/// Mathematical view of a [`HandleState`].
pub enum HandleStateView {
    Start,
    Paths { chat_id: i64, message_id: i32, files: Seq<FileView>, next: nat },
    Saving { chat_id: i64, message_id: i32, files: Seq<FileView> },
    Replying,
    Done,
}

impl View for HandleState {
    type V = HandleStateView;

    open spec fn view(&self) -> HandleStateView {
        match *self {
            HandleState::Start => HandleStateView::Start,
            HandleState::Paths { chat_id, message_id, files, next } => HandleStateView::Paths {
                chat_id,
                message_id,
                files: files.deep_view(),
                next: next as nat,
            },
            HandleState::Saving { chat_id, message_id, files } => HandleStateView::Saving {
                chat_id,
                message_id,
                files: files.deep_view(),
            },
            HandleState::Replying => HandleStateView::Replying,
            HandleState::Done => HandleStateView::Done,
        }
    }
}

/// What the outside world reports back while an update is handled.
#[derive(Debug, PartialEq, Eq)]
pub enum HandleEvent {
    /// The update has arrived.
    Update(UpdateContent),
    /// The platform's answer to a request for a download path.
    Path(Result<Option<String>, Error>),
    /// The store's answer to a batch.
    Saved(Result<(), Error>),
    /// The platform's answer to a reply.
    Sent(Result<(), Error>),
}

/// What is to be done next for an update.
#[derive(Debug, PartialEq, Eq)]
pub enum HandleAction {
    /// Ask the platform for the download path of the content with this alias.
    GetPath { file_id: String },
    /// Hand these records to the store, as one batch.
    Save { files: Vec<File> },
    /// Send this reply.
    Send(Reply),
    /// Stop, with this outcome.
    Finish(Result<(), Error>),
}

/// Mathematical view of a [`HandleAction`].
pub enum HandleActionView {
    GetPath { file_id: Seq<char> },
    Save { files: Seq<FileView> },
    Send(ReplyView),
    Finish(Result<(), ErrorView>),
}

impl View for HandleAction {
    type V = HandleActionView;

    open spec fn view(&self) -> HandleActionView {
        match *self {
            HandleAction::GetPath { file_id } => HandleActionView::GetPath { file_id: file_id@ },
            HandleAction::Save { files } => HandleActionView::Save { files: files.deep_view() },
            HandleAction::Send(reply) => HandleActionView::Send(reply@),
            HandleAction::Finish(Ok(())) => HandleActionView::Finish(Ok(())),
            HandleAction::Finish(Err(e)) => HandleActionView::Finish(Err(e@)),
        }
    }
}

/// The message that an update carries, if it carries one.
pub open spec fn message_of(content: UpdateContent) -> Option<Message> {
    match content {
        UpdateContent::Message(m) => Some(m),
        UpdateContent::EditedMessage(m) => Some(m),
        UpdateContent::ChannelPost(m) => Some(m),
        UpdateContent::Other => None,
    }
}

/// The public URL of the content known as `id`, with extension `ext`.
pub open spec fn public_url(host: Seq<char>, id: Seq<char>, ext: Seq<char>) -> Seq<char> {
    "https://"@ + host + "/f/"@ + id + ext
}

/// The two lines that announce one record: its URL by alias, then its URL by
/// content identifier, both with the extension of its download path.
pub open spec fn file_links(host: Seq<char>, f: FileView) -> Seq<char> {
    public_url(host, f.file_id, derived_ext(f.file_path)) + seq!['\n'] + public_url(
        host,
        f.file_unique_id,
        derived_ext(f.file_path),
    ) + seq!['\n']
}

/// The lines that announce a batch of records, in the order of the batch.
pub open spec fn links_text(host: Seq<char>, files: Seq<FileView>) -> Seq<char>
    decreases files.len(),
{
    if files.len() == 0 {
        Seq::empty()
    } else {
        links_text(host, files.drop_last()) + file_links(host, files.last())
    }
}

/// The failure that answers an update without a message.
pub open spec fn unsupported_update() -> ErrorView {
    ErrorView { kind: ErrorKind::Unsupported, message: "no message supported"@ }
}

/// The failure that answers a platform without a path for an attachment.
pub open spec fn path_not_found() -> ErrorView {
    ErrorView { kind: ErrorKind::PathUnavailable, message: "File path not found"@ }
}

/// The text that reports the store's answer to a batch: the links of the
/// records when it took them, the failure's text otherwise.
pub open spec fn report_text(
    host: Seq<char>,
    files: Seq<FileView>,
    saved: Result<(), Error>,
) -> Seq<char> {
    match saved {
        Ok(_) => links_text(host, files),
        Err(e) => "Error: "@ + e.message@,
    }
}

/// What follows once the paths of `files[..next]` are known: the request for
/// the next path, the batch when none is missing, or nothing at all when the
/// message had no attachment.
pub open spec fn after_paths(
    chat_id: i64,
    message_id: i32,
    files: Seq<FileView>,
    next: nat,
) -> (HandleStateView, HandleActionView) {
    if next < files.len() {
        (
            HandleStateView::Paths { chat_id, message_id, files, next },
            HandleActionView::GetPath { file_id: files[next as int].file_id },
        )
    } else if files.len() == 0 {
        (HandleStateView::Done, HandleActionView::Finish(Ok(())))
    } else {
        (HandleStateView::Saving { chat_id, message_id, files }, HandleActionView::Save { files })
    }
}

/// One step of the handling of an inbound update: from where it stands and
/// what was reported, to where it stands next and what is to be done.
///
/// An update without a message fails. The attachments of a message get their
/// download paths one by one, in order; the first path that the platform
/// cannot give ends the handling. The batch then goes to the store, and the
/// sender is told the public URLs, or the store's failure. An event that the
/// pending request did not ask for ends the handling with a failure.
pub open spec fn handle_step(host: Seq<char>, state: HandleStateView, event: HandleEvent) -> (
    HandleStateView,
    HandleActionView,
) {
    match (state, event) {
        (HandleStateView::Start, HandleEvent::Update(content)) => match message_of(content) {
            Some(m) => after_paths(m.chat_id, m.message_id, message_files(m), 0),
            None => (HandleStateView::Done, HandleActionView::Finish(Err(unsupported_update()))),
        },
        (
            HandleStateView::Paths { chat_id, message_id, files, next },
            HandleEvent::Path(answer),
        ) => if next < files.len() {
            match answer {
                Ok(Some(path)) => after_paths(
                    chat_id,
                    message_id,
                    files.update(
                        next as int,
                        FileView { file_path: path@, ..files[next as int] },
                    ),
                    next + 1,
                ),
                Ok(None) => (
                    HandleStateView::Done,
                    HandleActionView::Finish(Err(path_not_found())),
                ),
                Err(e) => (HandleStateView::Done, HandleActionView::Finish(Err(e@))),
            }
        } else {
            (HandleStateView::Done, HandleActionView::Finish(Err(unexpected_event())))
        },
        (
            HandleStateView::Saving { chat_id, message_id, files },
            HandleEvent::Saved(saved),
        ) => (
            HandleStateView::Replying,
            HandleActionView::Send(
                ReplyView {
                    chat_id,
                    reply_to: Some(message_id),
                    text: escaped(report_text(host, files, saved)),
                    markdown: true,
                },
            ),
        ),
        (HandleStateView::Replying, HandleEvent::Sent(sent)) => (
            HandleStateView::Done,
            HandleActionView::Finish(
                match sent {
                    Ok(_) => Ok(()),
                    Err(e) => Err(e@),
                },
            ),
        ),
        _ => (HandleStateView::Done, HandleActionView::Finish(Err(unexpected_event()))),
    }
}

/// Where the resolution of one download location stands.
#[derive(Clone, Debug, PartialEq, Eq)]
pub enum ResolveState {
    /// No request has been seen yet.
    Start,
    /// The store has been asked for the record.
    Lookup { force_refresh: bool },
    /// The platform has been asked for a fresh path.
    Path { file_unique_id: String },
    /// The store has been asked to keep the fresh path.
    Saving { file_unique_id: String, file_path: String },
    /// Nothing is left to do.
    Done,
}

/// Mathematical view of a [`ResolveState`].
pub enum ResolveStateView {
    Start,
    Lookup { force_refresh: bool },
    Path { file_unique_id: Seq<char> },
    Saving { file_unique_id: Seq<char>, file_path: Seq<char> },
    Done,
}

impl View for ResolveState {
    type V = ResolveStateView;

    open spec fn view(&self) -> ResolveStateView {
        match *self {
            ResolveState::Start => ResolveStateView::Start,
            ResolveState::Lookup { force_refresh } => ResolveStateView::Lookup { force_refresh },
            ResolveState::Path { file_unique_id } => ResolveStateView::Path {
                file_unique_id: file_unique_id@,
            },
            ResolveState::Saving { file_unique_id, file_path } => ResolveStateView::Saving {
                file_unique_id: file_unique_id@,
                file_path: file_path@,
            },
            ResolveState::Done => ResolveStateView::Done,
        }
    }
}

/// What the outside world reports back while a location is resolved.
#[derive(Debug, PartialEq, Eq)]
pub enum ResolveEvent {
    /// A location is wanted for `key`, an alias or a content identifier.
    /// With `force_refresh` the cached path is not trusted.
    Request { key: String, force_refresh: bool },
    /// The store's answer to a lookup.
    Found(Result<File, Error>),
    /// The platform's answer to a request for a download path.
    Path(Result<Option<String>, Error>),
    /// The store's answer to the update of a path.
    Saved(Result<(), Error>),
}

/// What is to be done next to resolve a location.
#[derive(Debug, PartialEq, Eq)]
pub enum ResolveAction {
    /// Look the record up by alias or content identifier.
    Lookup { key: String },
    /// Ask the platform for the download path of the content with this alias.
    GetPath { file_id: String },
    /// Keep `file_path` as the download path of the content `file_unique_id`.
    SavePath { file_unique_id: String, file_path: String },
    /// Stop: with the download URL and the content identifier, or a failure.
    Finish(Result<(String, String), Error>),
}

/// Mathematical view of a [`ResolveAction`].
pub enum ResolveActionView {
    Lookup { key: Seq<char> },
    GetPath { file_id: Seq<char> },
    SavePath { file_unique_id: Seq<char>, file_path: Seq<char> },
    Finish(Result<(Seq<char>, Seq<char>), ErrorView>),
}

impl View for ResolveAction {
    type V = ResolveActionView;

    open spec fn view(&self) -> ResolveActionView {
        match *self {
            ResolveAction::Lookup { key } => ResolveActionView::Lookup { key: key@ },
            ResolveAction::GetPath { file_id } => ResolveActionView::GetPath { file_id: file_id@ },
            ResolveAction::SavePath { file_unique_id, file_path } => ResolveActionView::SavePath {
                file_unique_id: file_unique_id@,
                file_path: file_path@,
            },
            ResolveAction::Finish(Ok(found)) => ResolveActionView::Finish(
                Ok((found.0@, found.1@)),
            ),
            ResolveAction::Finish(Err(e)) => ResolveActionView::Finish(Err(e@)),
        }
    }
}

/// The URL under which the platform serves the content at `path` to the
/// holder of the credential `token`.
pub open spec fn download_url(token: Seq<char>, path: Seq<char>) -> Seq<char> {
    "https://api.telegram.org/file/bot"@ + token + "/"@ + path
}

/// The failure that answers a request without a key.
pub open spec fn empty_key() -> ErrorView {
    ErrorView { kind: ErrorKind::NotFound, message: "File id is empty"@ }
}

/// The failure that answers a platform without a path for the content.
pub open spec fn path_unavailable() -> ErrorView {
    ErrorView { kind: ErrorKind::PathUnavailable, message: "File path is empty"@ }
}

/// The failure that stands for a request for a download path that the
/// platform did not answer with a path: a path that is not to be had when the
/// platform refused the request, a failure on the way to it otherwise.
pub open spec fn path_request_failed(refused: bool, message: Seq<char>) -> ErrorView {
    ErrorView {
        kind: if refused {
            ErrorKind::PathUnavailable
        } else {
            ErrorKind::UpstreamTransport
        },
        message,
    }
}

/// The end of a resolution that knows the path `file_path`: the download URL
/// and the content identifier, or a failure when the path is empty.
pub open spec fn resolved(
    token: Seq<char>,
    file_unique_id: Seq<char>,
    file_path: Seq<char>,
) -> ResolveActionView {
    if file_path.len() == 0 {
        ResolveActionView::Finish(Err(path_unavailable()))
    } else {
        ResolveActionView::Finish(Ok((download_url(token, file_path), file_unique_id)))
    }
}

/// The first step of a resolution: an empty key fails at once, any other is
/// looked up.
pub open spec fn resolve_request(key: Seq<char>, force_refresh: bool) -> (
    ResolveStateView,
    ResolveActionView,
) {
    if key.len() == 0 {
        (ResolveStateView::Done, ResolveActionView::Finish(Err(empty_key())))
    } else {
        (ResolveStateView::Lookup { force_refresh }, ResolveActionView::Lookup { key })
    }
}

/// The step of a resolution that has found the record `file`: its cached
/// path is used as it is unless it is empty or a refresh is forced; then the
/// platform is asked.
pub open spec fn resolve_found(token: Seq<char>, force_refresh: bool, file: FileView) -> (
    ResolveStateView,
    ResolveActionView,
) {
    if force_refresh || file.file_path.len() == 0 {
        (
            ResolveStateView::Path { file_unique_id: file.file_unique_id },
            ResolveActionView::GetPath { file_id: file.file_id },
        )
    } else {
        (ResolveStateView::Done, resolved(token, file.file_unique_id, file.file_path))
    }
}

/// One step of the resolution of a download location.
///
/// An empty key fails at once. Otherwise the record is looked up, and a
/// failed lookup ends the resolution with the store's failure. The cached
/// path of the record is used as it is unless it is empty or a refresh is
/// forced; then the platform is asked once, its path is handed to the store
/// and only then returned. A platform without a path, or with an empty one,
/// ends the resolution with a failure, as does any failure of the platform
/// or the store and any event that the pending request did not ask for.
pub open spec fn resolve_step(token: Seq<char>, state: ResolveStateView, event: ResolveEvent) -> (
    ResolveStateView,
    ResolveActionView,
) {
    match (state, event) {
        (ResolveStateView::Start, ResolveEvent::Request { key, force_refresh }) => resolve_request(
            key@,
            force_refresh,
        ),
        (
            ResolveStateView::Lookup { force_refresh },
            ResolveEvent::Found(Ok(file)),
        ) => resolve_found(token, force_refresh, file@),
        (ResolveStateView::Lookup { .. }, ResolveEvent::Found(Err(e))) => (
            ResolveStateView::Done,
            ResolveActionView::Finish(Err(e@)),
        ),
        (ResolveStateView::Path { file_unique_id }, ResolveEvent::Path(Ok(Some(path)))) => (
            ResolveStateView::Saving { file_unique_id, file_path: path@ },
            ResolveActionView::SavePath { file_unique_id, file_path: path@ },
        ),
        (ResolveStateView::Path { .. }, ResolveEvent::Path(Ok(None))) => (
            ResolveStateView::Done,
            ResolveActionView::Finish(Err(path_unavailable())),
        ),
        (ResolveStateView::Path { .. }, ResolveEvent::Path(Err(e))) => (
            ResolveStateView::Done,
            ResolveActionView::Finish(Err(e@)),
        ),
        (ResolveStateView::Saving { file_unique_id, file_path }, ResolveEvent::Saved(Ok(_))) => (
            ResolveStateView::Done,
            resolved(token, file_unique_id, file_path),
        ),
        (ResolveStateView::Saving { .. }, ResolveEvent::Saved(Err(e))) => (
            ResolveStateView::Done,
            ResolveActionView::Finish(Err(e@)),
        ),
        _ => (ResolveStateView::Done, ResolveActionView::Finish(Err(unexpected_event()))),
    }
}

/// The step function of the handling of updates for the public host `host`.
pub open spec fn handle_machine(host: Seq<char>) -> spec_fn(HandleStateView, HandleEvent) -> (
    HandleStateView,
    HandleActionView,
) {
    |s: HandleStateView, e: HandleEvent| handle_step(host, s, e)
}

/// Where the handling of an update stands after `events`, from `start`, and
/// what it asked for on the way, in order.
pub open spec fn handle_run(host: Seq<char>, start: HandleStateView, events: Seq<HandleEvent>) -> (
    HandleStateView,
    Seq<HandleActionView>,
) {
    run(handle_machine(host), start, events)
}

/// The states in which the handling of an update can stand: a path is asked
/// for one of at most three records.
pub open spec fn handle_reachable(s: HandleStateView) -> bool {
    match s {
        HandleStateView::Paths { files, next, .. } => next < files.len() <= 3,
        _ => true,
    }
}

/// How many paths the handling of an update can have asked for when it
/// stands in `s`.
pub open spec fn handle_path_budget(s: HandleStateView) -> nat {
    match s {
        HandleStateView::Start => 0,
        HandleStateView::Paths { next, .. } => next + 1,
        _ => 3,
    }
}

/// How many batches the handling of an update can have handed to the store
/// when it stands in `s`.
pub open spec fn handle_save_budget(s: HandleStateView) -> nat {
    match s {
        HandleStateView::Start => 0,
        HandleStateView::Paths { .. } => 0,
        _ => 1,
    }
}

/// How many replies the handling of an update can have sent when it stands
/// in `s`.
pub open spec fn handle_send_budget(s: HandleStateView) -> nat {
    match s {
        HandleStateView::Replying => 1,
        HandleStateView::Done => 1,
        _ => 0,
    }
}

/// A step of the handling of an update leads from a reachable state to a
/// reachable state, and what it asks for is within what the state it leads
/// to allows.
proof fn lemma_handle_step_budget(host: Seq<char>, s: HandleStateView, e: HandleEvent)
    requires
        handle_reachable(s),
    ensures
        handle_reachable(handle_step(host, s, e).0),
        handle_path_budget(handle_step(host, s, e).0) >= handle_path_budget(s) + if handle_step(
            host,
            s,
            e,
        ).1 is GetPath {
            1nat
        } else {
            0nat
        },
        handle_save_budget(handle_step(host, s, e).0) >= handle_save_budget(s) + if handle_step(
            host,
            s,
            e,
        ).1 is Save {
            1nat
        } else {
            0nat
        },
        handle_send_budget(handle_step(host, s, e).0) >= handle_send_budget(s) + if handle_step(
            host,
            s,
            e,
        ).1 is Send {
            1nat
        } else {
            0nat
        },
{
}

/// One batch, one reply: whatever is reported back, in whatever order, the
/// handling of one update asks the platform for at most three paths, hands
/// at most one batch to the store and sends at most one reply.
pub proof fn law_handle_bounded(host: Seq<char>, events: Seq<HandleEvent>)
    ensures
        count(
            handle_run(host, HandleStateView::Start, events).1,
            |a: HandleActionView| a is GetPath,
        ) <= 3,
        count(handle_run(host, HandleStateView::Start, events).1, |a: HandleActionView| a is Save)
            <= 1,
        count(handle_run(host, HandleStateView::Start, events).1, |a: HandleActionView| a is Send)
            <= 1,
{
    let step = handle_machine(host);
    let good = |s: HandleStateView| handle_reachable(s);
    let paths = |s: HandleStateView| handle_path_budget(s);
    let saves = |s: HandleStateView| handle_save_budget(s);
    let sends = |s: HandleStateView| handle_send_budget(s);
    let is_path = |a: HandleActionView| a is GetPath;
    let is_save = |a: HandleActionView| a is Save;
    let is_send = |a: HandleActionView| a is Send;
    assert forall|s: HandleStateView, e: HandleEvent| good(s) implies good(
        (#[trigger] step(s, e)).0,
    ) && paths(step(s, e).0) >= paths(s) + if is_path(step(s, e).1) {
        1nat
    } else {
        0nat
    } && saves(step(s, e).0) >= saves(s) + if is_save(step(s, e).1) {
        1nat
    } else {
        0nat
    } && sends(step(s, e).0) >= sends(s) + if is_send(step(s, e).1) {
        1nat
    } else {
        0nat
    } by {
        lemma_handle_step_budget(host, s, e);
    }
    lemma_run_budget(step, HandleStateView::Start, events, good, paths, is_path);
    lemma_run_budget(step, HandleStateView::Start, events, good, saves, is_save);
    lemma_run_budget(step, HandleStateView::Start, events, good, sends, is_send);
}

/// The events that report the paths `paths`, one after the other.
pub open spec fn path_answers(paths: Seq<String>) -> Seq<HandleEvent> {
    paths.map_values(|p: String| HandleEvent::Path(Ok(Some(p))))
}

/// `files` with the download paths `paths` set, record by record from the
/// first on; records beyond the paths stay as they are.
pub open spec fn with_paths(files: Seq<FileView>, paths: Seq<String>) -> Seq<FileView> {
    Seq::new(
        files.len(),
        |i: int|
            if i < paths.len() {
                FileView { file_path: paths[i]@, ..files[i] }
            } else {
                files[i]
            },
    )
}

/// Where the handling of a message with attachments stands after the paths
/// of its first `k` records have been reported.
proof fn lemma_paths_progress(host: Seq<char>, content: UpdateContent, paths: Seq<String>, k: nat)
    requires
        message_of(content) is Some,
        paths.len() == message_files(message_of(content)->0).len(),
        0 < paths.len(),
        k <= paths.len(),
    ensures
        ({
            let m = message_of(content)->0;
            let records = message_files(m);
            let events = seq![HandleEvent::Update(content)] + path_answers(paths.take(k as int));
            let reached = handle_run(host, HandleStateView::Start, events);
            let files = with_paths(records, paths.take(k as int));
            &&& reached.1.len() == k + 1
            &&& k < paths.len() ==> reached.0 == (HandleStateView::Paths {
                chat_id: m.chat_id,
                message_id: m.message_id,
                files,
                next: k,
            }) && reached.1.last() == (HandleActionView::GetPath {
                file_id: records[k as int].file_id,
            })
            &&& k == paths.len() ==> reached.0 == (HandleStateView::Saving {
                chat_id: m.chat_id,
                message_id: m.message_id,
                files,
            }) && reached.1.last() == (HandleActionView::Save { files })
        }),
    decreases k,
{
    let step = handle_machine(host);
    let m = message_of(content)->0;
    let records = message_files(m);
    let first = seq![HandleEvent::Update(content)];
    if k == 0 {
        assert(first + path_answers(paths.take(0)) =~= Seq::<HandleEvent>::empty().push(
            HandleEvent::Update(content),
        ));
        lemma_run_push(
            step,
            HandleStateView::Start,
            Seq::<HandleEvent>::empty(),
            HandleEvent::Update(content),
        );
        assert(with_paths(records, paths.take(0)) =~= records);
    } else {
        let before = (k - 1) as nat;
        lemma_paths_progress(host, content, paths, before);
        let answer = HandleEvent::Path(Ok(Some(paths[before as int])));
        let earlier = first + path_answers(paths.take(before as int));
        assert(first + path_answers(paths.take(k as int)) =~= earlier.push(answer));
        lemma_run_push(step, HandleStateView::Start, earlier, answer);
        let held = with_paths(records, paths.take(before as int));
        assert(held.update(
            before as int,
            FileView { file_path: paths[before as int]@, ..held[before as int] },
        ) =~= with_paths(records, paths.take(k as int)));
    }
}

/// The full batch, once: when the platform reports a path for every record
/// of a message, each record is asked for in order, by its alias, and the
/// one batch that goes to the store holds every record of the message with
/// the path reported for it.
pub proof fn law_batch_holds_every_record_with_its_path(
    host: Seq<char>,
    content: UpdateContent,
    paths: Seq<String>,
)
    requires
        message_of(content) is Some,
        paths.len() == message_files(message_of(content)->0).len(),
        0 < paths.len(),
    ensures
        ({
            let m = message_of(content)->0;
            let records = message_files(m);
            let events = seq![HandleEvent::Update(content)] + path_answers(paths);
            let reached = handle_run(host, HandleStateView::Start, events);
            &&& reached.1.len() == paths.len() + 1
            &&& forall|k: int|
                0 <= k < paths.len() ==> #[trigger] reached.1[k] == (HandleActionView::GetPath {
                    file_id: records[k].file_id,
                })
            &&& reached.1.last() == (HandleActionView::Save { files: with_paths(records, paths) })
            &&& reached.0 == (HandleStateView::Saving {
                chat_id: m.chat_id,
                message_id: m.message_id,
                files: with_paths(records, paths),
            })
        }),
{
    let step = handle_machine(host);
    let m = message_of(content)->0;
    let records = message_files(m);
    let first = seq![HandleEvent::Update(content)];
    let events = first + path_answers(paths);
    let reached = handle_run(host, HandleStateView::Start, events);
    assert(paths.take(paths.len() as int) =~= paths);
    lemma_paths_progress(host, content, paths, paths.len());
    assert forall|k: int| 0 <= k < paths.len() implies #[trigger] reached.1[k] == (
    HandleActionView::GetPath { file_id: records[k].file_id }) by {
        lemma_paths_progress(host, content, paths, k as nat);
        let head = first + path_answers(paths.take(k));
        let tail = path_answers(paths).subrange(k, paths.len() as int);
        assert(events =~= head + tail);
        lemma_run_concat(step, HandleStateView::Start, head, tail);
        lemma_run_len(step, HandleStateView::Start, head);
        let part = run(step, HandleStateView::Start, head);
    }
}

/// A message without attachments is handled by doing nothing: nothing is
/// asked of the platform, nothing is saved, nothing is sent.
pub proof fn law_empty_message_is_no_op(host: Seq<char>, content: UpdateContent)
    requires
        message_of(content) is Some,
        message_files(message_of(content)->0).len() == 0,
    ensures
        handle_step(host, HandleStateView::Start, HandleEvent::Update(content)) == (
            HandleStateView::Done,
            HandleActionView::Finish(Ok(())),
        ),
{
}

/// The step function of the path resolver with the credential `token`.
pub open spec fn resolve_machine(token: Seq<char>) -> spec_fn(ResolveStateView, ResolveEvent) -> (
    ResolveStateView,
    ResolveActionView,
) {
    |s: ResolveStateView, e: ResolveEvent| resolve_step(token, s, e)
}

/// Where a resolution stands after `events`, from `start`, and what it asked
/// for on the way, in order.
pub open spec fn resolve_run(
    token: Seq<char>,
    start: ResolveStateView,
    events: Seq<ResolveEvent>,
) -> (ResolveStateView, Seq<ResolveActionView>) {
    run(resolve_machine(token), start, events)
}

/// How far a resolution has come when it stands in `s`: one more for each of
/// lookup, request to the platform and update of the store.
pub open spec fn resolve_progress(s: ResolveStateView) -> nat {
    match s {
        ResolveStateView::Start => 0,
        ResolveStateView::Lookup { .. } => 1,
        ResolveStateView::Path { .. } => 2,
        ResolveStateView::Saving { .. } => 3,
        ResolveStateView::Done => 3,
    }
}

/// One attempt: whatever is reported back, in whatever order, one resolution
/// looks the record up at most once, asks the platform for at most one path
/// and hands at most one path to the store.
pub proof fn law_resolve_bounded(token: Seq<char>, events: Seq<ResolveEvent>)
    ensures
        count(
            resolve_run(token, ResolveStateView::Start, events).1,
            |a: ResolveActionView| a is Lookup,
        ) <= 1,
        count(
            resolve_run(token, ResolveStateView::Start, events).1,
            |a: ResolveActionView| a is GetPath,
        ) <= 1,
        count(
            resolve_run(token, ResolveStateView::Start, events).1,
            |a: ResolveActionView| a is SavePath,
        ) <= 1,
{
    let step = resolve_machine(token);
    let any = |s: ResolveStateView| true;
    lemma_run_budget(
        step,
        ResolveStateView::Start,
        events,
        any,
        |s: ResolveStateView| if resolve_progress(s) >= 1 {
            1nat
        } else {
            0nat
        },
        |a: ResolveActionView| a is Lookup,
    );
    lemma_run_budget(
        step,
        ResolveStateView::Start,
        events,
        any,
        |s: ResolveStateView| if resolve_progress(s) >= 2 {
            1nat
        } else {
            0nat
        },
        |a: ResolveActionView| a is GetPath,
    );
    lemma_run_budget(
        step,
        ResolveStateView::Start,
        events,
        any,
        |s: ResolveStateView| if resolve_progress(s) >= 3 {
            1nat
        } else {
            0nat
        },
        |a: ResolveActionView| a is SavePath,
    );
}

/// Persisted before returned: whatever the platform answers to a request for
/// a path, the resolution does not end with a download URL at that step. It
/// ends with a failure, or hands the path to the store; and the URL that it
/// returns once the store has taken the path is the URL of that path.
pub proof fn law_fresh_path_is_persisted_first(
    token: Seq<char>,
    file_unique_id: Seq<char>,
    answer: ResolveEvent,
)
    ensures
        ({
            let asked = resolve_step(token, ResolveStateView::Path { file_unique_id }, answer);
            let taken = resolve_step(token, asked.0, ResolveEvent::Saved(Ok(())));
            &&& !(asked.1 matches ResolveActionView::Finish(Ok(_)))
            &&& asked.1 matches ResolveActionView::SavePath { file_unique_id: id, file_path }
                ==> id == file_unique_id && taken.0 == ResolveStateView::Done && taken.1
                == resolved(token, file_unique_id, file_path)
        }),
{
}

/// The message that tells the maintainer, in chat `matainer`, that updates
/// now go to `url`.
pub open spec fn webhook_notice(matainer: i64, url: Seq<char>) -> ReplyView {
    ReplyView {
        chat_id: matainer,
        reply_to: None,
        text: "register webhook to "@ + url + " successful"@,
        markdown: false,
    }
}

/// The bot's identity on the messaging platform.
#[derive(Clone, Debug, PartialEq, Eq)]
pub struct TgBot {
    /// The chat to which the bot reports to its maintainer.
    pub matainer: i64,
    /// The credential of the bot. It goes into download URLs and nowhere else.
    pub bot_token: String,
}

/// The failure of a request for a download path, see
/// [`path_request_failed`].
pub fn path_failure(refused: bool, message: &str) -> (e: Error)
    ensures
        e@ == path_request_failed(refused, message@),
{
    if refused {
        Error::new(ErrorKind::PathUnavailable, message)
    } else {
        Error::new(ErrorKind::UpstreamTransport, message)
    }
}

/// Appends the two lines that announce `f`.
fn push_links(out: &mut String, host: &str, f: &File)
    ensures
        final(out)@ == old(out)@ + file_links(host@, f@),
{
    let ext = get_ext(f.file_path.as_str());
    out.append("https://");
    out.append(host);
    out.append("/f/");
    out.append(f.file_id.as_str());
    out.append(ext.as_str());
    out.push('\n');
    out.append("https://");
    out.append(host);
    out.append("/f/");
    out.append(f.file_unique_id.as_str());
    out.append(ext.as_str());
    out.push('\n');
}

/// The lines that announce `files`.
fn links(host: &str, files: &Vec<File>) -> (out: String)
    ensures
        out@ == links_text(host@, files.deep_view()),
{
    let mut out = String::new();
    let mut i: usize = 0;
    while i < files.len()
        invariant
            i <= files.len(),
            out@ == links_text(host@, files.deep_view().take(i as int)),
        decreases files.len() - i,
    {
        proof {
            let views = files.deep_view();
            assert(views.take(i + 1).drop_last() == views.take(i as int));
        }
        push_links(&mut out, host, &files[i]);
        i = i + 1;
    }
    assert(files.deep_view().take(files.len() as int) == files.deep_view());
    out
}

/// What follows once the paths of `files[..next]` are known.
fn continue_paths(chat_id: i64, message_id: i32, files: Vec<File>, next: usize) -> (r: (
    HandleState,
    HandleAction,
))
    ensures
        (r.0@, r.1@) == after_paths(chat_id, message_id, files.deep_view(), next as nat),
{
    if next < files.len() {
        let file_id = files[next].file_id.clone();
        (HandleState::Paths { chat_id, message_id, files, next }, HandleAction::GetPath { file_id })
    } else if files.len() == 0 {
        (HandleState::Done, HandleAction::Finish(Ok(())))
    } else {
        let batch = files.clone();
        assert(batch.deep_view() =~= files.deep_view());
        (HandleState::Saving { chat_id, message_id, files }, HandleAction::Save { files: batch })
    }
}

impl TgBot {
    /// The bot that reports to chat `matainer` and signs with `bot_token`.
    pub fn new(matainer: i64, bot_token: String) -> (bot: TgBot)
        ensures
            bot.matainer == matainer,
            bot.bot_token == bot_token,
    {
        TgBot { matainer, bot_token }
    }

    /// The chat to which the bot reports to its maintainer.
    pub fn matainer_id(&self) -> (id: i64)
        ensures
            id == self.matainer,
    {
        self.matainer
    }

    /// One step of the handling of an inbound update, see [`handle_step`].
    /// `host` is the public host under which content is served.
    pub fn handle(&self, host: &str, state: HandleState, event: HandleEvent) -> (r: (
        HandleState,
        HandleAction,
    ))
        ensures
            (r.0@, r.1@) == handle_step(host@, state@, event),
    {
        match (state, event) {
            (HandleState::Start, HandleEvent::Update(content)) => {
                let msg = match content {
                    UpdateContent::Message(m) => m,
                    UpdateContent::EditedMessage(m) => m,
                    UpdateContent::ChannelPost(m) => m,
                    UpdateContent::Other => {
                        return (
                            HandleState::Done,
                            HandleAction::Finish(
                                Err(Error::new(ErrorKind::Unsupported, "no message supported")),
                            ),
                        );
                    },
                };
                let files = File::from_message(&msg);
                continue_paths(msg.chat_id, msg.message_id, files, 0)
            },
            (
                HandleState::Paths { chat_id, message_id, files, next },
                HandleEvent::Path(answer),
            ) => {
                if next < files.len() {
                    match answer {
                        Ok(Some(path)) => {
                            let mut files = files;
                            let ghost before = files.deep_view();
                            let resolved = files[next].clone().with_file_path(path);
                            files.set(next, resolved);
                            assert(files.deep_view() =~= before.update(
                                next as int,
                                FileView { file_path: path@, ..before[next as int] },
                            ));
                            continue_paths(chat_id, message_id, files, next + 1)
                        },
                        Ok(None) => (
                            HandleState::Done,
                            HandleAction::Finish(
                                Err(Error::new(ErrorKind::PathUnavailable, "File path not found")),
                            ),
                        ),
                        Err(e) => (HandleState::Done, HandleAction::Finish(Err(e))),
                    }
                } else {
                    (HandleState::Done, HandleAction::Finish(Err(Error::unexpected())))
                }
            },
            (HandleState::Saving { chat_id, message_id, files }, HandleEvent::Saved(saved)) => {
                let report = match &saved {
                    Ok(_) => links(host, &files),
                    Err(e) => {
                        let mut text = String::from_str("Error: ");
                        text.append(e.message.as_str());
                        text
                    },
                };
                let text = markdown_escape(report.as_str());
                (
                    HandleState::Replying,
                    HandleAction::Send(
                        Reply { chat_id, reply_to: Some(message_id), text, markdown: true },
                    ),
                )
            },
            (HandleState::Replying, HandleEvent::Sent(sent)) => (
                HandleState::Done,
                HandleAction::Finish(sent),
            ),
            _ => (HandleState::Done, HandleAction::Finish(Err(Error::unexpected()))),
        }
    }

    /// The message that tells the maintainer that updates now go to `url`.
    pub fn set_webhook(&self, url: &str) -> (notice: Reply)
        ensures
            notice@ == webhook_notice(self.matainer, url@),
    {
        let mut text = String::from_str("register webhook to ");
        text.append(url);
        text.append(" successful");
        Reply { chat_id: self.matainer, reply_to: None, text, markdown: false }
    }

    /// The end of a resolution that knows the path `file_path`.
    fn finish_resolved(&self, file_unique_id: String, file_path: String) -> (a: ResolveAction)
        ensures
            a@ == resolved(self.bot_token@, file_unique_id@, file_path@),
    {
        if file_path.as_str().is_empty() {
            ResolveAction::Finish(
                Err(Error::new(ErrorKind::PathUnavailable, "File path is empty")),
            )
        } else {
            let mut url = String::from_str("https://api.telegram.org/file/bot");
            url.append(self.bot_token.as_str());
            url.append("/");
            url.append(file_path.as_str());
            ResolveAction::Finish(Ok((url, file_unique_id)))
        }
    }

    /// One step of the resolution of a download location, see
    /// [`resolve_step`].
    pub fn get_file_url(&self, state: ResolveState, event: ResolveEvent) -> (r: (
        ResolveState,
        ResolveAction,
    ))
        ensures
            (r.0@, r.1@) == resolve_step(self.bot_token@, state@, event),
    {
        match (state, event) {
            (ResolveState::Start, ResolveEvent::Request { key, force_refresh }) => {
                if key.as_str().is_empty() {
                    (
                        ResolveState::Done,
                        ResolveAction::Finish(
                            Err(Error::new(ErrorKind::NotFound, "File id is empty")),
                        ),
                    )
                } else {
                    (ResolveState::Lookup { force_refresh }, ResolveAction::Lookup { key })
                }
            },
            (ResolveState::Lookup { force_refresh }, ResolveEvent::Found(Ok(file))) => {
                if force_refresh || file.file_path.as_str().is_empty() {
                    (
                        ResolveState::Path { file_unique_id: file.file_unique_id },
                        ResolveAction::GetPath { file_id: file.file_id },
                    )
                } else {
                    (
                        ResolveState::Done,
                        self.finish_resolved(file.file_unique_id, file.file_path),
                    )
                }
            },
            (ResolveState::Lookup { .. }, ResolveEvent::Found(Err(e))) => (
                ResolveState::Done,
                ResolveAction::Finish(Err(e)),
            ),
            (ResolveState::Path { file_unique_id }, ResolveEvent::Path(Ok(Some(path)))) => {
                let kept = file_unique_id.clone();
                let file_path = path.clone();
                (
                    ResolveState::Saving { file_unique_id, file_path: path },
                    ResolveAction::SavePath { file_unique_id: kept, file_path },
                )
            },
            (ResolveState::Path { .. }, ResolveEvent::Path(Ok(None))) => (
                ResolveState::Done,
                ResolveAction::Finish(
                    Err(Error::new(ErrorKind::PathUnavailable, "File path is empty")),
                ),
            ),
            (ResolveState::Path { .. }, ResolveEvent::Path(Err(e))) => (
                ResolveState::Done,
                ResolveAction::Finish(Err(e)),
            ),
            (ResolveState::Saving { file_unique_id, file_path }, ResolveEvent::Saved(Ok(_))) => (
                ResolveState::Done,
                self.finish_resolved(file_unique_id, file_path),
            ),
            (ResolveState::Saving { .. }, ResolveEvent::Saved(Err(e))) => (
                ResolveState::Done,
                ResolveAction::Finish(Err(e)),
            ),
            _ => (ResolveState::Done, ResolveAction::Finish(Err(Error::unexpected()))),
        }
    }
}

} // verus!
