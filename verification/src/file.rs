//! The metadata record of one attachment, and how records are read off an
//! inbound message.

use vstd::prelude::*;

verus! {

/// Metadata of one attachment.
///
/// `file_unique_id` identifies the content and never changes; `file_id` is
/// the platform's alias for it and may rotate; `file_path` caches the
/// platform's download path and is empty while no path is known.
#[derive(Debug, PartialEq, Eq)]
pub struct File {
    pub file_id: String,
    pub file_unique_id: String,
    pub thumbnail_file_id: String,
    pub thumbnail_file_unique_id: String,
    pub message_id: i32,
    pub user_id: u64,
    pub file_name: String,
    pub file_size: u64,
    pub mime_type: String,
    pub add_time: i64,
    pub update_time: i64,
    pub file_path: String,
}

/// Mathematical view of a [`File`]: every text field as its characters.
pub struct FileView {
    pub file_id: Seq<char>,
    pub file_unique_id: Seq<char>,
    pub thumbnail_file_id: Seq<char>,
    pub thumbnail_file_unique_id: Seq<char>,
    pub message_id: i32,
    pub user_id: u64,
    pub file_name: Seq<char>,
    pub file_size: u64,
    pub mime_type: Seq<char>,
    pub add_time: i64,
    pub update_time: i64,
    pub file_path: Seq<char>,
}

impl View for File {
    type V = FileView;

    open spec fn view(&self) -> FileView {
        FileView {
            file_id: self.file_id@,
            file_unique_id: self.file_unique_id@,
            thumbnail_file_id: self.thumbnail_file_id@,
            thumbnail_file_unique_id: self.thumbnail_file_unique_id@,
            message_id: self.message_id,
            user_id: self.user_id,
            file_name: self.file_name@,
            file_size: self.file_size,
            mime_type: self.mime_type@,
            add_time: self.add_time,
            update_time: self.update_time,
            file_path: self.file_path@,
        }
    }
}

impl DeepView for File {
    type V = FileView;

    open spec fn deep_view(&self) -> FileView {
        self@
    }
}

impl Clone for File {
    fn clone(&self) -> (res: Self)
        ensures
            res == *self,
    {
        File {
            file_id: self.file_id.clone(),
            file_unique_id: self.file_unique_id.clone(),
            thumbnail_file_id: self.thumbnail_file_id.clone(),
            thumbnail_file_unique_id: self.thumbnail_file_unique_id.clone(),
            message_id: self.message_id,
            user_id: self.user_id,
            file_name: self.file_name.clone(),
            file_size: self.file_size,
            mime_type: self.mime_type.clone(),
            add_time: self.add_time,
            update_time: self.update_time,
            file_path: self.file_path.clone(),
        }
    }
}

/// One size of a photo, or the preview image of another attachment.
#[derive(Clone, Debug, PartialEq, Eq)]
pub struct PhotoSize {
    pub file_id: String,
    pub file_unique_id: String,
    pub file_size: Option<u64>,
}

/// A general file attached to a message.
#[derive(Clone, Debug, PartialEq, Eq)]
pub struct Document {
    pub file_id: String,
    pub file_unique_id: String,
    pub thumbnail: Option<PhotoSize>,
    pub file_name: Option<String>,
    pub mime_type: Option<String>,
    pub file_size: Option<u64>,
}

/// A video attached to a message.
#[derive(Clone, Debug, PartialEq, Eq)]
pub struct Video {
    pub file_id: String,
    pub file_unique_id: String,
    pub thumbnail: Option<PhotoSize>,
    pub file_name: Option<String>,
    pub mime_type: Option<String>,
    pub file_size: Option<u64>,
}

/// What the relay reads of an inbound message.
#[derive(Clone, Debug, PartialEq, Eq)]
pub struct Message {
    pub message_id: i32,
    pub chat_id: i64,
    /// The sender's id, when the message names a sender.
    pub user_id: Option<u64>,
    pub document: Option<Document>,
    /// The available sizes of a photo, smallest first.
    pub photo: Option<Vec<PhotoSize>>,
    pub video: Option<Video>,
}

/// The characters of an optional text, empty when it is absent.
pub open spec fn text_or_empty(s: Option<String>) -> Seq<char> {
    match s {
        Some(t) => t@,
        None => Seq::empty(),
    }
}

/// The alias of an optional preview image, empty when there is none.
pub open spec fn thumbnail_id(t: Option<PhotoSize>) -> Seq<char> {
    match t {
        Some(p) => p.file_id@,
        None => Seq::empty(),
    }
}

/// The content identifier of an optional preview image, empty when there is none.
pub open spec fn thumbnail_unique_id(t: Option<PhotoSize>) -> Seq<char> {
    match t {
        Some(p) => p.file_unique_id@,
        None => Seq::empty(),
    }
}

/// An optional size, zero when it is absent.
pub open spec fn size_or_zero(n: Option<u64>) -> u64 {
    match n {
        Some(v) => v,
        None => 0,
    }
}

/// The record of a document: no provenance, no timestamps, no path.
pub open spec fn document_file(d: Document) -> FileView {
    FileView {
        file_id: d.file_id@,
        file_unique_id: d.file_unique_id@,
        thumbnail_file_id: thumbnail_id(d.thumbnail),
        thumbnail_file_unique_id: thumbnail_unique_id(d.thumbnail),
        message_id: 0,
        user_id: 0,
        file_name: text_or_empty(d.file_name),
        file_size: size_or_zero(d.file_size),
        mime_type: text_or_empty(d.mime_type),
        add_time: 0,
        update_time: 0,
        file_path: Seq::empty(),
    }
}

/// The record of a video: no provenance, no timestamps, no path.
pub open spec fn video_file(v: Video) -> FileView {
    FileView {
        file_id: v.file_id@,
        file_unique_id: v.file_unique_id@,
        thumbnail_file_id: thumbnail_id(v.thumbnail),
        thumbnail_file_unique_id: thumbnail_unique_id(v.thumbnail),
        message_id: 0,
        user_id: 0,
        file_name: text_or_empty(v.file_name),
        file_size: size_or_zero(v.file_size),
        mime_type: text_or_empty(v.mime_type),
        add_time: 0,
        update_time: 0,
        file_path: Seq::empty(),
    }
}

/// The record of a photo size: identifiers and size only.
pub open spec fn photo_file(p: PhotoSize) -> FileView {
    FileView {
        file_id: p.file_id@,
        file_unique_id: p.file_unique_id@,
        thumbnail_file_id: Seq::empty(),
        thumbnail_file_unique_id: Seq::empty(),
        message_id: 0,
        user_id: 0,
        file_name: Seq::empty(),
        file_size: size_or_zero(p.file_size),
        mime_type: Seq::empty(),
        add_time: 0,
        update_time: 0,
        file_path: Seq::empty(),
    }
}

/// The sender recorded for a message: zero when it names none.
pub open spec fn sender_of(m: Message) -> u64 {
    match m.user_id {
        Some(u) => u,
        None => 0,
    }
}

/// `f` stamped with the provenance of message `m`.
pub open spec fn stamped(f: FileView, m: Message) -> FileView {
    FileView { message_id: m.message_id, user_id: sender_of(m), ..f }
}

/// The record of the message's document, if it has one.
pub open spec fn document_part(m: Message) -> Seq<FileView> {
    match m.document {
        Some(d) => seq![stamped(document_file(d), m)],
        None => Seq::empty(),
    }
}

/// The record of the last of the message's photo sizes, if it has any.
pub open spec fn photo_part(m: Message) -> Seq<FileView> {
    match m.photo {
        Some(sizes) => if sizes@.len() > 0 {
            seq![stamped(photo_file(sizes@.last()), m)]
        } else {
            Seq::empty()
        },
        None => Seq::empty(),
    }
}

/// The record of the message's video, if it has one.
pub open spec fn video_part(m: Message) -> Seq<FileView> {
    match m.video {
        Some(v) => seq![stamped(video_file(v), m)],
        None => Seq::empty(),
    }
}

/// The records that a message gives rise to: its document, the last of its
/// photo sizes and its video, in this order, each only if present.
pub open spec fn message_files(m: Message) -> Seq<FileView> {
    document_part(m) + photo_part(m) + video_part(m)
}

/// The identifiers of an optional preview image, empty when there is none.
fn thumbnail_ids(t: &Option<PhotoSize>) -> (r: (String, String))
    ensures
        r.0@ == thumbnail_id(*t),
        r.1@ == thumbnail_unique_id(*t),
{
    match t {
        Some(p) => (p.file_id.clone(), p.file_unique_id.clone()),
        None => (String::new(), String::new()),
    }
}

/// An optional text, empty when it is absent.
fn text_or_default(s: &Option<String>) -> (r: String)
    ensures
        r@ == text_or_empty(*s),
{
    match s {
        Some(t) => t.clone(),
        None => String::new(),
    }
}

/// An optional size, zero when it is absent.
fn size_or_default(n: &Option<u64>) -> (r: u64)
    ensures
        r == size_or_zero(*n),
{
    match n {
        Some(v) => *v,
        None => 0,
    }
}

impl File {
    /// The same record with `message_id` as the owning message.
    pub fn with_message_id(self, message_id: i32) -> (r: File)
        ensures
            r@ == (FileView { message_id, ..self@ }),
    {
        let mut f = self;
        f.message_id = message_id;
        f
    }

    /// The same record with `user_id` as the owning user.
    pub fn with_user_id(self, user_id: u64) -> (r: File)
        ensures
            r@ == (FileView { user_id, ..self@ }),
    {
        let mut f = self;
        f.user_id = user_id;
        f
    }

    /// The same record with `file_path` as the cached download path.
    pub fn with_file_path(self, file_path: String) -> (r: File)
        ensures
            r@ == (FileView { file_path: file_path@, ..self@ }),
    {
        let mut f = self;
        f.file_path = file_path;
        f
    }

    /// The record of a document.
    pub fn from_document(d: &Document) -> (r: File)
        ensures
            r@ == document_file(*d),
    {
        let (thumbnail_file_id, thumbnail_file_unique_id) = thumbnail_ids(&d.thumbnail);
        File {
            file_id: d.file_id.clone(),
            file_unique_id: d.file_unique_id.clone(),
            thumbnail_file_id,
            thumbnail_file_unique_id,
            message_id: 0,
            user_id: 0,
            file_name: text_or_default(&d.file_name),
            file_size: size_or_default(&d.file_size),
            mime_type: text_or_default(&d.mime_type),
            add_time: 0,
            update_time: 0,
            file_path: String::new(),
        }
    }

    /// The record of a video.
    pub fn from_video(v: &Video) -> (r: File)
        ensures
            r@ == video_file(*v),
    {
        let (thumbnail_file_id, thumbnail_file_unique_id) = thumbnail_ids(&v.thumbnail);
        File {
            file_id: v.file_id.clone(),
            file_unique_id: v.file_unique_id.clone(),
            thumbnail_file_id,
            thumbnail_file_unique_id,
            message_id: 0,
            user_id: 0,
            file_name: text_or_default(&v.file_name),
            file_size: size_or_default(&v.file_size),
            mime_type: text_or_default(&v.mime_type),
            add_time: 0,
            update_time: 0,
            file_path: String::new(),
        }
    }

    /// The record of one size of a photo.
    pub fn from_photo(p: &PhotoSize) -> (r: File)
        ensures
            r@ == photo_file(*p),
    {
        File {
            file_id: p.file_id.clone(),
            file_unique_id: p.file_unique_id.clone(),
            thumbnail_file_id: String::new(),
            thumbnail_file_unique_id: String::new(),
            message_id: 0,
            user_id: 0,
            file_name: String::new(),
            file_size: size_or_default(&p.file_size),
            mime_type: String::new(),
            add_time: 0,
            update_time: 0,
            file_path: String::new(),
        }
    }

    /// The records of the attachments of `msg`, each stamped with the
    /// message's id and sender and with no download path yet.
    pub fn from_message(msg: &Message) -> (files: Vec<File>)
        ensures
            files.deep_view() == message_files(*msg),
    {
        let user_id: u64 = match msg.user_id {
            Some(u) => u,
            None => 0,
        };
        let mut files: Vec<File> = Vec::new();
        if let Some(doc) = &msg.document {
            let file = File::from_document(doc);
            files.push(file.with_message_id(msg.message_id).with_user_id(user_id));
        }
        if let Some(sizes) = &msg.photo {
            if sizes.len() > 0 {
                let photo = &sizes[sizes.len() - 1];
                let file = File::from_photo(photo);
                files.push(file.with_message_id(msg.message_id).with_user_id(user_id));
            }
        }
        if let Some(video) = &msg.video {
            let file = File::from_video(video);
            files.push(file.with_message_id(msg.message_id).with_user_id(user_id));
        }
        files
    }
}

} // verus!
