use tg_image_hosting::error::{Error, ErrorKind};
use tg_image_hosting::file::{Document, File, Message, PhotoSize, Video};
use tg_image_hosting::tg::{HandleAction, HandleEvent, HandleState, Reply, TgBot, UpdateContent};

const HOST: &str = "files.example.com";

fn bot() -> TgBot {
    TgBot::new(1, "TOKEN".to_string())
}

fn photo_message() -> Message {
    Message {
        message_id: 55,
        chat_id: -1001,
        user_id: Some(42),
        document: None,
        photo: Some(vec![
            PhotoSize { file_id: "small-id".to_string(), file_unique_id: "small-u".to_string(), file_size: Some(10) },
            PhotoSize { file_id: "AgAD1".to_string(), file_unique_id: "AQADu1".to_string(), file_size: Some(2048) },
        ]),
        video: None,
    }
}

fn photo_record(path: &str) -> File {
    File {
        file_id: "AgAD1".to_string(),
        file_unique_id: "AQADu1".to_string(),
        thumbnail_file_id: String::new(),
        thumbnail_file_unique_id: String::new(),
        message_id: 55,
        user_id: 42,
        file_name: String::new(),
        file_size: 2048,
        mime_type: String::new(),
        add_time: 0,
        update_time: 0,
        file_path: path.to_string(),
    }
}

fn unexpected() -> Error {
    Error::new(ErrorKind::Protocol, "unexpected event")
}

fn begin(content: UpdateContent) -> (HandleState, HandleAction) {
    bot().handle(HOST, HandleState::Start, HandleEvent::Update(content))
}

#[test]
fn update_without_a_message_is_not_supported() {
    assert_eq!(
        begin(UpdateContent::Other),
        (
            HandleState::Done,
            HandleAction::Finish(Err(Error::new(ErrorKind::Unsupported, "no message supported")))
        )
    );
}

#[test]
fn message_without_attachments_is_a_no_op() {
    let m = Message { photo: None, ..photo_message() };
    assert_eq!(begin(UpdateContent::Message(m)), (HandleState::Done, HandleAction::Finish(Ok(()))));
}

#[test]
fn every_kind_of_message_update_is_handled_alike() {
    let expected = begin(UpdateContent::Message(photo_message()));
    assert_eq!(begin(UpdateContent::EditedMessage(photo_message())), expected);
    assert_eq!(begin(UpdateContent::ChannelPost(photo_message())), expected);
    assert_eq!(expected.1, HandleAction::GetPath { file_id: "AgAD1".to_string() });
}

#[test]
fn photo_is_resolved_saved_and_announced() {
    let bot = bot();
    let (state, action) = begin(UpdateContent::Message(photo_message()));
    assert_eq!(action, HandleAction::GetPath { file_id: "AgAD1".to_string() });
    assert_eq!(
        state,
        HandleState::Paths { chat_id: -1001, message_id: 55, files: vec![photo_record("")], next: 0 }
    );

    let (state, action) = bot.handle(HOST, state, HandleEvent::Path(Ok(Some("photos/file_1.jpg".to_string()))));
    assert_eq!(action, HandleAction::Save { files: vec![photo_record("photos/file_1.jpg")] });

    let (state, action) = bot.handle(HOST, state, HandleEvent::Saved(Ok(())));
    assert_eq!(state, HandleState::Replying);
    assert_eq!(
        action,
        HandleAction::Send(Reply {
            chat_id: -1001,
            reply_to: Some(55),
            text: "https://files\\.example\\.com/f/AgAD1\\.jpg\nhttps://files\\.example\\.com/f/AQADu1\\.jpg\n"
                .to_string(),
            markdown: true,
        })
    );

    assert_eq!(
        bot.handle(HOST, state, HandleEvent::Sent(Ok(()))),
        (HandleState::Done, HandleAction::Finish(Ok(())))
    );
}

#[test]
fn a_failure_of_the_store_is_told_to_the_sender() {
    let bot = bot();
    let (state, _) = begin(UpdateContent::Message(photo_message()));
    let (state, _) = bot.handle(HOST, state, HandleEvent::Path(Ok(Some("photos/file_1.jpg".to_string()))));
    let broken = Error::new(ErrorKind::Store, "D1_ERROR: disk I/O error (code=5)");
    let (state, action) = bot.handle(HOST, state, HandleEvent::Saved(Err(broken)));
    assert_eq!(state, HandleState::Replying);
    assert_eq!(
        action,
        HandleAction::Send(Reply {
            chat_id: -1001,
            reply_to: Some(55),
            text: "Error: D1\\_ERROR: disk I/O error \\(code\\=5\\)".to_string(),
            markdown: true,
        })
    );
}

#[test]
fn a_platform_without_a_path_ends_the_handling() {
    let (state, _) = begin(UpdateContent::Message(photo_message()));
    assert_eq!(
        bot().handle(HOST, state, HandleEvent::Path(Ok(None))),
        (
            HandleState::Done,
            HandleAction::Finish(Err(Error::new(ErrorKind::PathUnavailable, "File path not found")))
        )
    );
}

#[test]
fn a_failure_of_the_platform_ends_the_handling() {
    let (state, _) = begin(UpdateContent::Message(photo_message()));
    let down = Error::new(ErrorKind::UpstreamTransport, "timeout");
    assert_eq!(
        bot().handle(HOST, state, HandleEvent::Path(Err(down.clone()))),
        (HandleState::Done, HandleAction::Finish(Err(down)))
    );
}

#[test]
fn a_reply_that_cannot_be_sent_is_the_outcome() {
    let down = Error::new(ErrorKind::UpstreamTransport, "timeout");
    assert_eq!(
        bot().handle(HOST, HandleState::Replying, HandleEvent::Sent(Err(down.clone()))),
        (HandleState::Done, HandleAction::Finish(Err(down)))
    );
}

#[test]
fn attachments_are_resolved_in_order_and_saved_as_one_batch() {
    let bot = bot();
    let m = Message {
        document: Some(Document {
            file_id: "doc-id".to_string(),
            file_unique_id: "doc-u".to_string(),
            thumbnail: None,
            file_name: Some("notes".to_string()),
            mime_type: None,
            file_size: None,
        }),
        video: Some(Video {
            file_id: "vid-id".to_string(),
            file_unique_id: "vid-u".to_string(),
            thumbnail: None,
            file_name: None,
            mime_type: Some("video/mp4".to_string()),
            file_size: Some(9),
        }),
        ..photo_message()
    };
    let (state, action) = begin(UpdateContent::ChannelPost(m));
    assert_eq!(action, HandleAction::GetPath { file_id: "doc-id".to_string() });
    let (state, action) = bot.handle(HOST, state, HandleEvent::Path(Ok(Some("documents/notes".to_string()))));
    assert_eq!(action, HandleAction::GetPath { file_id: "AgAD1".to_string() });
    let (state, action) = bot.handle(HOST, state, HandleEvent::Path(Ok(Some("photos/file_1.jpg".to_string()))));
    assert_eq!(action, HandleAction::GetPath { file_id: "vid-id".to_string() });
    let (state, action) = bot.handle(HOST, state, HandleEvent::Path(Ok(Some("videos/v.mp4".to_string()))));
    match &action {
        HandleAction::Save { files } => {
            let summary: Vec<(&str, &str)> =
                files.iter().map(|f| (f.file_unique_id.as_str(), f.file_path.as_str())).collect();
            assert_eq!(
                summary,
                vec![("doc-u", "documents/notes"), ("AQADu1", "photos/file_1.jpg"), ("vid-u", "videos/v.mp4")]
            );
        }
        other => panic!("expected a batch, got {:?}", other),
    }
    let (_, action) = bot.handle(HOST, state, HandleEvent::Saved(Ok(())));
    match action {
        HandleAction::Send(reply) => assert_eq!(
            reply.text,
            "https://files\\.example\\.com/f/doc\\-id\nhttps://files\\.example\\.com/f/doc\\-u\n\
             https://files\\.example\\.com/f/AgAD1\\.jpg\nhttps://files\\.example\\.com/f/AQADu1\\.jpg\n\
             https://files\\.example\\.com/f/vid\\-id\\.mp4\nhttps://files\\.example\\.com/f/vid\\-u\\.mp4\n"
        ),
        other => panic!("expected a reply, got {:?}", other),
    }
}

#[test]
fn a_second_attachment_without_a_path_ends_the_handling_before_any_save() {
    let bot = bot();
    let m = Message {
        document: Some(Document {
            file_id: "doc-id".to_string(),
            file_unique_id: "doc-u".to_string(),
            thumbnail: None,
            file_name: None,
            mime_type: None,
            file_size: None,
        }),
        ..photo_message()
    };
    let (state, _) = begin(UpdateContent::Message(m));
    let (state, action) = bot.handle(HOST, state, HandleEvent::Path(Ok(Some("documents/d".to_string()))));
    assert_eq!(action, HandleAction::GetPath { file_id: "AgAD1".to_string() });
    let (state, action) = bot.handle(HOST, state, HandleEvent::Path(Ok(None)));
    assert_eq!(state, HandleState::Done);
    assert_eq!(
        action,
        HandleAction::Finish(Err(Error::new(ErrorKind::PathUnavailable, "File path not found")))
    );
}

#[test]
fn handle_rejects_events_nobody_asked_for() {
    let cases = vec![
        (HandleState::Start, HandleEvent::Saved(Ok(()))),
        (HandleState::Start, HandleEvent::Path(Ok(None))),
        (HandleState::Replying, HandleEvent::Saved(Ok(()))),
        (HandleState::Replying, HandleEvent::Update(UpdateContent::Other)),
        (HandleState::Done, HandleEvent::Sent(Ok(()))),
        (
            HandleState::Saving { chat_id: 1, message_id: 2, files: vec![photo_record("p")] },
            HandleEvent::Sent(Ok(())),
        ),
        (
            HandleState::Paths { chat_id: 1, message_id: 2, files: vec![photo_record("")], next: 0 },
            HandleEvent::Saved(Ok(())),
        ),
        (
            HandleState::Paths { chat_id: 1, message_id: 2, files: vec![photo_record("")], next: 1 },
            HandleEvent::Path(Ok(Some("p".to_string()))),
        ),
    ];
    for (state, event) in cases {
        assert_eq!(bot().handle(HOST, state, event), (HandleState::Done, HandleAction::Finish(Err(unexpected()))));
    }
}

#[test]
fn handling_saves_once_and_replies_once_whatever_is_reported() {
    let bot = bot();
    let script = vec![
        HandleEvent::Update(UpdateContent::Message(photo_message())),
        HandleEvent::Path(Ok(Some("photos/file_1.jpg".to_string()))),
        HandleEvent::Saved(Ok(())),
        HandleEvent::Saved(Ok(())),
        HandleEvent::Path(Ok(Some("photos/file_2.jpg".to_string()))),
        HandleEvent::Update(UpdateContent::Message(photo_message())),
        HandleEvent::Sent(Ok(())),
    ];
    let (mut paths, mut saves, mut sends) = (0, 0, 0);
    let mut state = HandleState::Start;
    for event in script {
        let (next, action) = bot.handle(HOST, state, event);
        match action {
            HandleAction::GetPath { .. } => paths += 1,
            HandleAction::Save { .. } => saves += 1,
            HandleAction::Send(_) => sends += 1,
            HandleAction::Finish(_) => {}
        }
        state = next;
    }
    assert_eq!((paths, saves, sends), (1, 1, 1));
    assert_eq!(state, HandleState::Done);
}
