use image_host::gallery::{
    accepted_extension, delete_image, list_all_images, list_favorite_images, list_user_images,
    listed, name_upload, parse_image_records, upload_image, Deletion, FileRemoval, ImageRow,
    NamedUpload, SearchParams, Upload, UploadField,
};
use image_host::media::{recognise, FileKind, Recognition, MAX_SKIPPABLE_FRAMES};
use image_host::reply::{Notice, Rejection};
use image_host::session::{authenticated, Account, Session};
use image_host::store::{Statement, StoreError};

const PNG: &[u8] = b"\x89PNG\r\n\x1a\n";

fn session(is_approved: i64) -> Session {
    authenticated(Ok(Some(Account { id: 3, is_approved, is_admin: 0 }))).unwrap()
}

fn receive(data: &[u8]) -> Result<NamedUpload, Rejection> {
    Upload { user_id: 3 }.received(&UploadField::Data(data.to_vec()))
}

fn named() -> NamedUpload {
    name_upload(3, "id", "png")
}

fn row(tags: &str, flag: Option<bool>, number: Option<i64>) -> ImageRow {
    ImageRow {
        id: 4,
        file_path: "/images/a.png".to_string(),
        favorited_bool: flag,
        favorited_number: number,
        tags: tags.to_string(),
    }
}

#[test]
fn uploads_are_for_approved_users() {
    assert_eq!(upload_image(&session(1)).unwrap().user_id, 3);
    assert_eq!(upload_image(&session(0)).err(), Some(Rejection::PendingAdminApproval));
}

#[test]
fn form_without_a_readable_file_is_refused() {
    let upload = Upload { user_id: 3 };
    assert_eq!(
        upload.received(&UploadField::Malformed).err(),
        Some(Rejection::MalformedMultipart)
    );
    assert_eq!(upload.received(&UploadField::Missing).err(), Some(Rejection::NoFile));
    assert_eq!(upload.received(&UploadField::Unreadable).err(), Some(Rejection::UnreadableData));
}

#[test]
fn image_is_named_by_its_contents() {
    for (data, extension) in [
        (PNG, "png"),
        (&b"\xff\xd8\xff\xe0"[..], "jpg"),
        (b"GIF89a", "gif"),
        (b"RIFF\0\0\0\0WEBP", "webp"),
        (b"BM\0\0\0\0", "bmp"),
    ] {
        let named = receive(data).unwrap();
        assert_eq!(named.user_id, 3);
        let name = named.public_path.strip_prefix("/images/").unwrap();
        assert_eq!(named.disk_path, format!("uploads/{name}"));
        let (identifier, found) = name.split_once('.').unwrap();
        assert_eq!(identifier.len(), 36);
        assert_eq!(found, extension);
    }
}

#[test]
fn each_upload_gets_its_own_name() {
    assert_ne!(receive(PNG).unwrap().public_path, receive(PNG).unwrap().public_path);
}

#[test]
fn unknown_contents_are_refused() {
    assert_eq!(receive(b"").err(), Some(Rejection::UnknownFileType));
    assert_eq!(receive(b"just text").err(), Some(Rejection::UnknownFileType));
}

#[test]
fn contents_other_than_images_are_refused() {
    assert_eq!(receive(b"%PDF-1.7").err(), Some(Rejection::NotAnImage));
    assert_eq!(receive(b"PK\x03\x04").err(), Some(Rejection::NotAnImage));
}

const SKIPPABLE: &[u8] = b"\x50\x2a\x4d\x18\0\0\0\0";
const ZSTANDARD: &[u8] = b"\x28\xb5\x2f\xfd";

/// What `infer` itself makes of data that it can search.
fn expected(data: &[u8]) -> Result<&'static str, Rejection> {
    match infer::get(data) {
        None => Err(Rejection::UnknownFileType),
        Some(kind) if kind.mime_type().starts_with("image/") => Ok(kind.extension()),
        Some(_) => Err(Rejection::NotAnImage),
    }
}

fn received(data: &[u8]) -> Result<String, Rejection> {
    receive(data).map(|named| named.public_path.split_once('.').unwrap().1.to_string())
}

/// A skippable frame with that content.
fn frame(content: &[u8]) -> Vec<u8> {
    let length = u32::try_from(content.len()).unwrap().to_le_bytes();
    [&b"\x5f\x2a\x4d\x18"[..], &length, content].concat()
}

/// A skippable frame with the bytes `mark` at that position of the whole frame.
fn marked_frame(at: usize, mark: &[u8]) -> Vec<u8> {
    let mut content = vec![0; 300];
    content[at - 8..at - 8 + mark.len()].copy_from_slice(mark);
    frame(&content)
}

#[test]
fn rows_of_skippable_frames_lead_to_zstandard() {
    for frames in [0, 1, MAX_SKIPPABLE_FRAMES - 1, MAX_SKIPPABLE_FRAMES, 257, 300, 1_000_000] {
        let row = SKIPPABLE.repeat(frames);
        let data = [row.as_slice(), ZSTANDARD].concat();
        assert_eq!(receive(&data).err(), Some(Rejection::NotAnImage));
        for tail in [&b""[..], b"\x28\xb5\x2f", &SKIPPABLE[..7], b"\x60\x2a\x4d\x18\0\0\0\0"] {
            let data = [row.as_slice(), tail].concat();
            assert_eq!(receive(&data).err(), Some(Rejection::UnknownFileType));
        }
    }
}

#[test]
fn rows_of_skippable_frames_are_recognised_as_infer_does() {
    let heads = [
        frame(b""),
        frame(b"WEBP"),
        marked_frame(12, b"mdat"),
        marked_frame(60, b"BOOKMOBI"),
        marked_frame(128, b"DICM"),
        marked_frame(257, b"ustar"),
    ];
    for head in &heads {
        for frames in [0, 1, 254, 255, 256, 257, 400] {
            for tail in [&b""[..], ZSTANDARD, PNG, b"\x50\x2a\x4d\x18\x09\0\0\0"] {
                let data = [head.as_slice(), &SKIPPABLE.repeat(frames), tail].concat();
                assert_eq!(received(&data), expected(&data).map(String::from));
            }
        }
    }
    let long = [frame(b"WEBP"), SKIPPABLE.repeat(1_000_000)].concat();
    assert_eq!(received(&long), Ok("webp".to_string()));
}

#[test]
fn frames_that_end_outside_the_data_end_the_row() {
    let open = b"\x5f\x2a\x4d\x18\xf8\xff\xff\xff";
    for frames in [0, 256, 257] {
        let data = [SKIPPABLE.repeat(frames).as_slice(), open, ZSTANDARD].concat();
        assert_eq!(receive(&data).err(), Some(Rejection::UnknownFileType));
    }
}

#[test]
fn recognition_tells_the_kind() {
    assert!(matches!(recognise(PNG), Recognition::Kind(kind) if kind.mime_type == "image/png"));
    assert!(matches!(recognise(ZSTANDARD), Recognition::Kind(kind) if kind.extension == "zst"));
    assert!(matches!(recognise(b""), Recognition::Unknown));
    let long = [SKIPPABLE.repeat(257).as_slice(), ZSTANDARD].concat();
    assert!(matches!(recognise(&long), Recognition::Zstandard));
}

#[test]
fn archives_are_searched_within_the_address_space() {
    let archive = |size: u32| {
        let mut data = b"PK\x03\x04".to_vec();
        data.resize(18, 0);
        data.extend_from_slice(&size.to_le_bytes());
        data.resize(30, 0);
        data.extend_from_slice(b"docProps");
        data
    };
    for size in [0, 4096, u32::MAX - 49 - 6000, u32::MAX - 48, u32::MAX] {
        assert_eq!(receive(&archive(size)).err(), Some(Rejection::NotAnImage));
    }
}

#[test]
fn kinds_are_judged_by_their_mime_type() {
    let kind = |mime_type: &str, extension: &str| {
        Some(FileKind { mime_type: mime_type.to_string(), extension: extension.to_string() })
    };
    assert_eq!(accepted_extension(kind("image/png", "png")), Ok("png".to_string()));
    assert_eq!(accepted_extension(kind("image/", "x")), Ok("x".to_string()));
    assert_eq!(accepted_extension(kind("video/mp4", "mp4")), Err(Rejection::NotAnImage));
    assert_eq!(accepted_extension(kind("image", "png")), Err(Rejection::NotAnImage));
    assert_eq!(accepted_extension(None), Err(Rejection::UnknownFileType));
}

#[test]
fn upload_is_recorded_under_its_public_path() {
    let named = named();
    assert_eq!(named.disk_path, "uploads/id.png");
    assert_eq!(named.public_path, "/images/id.png");
    match named.written(true).unwrap() {
        Statement::AddImage { user_id, file_path } => {
            assert_eq!(user_id, 3);
            assert_eq!(file_path, "/images/id.png");
        }
        other => panic!("unexpected statement {other:?}"),
    }
    let uploaded = named.recorded(Ok(12)).unwrap();
    assert_eq!(uploaded.public_path, "/images/id.png");
    assert_eq!(uploaded.disk_path, "uploads/id.png");
    assert_eq!(uploaded.image_id, 12);
}

#[test]
fn failed_write_and_failed_record_end_an_upload() {
    assert_eq!(named().written(false).err(), Some(Rejection::SaveFailed));
    assert_eq!(named().recorded(Err(StoreError)).err(), Some(Rejection::Database));
}

#[test]
fn rows_become_records_in_order() {
    let mut second = row("", Some(true), None);
    second.id = 1;
    let records = parse_image_records(vec![row("cat,pet", Some(false), Some(1)), second]);
    assert_eq!(records.len(), 2);
    assert_eq!(records[0].id, 4);
    assert_eq!(records[0].file_path, "/images/a.png");
    assert!(!records[0].is_favorited);
    assert_eq!(records[0].tags, vec!["cat", "pet"]);
    assert_eq!(records[1].id, 1);
    assert!(records[1].is_favorited);
    assert!(records[1].tags.is_empty());
}

#[test]
fn tags_are_what_stands_between_commas() {
    let tags = |text: &str| parse_image_records(vec![row(text, None, None)]).remove(0).tags;
    assert_eq!(tags(","), vec!["", ""]);
    assert_eq!(tags("a,,b"), vec!["a", "", "b"]);
    assert_eq!(tags(" a"), vec![" a"]);
    assert_eq!(tags("cat,animal,pet"), vec!["cat", "animal", "pet"]);
}

#[test]
fn favorite_mark_falls_back_on_the_number() {
    let mark = |flag, number| parse_image_records(vec![row("", flag, number)])[0].is_favorited;
    assert!(mark(Some(true), Some(0)));
    assert!(!mark(Some(false), Some(1)));
    assert!(mark(None, Some(1)));
    assert!(mark(None, Some(-1)));
    assert!(!mark(None, Some(0)));
    assert!(!mark(None, None));
}

#[test]
fn listings_report_store_failures() {
    assert_eq!(listed(Err(StoreError)).err(), Some(Rejection::Database));
    assert_eq!(listed(Ok(vec![row("", None, None)])).unwrap().len(), 1);
    assert!(listed(Ok(vec![])).unwrap().is_empty());
}

#[test]
fn own_images_are_for_approved_users() {
    let params = |tag: Option<&str>| SearchParams { tag: tag.map(String::from) };
    assert_eq!(
        list_user_images(&session(0), params(None)).err(),
        Some(Rejection::PendingApproval)
    );
    assert!(matches!(
        list_user_images(&session(1), params(Some("cat"))),
        Ok(Statement::UserImages { user_id: 3, tag }) if tag == "cat"
    ));
    assert!(matches!(
        list_user_images(&session(1), params(None)),
        Ok(Statement::UserImages { user_id: 3, tag }) if tag.is_empty()
    ));
}

#[test]
fn all_images_are_for_everybody() {
    let params = || SearchParams { tag: Some("cat".to_string()) };
    assert!(matches!(
        list_all_images(Ok(session(0)), params()),
        Statement::AllImagesFor { user_id: 3, tag } if tag == "cat"
    ));
    for refusal in [Rejection::MissingToken, Rejection::InvalidToken, Rejection::Database] {
        assert!(matches!(
            list_all_images(Err(refusal), params()),
            Statement::AllImages { tag } if tag == "cat"
        ));
    }
}

#[test]
fn favorites_are_listed_for_their_user() {
    assert!(matches!(
        list_favorite_images(&session(0)),
        Statement::FavoriteImages { user_id: 3 }
    ));
}

#[test]
fn deletion_asks_for_the_path_of_the_owner() {
    let (query, deletion) = delete_image(&session(0), 12);
    assert!(matches!(query, Statement::OwnedImagePath { image_id: 12, user_id: 3 }));
    let removal = deletion.found(Ok(Some("/images/id.png".to_string()))).unwrap();
    assert_eq!(removal.disk_path, "uploads/id.png");
    assert!(matches!(removal.removed(), Statement::DeleteImage { image_id: 12 }));
    assert_eq!(removal.deleted(Ok(())), Ok(Notice::ImageDeleted));
}

#[test]
fn deletion_finds_the_file_of_the_upload() {
    let named = receive(PNG).unwrap();
    let removal = Deletion { image_id: 1 }.found(Ok(Some(named.public_path))).unwrap();
    assert_eq!(removal.disk_path, named.disk_path);
}

#[test]
fn deletion_of_what_is_not_owned_is_refused() {
    let deletion = Deletion { image_id: 1 };
    assert_eq!(deletion.found(Ok(None)).err(), Some(Rejection::ImageNotFoundOrDenied));
    assert_eq!(deletion.found(Err(StoreError)).err(), Some(Rejection::Database));
    let removal = FileRemoval { image_id: 1, disk_path: String::new() };
    assert_eq!(removal.deleted(Err(StoreError)), Err(Rejection::Database));
}
