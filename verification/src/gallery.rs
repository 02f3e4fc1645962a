//! Uploading, listing and deleting images.

use vstd::prelude::*;

use crate::credentials::{fresh_identifier, is_hex_digit, is_uuid_v4};
use crate::media::{
    can_be_inferred, few_frames, inferred_kind, kind_view, law_signature_tells_the_kind,
    leads_to_zstandard, recognise, recognised, FileKind, Recognition,
};
use crate::reply::{acknowledged, Notice, Rejection};
use crate::session::{Account, Session};
use crate::store::{Query, Statement, StoreError};
use crate::text::{
    joined, law_join_undoes_split, law_leading_prefixes_are_taken_away, law_split_undoes_join,
    lemma_pieces_are_separated, pieces, split, starts_with, trim_start_matches, views,
    without_leading,
};

verus! {

/// An image as it is listed.
#[derive(Debug)]
pub struct ImageRecord {
    pub id: i64,
    pub file_path: String,
    pub is_favorited: bool,
    pub tags: Vec<String>,
}

/// The query parameters of a listing.
#[derive(Debug)]
pub struct SearchParams {
    pub tag: Option<String>,
}

/// A row of a listing. The favorite mark is given both as a truth value and as a number, each only
/// where the column could be read so; the tag names come in one text with commas between them.
#[derive(Debug)]
pub struct ImageRow {
    pub id: i64,
    pub file_path: String,
    pub favorited_bool: Option<bool>,
    pub favorited_number: Option<i64>,
    pub tags: String,
}

/// What became of the first field of the uploaded form.
#[derive(Debug)]
pub enum UploadField {
    Malformed,
    Missing,
    Unreadable,
    Data(Vec<u8>),
}

/// An upload by an approved user, waiting for its form.
#[derive(Clone, Copy, Debug)]
pub struct Upload {
    pub user_id: i64,
}

/// An upload that passed, with the place of its file on disk and its public path.
#[derive(Debug)]
pub struct NamedUpload {
    pub user_id: i64,
    pub disk_path: String,
    pub public_path: String,
}

/// An upload that is recorded: its public path, and the tagging that is to follow.
#[derive(Debug)]
pub struct Uploaded {
    pub public_path: String,
    pub image_id: i64,
    pub disk_path: String,
}

/// The file name of an upload.
pub open spec fn file_name(identifier: Seq<char>, extension: Seq<char>) -> Seq<char> {
    identifier + "."@ + extension
}

/// Where the file of that name is kept.
pub open spec fn disk_path_of(name: Seq<char>) -> Seq<char> {
    "uploads/"@ + name
}

/// The path under which the file of that name is served and recorded.
pub open spec fn public_path_of(name: Seq<char>) -> Seq<char> {
    "/images/"@ + name
}

/// Where the file behind a recorded path is kept.
pub open spec fn disk_path_behind(public_path: Seq<char>) -> Seq<char> {
    disk_path_of(without_leading(public_path, "/images/"@))
}

/// Whether a MIME type is that of an image.
pub open spec fn is_image_type(mime_type: Seq<char>) -> bool {
    "image/"@.is_prefix_of(mime_type)
}

/// Why a file of that kind is refused, if it is.
pub open spec fn kind_refusal(kind: Option<(Seq<char>, Seq<char>)>) -> Option<Rejection> {
    match kind {
        None => Some(Rejection::UnknownFileType),
        Some(known) => if is_image_type(known.0) {
            None
        } else {
            Some(Rejection::NotAnImage)
        },
    }
}

/// Why a file with those contents is refused, if it is.
pub open spec fn data_refusal(data: Seq<u8>) -> Option<Rejection> {
    match recognised(data) {
        None => Some(Rejection::UnknownFileType),
        Some(None) => Some(Rejection::NotAnImage),
        Some(Some(kind)) => kind_refusal(Some(kind)),
    }
}

/// Whether an account may upload: approved ones may.
pub open spec fn admission(account: Account) -> Result<Upload, Rejection> {
    if account.is_approved == 0 {
        Err(Rejection::PendingAdminApproval)
    } else {
        Ok(Upload { user_id: account.id })
    }
}

/// Starts an upload, for approved users only. The form is to be read next.
pub fn upload_image(session: &Session) -> (upload: Result<Upload, Rejection>)
    ensures
        upload == admission(session.account()),
        session.account().is_approved != 0 ==> upload == Ok::<Upload, Rejection>(
            Upload { user_id: session.account().id },
        ),
        session.account().is_approved == 0 ==> upload == Err::<Upload, Rejection>(
            Rejection::PendingAdminApproval,
        ),
{
    if session.is_approved() {
        Ok(Upload { user_id: session.user_id() })
    } else {
        Err(Rejection::PendingAdminApproval)
    }
}

/// The extension of a file that may be uploaded, judged by its kind.
pub fn accepted_extension(kind: Option<FileKind>) -> (extension: Result<String, Rejection>)
    ensures
        match kind_refusal(kind_view(kind)) {
            Some(refusal) => extension == Err::<String, Rejection>(refusal),
            None => extension is Ok && extension->Ok_0@ == kind->Some_0.extension@,
        },
{
    match kind {
        None => Err(Rejection::UnknownFileType),
        Some(known) => if starts_with(known.mime_type.as_str(), "image/") {
            Ok(known.extension)
        } else {
            Err(Rejection::NotAnImage)
        },
    }
}

/// Names an accepted upload.
pub fn name_upload(user_id: i64, identifier: &str, extension: &str) -> (named: NamedUpload)
    ensures
        named.user_id == user_id,
        named.disk_path@ == disk_path_of(file_name(identifier@, extension@)),
        named.public_path@ == public_path_of(file_name(identifier@, extension@)),
{
    let name = identifier.to_owned().concat(".").concat(extension);
    NamedUpload {
        user_id,
        disk_path: "uploads/".to_owned().concat(name.as_str()),
        public_path: "/images/".to_owned().concat(name.as_str()),
    }
}

impl Upload {
    /// Goes on with the first field of the form: an image gets a fresh name, and its data is to be
    /// written to disk next.
    pub fn received(self, field: &UploadField) -> (named: Result<NamedUpload, Rejection>)
        ensures
            match *field {
                UploadField::Malformed => named == Err::<NamedUpload, Rejection>(
                    Rejection::MalformedMultipart,
                ),
                UploadField::Missing => named == Err::<NamedUpload, Rejection>(Rejection::NoFile),
                UploadField::Unreadable => named == Err::<NamedUpload, Rejection>(
                    Rejection::UnreadableData,
                ),
                UploadField::Data(data) => match data_refusal(data@) {
                    Some(refusal) => named == Err::<NamedUpload, Rejection>(refusal),
                    None => named is Ok && named->Ok_0.user_id == self.user_id && exists|
                        identifier: Seq<char>,
                    |
                        {
                            &&& is_uuid_v4(identifier)
                            &&& named->Ok_0.disk_path@ == disk_path_of(
                                #[trigger] file_name(
                                    identifier,
                                    recognised(data@)->Some_0->Some_0.1,
                                ),
                            )
                            &&& named->Ok_0.public_path@ == public_path_of(
                                file_name(identifier, recognised(data@)->Some_0->Some_0.1),
                            )
                        },
                },
            },
    {
        match field {
            UploadField::Malformed => Err(Rejection::MalformedMultipart),
            UploadField::Missing => Err(Rejection::NoFile),
            UploadField::Unreadable => Err(Rejection::UnreadableData),
            UploadField::Data(data) => {
                let kind = match recognise(data.as_slice()) {
                    Recognition::Kind(known) => Some(known),
                    Recognition::Zstandard => {
                        return Err(Rejection::NotAnImage);
                    },
                    Recognition::Unknown => None,
                };
                let ghost seen = kind_view(kind);
                let extension = match accepted_extension(kind) {
                    Ok(extension) => extension,
                    Err(refusal) => {
                        return Err(refusal);
                    },
                };
                let identifier = fresh_identifier();
                let named = name_upload(self.user_id, identifier.as_str(), extension.as_str());
                assert(extension@ == seen->Some_0.1);
                assert(named.disk_path@ == disk_path_of(
                    file_name(identifier@, recognised(data@)->Some_0->Some_0.1),
                ));
                Ok(named)
            },
        }
    }
}

impl NamedUpload {
    /// Goes on once the data has been written, or not: the image is recorded.
    pub fn written(&self, saved: bool) -> (asked: Result<Query, Rejection>)
        ensures
            if saved {
                asked is Ok && asked->Ok_0@ == (Statement::AddImage {
                    user_id: self.user_id,
                    file_path: self.public_path@,
                })
            } else {
                asked == Err::<Query, Rejection>(Rejection::SaveFailed)
            },
    {
        if saved {
            Ok(
                Statement::AddImage {
                    user_id: self.user_id,
                    file_path: self.public_path.clone(),
                },
            )
        } else {
            Err(Rejection::SaveFailed)
        }
    }

    /// Ends an upload with the id of the new image: its public path is the answer, and tagging of
    /// its file starts in the background.
    pub fn recorded(self, image_id: Result<i64, StoreError>) -> (uploaded: Result<
        Uploaded,
        Rejection,
    >)
        ensures
            match image_id {
                Err(_) => uploaded == Err::<Uploaded, Rejection>(Rejection::Database),
                Ok(id) => {
                    &&& uploaded is Ok
                    &&& uploaded->Ok_0.public_path@ == self.public_path@
                    &&& uploaded->Ok_0.image_id == id
                    &&& uploaded->Ok_0.disk_path@ == self.disk_path@
                },
            },
    {
        match image_id {
            Err(_) => Err(Rejection::Database),
            Ok(id) => Ok(
                Uploaded {
                    public_path: self.public_path,
                    image_id: id,
                    disk_path: self.disk_path,
                },
            ),
        }
    }
}

/// The favorite mark of a row: the truth value where it could be read, else whether the number is
/// there and not zero.
pub open spec fn favorite_mark(flag: Option<bool>, number: Option<i64>) -> bool {
    match flag {
        Some(mark) => mark,
        None => number is Some && number->Some_0 != 0,
    }
}

/// The tags of a row: none for the empty text, else the pieces between the commas.
pub open spec fn listed_tags(tags: Seq<char>) -> Seq<Seq<char>> {
    if tags.len() == 0 {
        Seq::empty()
    } else {
        pieces(tags, ',')
    }
}

/// Whether `record` is how `row` is listed.
pub open spec fn lists_row(record: ImageRecord, row: ImageRow) -> bool {
    &&& record.id == row.id
    &&& record.file_path@ == row.file_path@
    &&& record.is_favorited == favorite_mark(row.favorited_bool, row.favorited_number)
    &&& views(record.tags@) == listed_tags(row.tags@)
}

fn image_record(row: &ImageRow) -> (record: ImageRecord)
    ensures
        lists_row(record, *row),
{
    let tags: Vec<String> = if row.tags.as_str().is_empty() {
        Vec::new()
    } else {
        split(row.tags.as_str(), ',')
    };
    assert(views(tags@) =~= listed_tags(row.tags@));
    let is_favorited = match row.favorited_bool {
        Some(mark) => mark,
        None => match row.favorited_number {
            Some(number) => number != 0,
            None => false,
        },
    };
    ImageRecord { id: row.id, file_path: row.file_path.clone(), is_favorited, tags }
}

/// The records of a listing, one a row and in the same order.
pub fn parse_image_records(rows: Vec<ImageRow>) -> (records: Vec<ImageRecord>)
    ensures
        records@.len() == rows@.len(),
        forall|i: int| 0 <= i < rows@.len() ==> lists_row(#[trigger] records@[i], rows@[i]),
        forall|i: int|
            0 <= i < rows@.len() ==> (#[trigger] records@[i]).id == rows@[i].id
                && records@[i].file_path@ == rows@[i].file_path@,
{
    let mut records: Vec<ImageRecord> = Vec::new();
    let mut i: usize = 0;
    while i < rows.len()
        invariant
            i <= rows@.len(),
            records@.len() == i,
            forall|k: int| 0 <= k < i ==> lists_row(#[trigger] records@[k], rows@[k]),
        decreases rows@.len() - i,
    {
        records.push(image_record(&rows[i]));
        i = i + 1;
    }
    records
}

/// Ends any of the listings.
pub fn listed(rows: Result<Vec<ImageRow>, StoreError>) -> (records: Result<
    Vec<ImageRecord>,
    Rejection,
>)
    ensures
        match rows {
            Err(_) => records == Err::<Vec<ImageRecord>, Rejection>(Rejection::Database),
            Ok(found) => {
                &&& records is Ok
                &&& records->Ok_0@.len() == found@.len()
                &&& forall|i: int|
                    0 <= i < found@.len() ==> lists_row(#[trigger] records->Ok_0@[i], found@[i])
            },
        },
{
    match rows {
        Err(_) => Err(Rejection::Database),
        Ok(found) => Ok(parse_image_records(found)),
    }
}

/// The tag that a listing is restricted to; the empty text restricts nothing.
pub open spec fn tag_filter(params: SearchParams) -> Seq<char> {
    match params.tag {
        Some(tag) => tag@,
        None => Seq::empty(),
    }
}

fn tag_filter_of(params: SearchParams) -> (tag: String)
    ensures
        tag@ == tag_filter(params),
{
    match params.tag {
        Some(tag) => tag,
        None => String::new(),
    }
}

/// Starts the listing of a user's own images, for approved users only.
pub fn list_user_images(session: &Session, params: SearchParams) -> (asked: Result<
    Query,
    Rejection,
>)
    ensures
        if session.account().is_approved == 0 {
            asked == Err::<Query, Rejection>(Rejection::PendingApproval)
        } else {
            asked is Ok && asked->Ok_0@ == (Statement::UserImages {
                user_id: session.account().id,
                tag: tag_filter(params),
            })
        },
        asked is Ok && params.tag is Some ==> asked->Ok_0@ == (Statement::UserImages {
            user_id: session.account().id,
            tag: params.tag->Some_0@,
        }),
        asked is Ok && params.tag is None ==> asked->Ok_0@ == (Statement::UserImages {
            user_id: session.account().id,
            tag: Seq::<char>::empty(),
        }),
{
    if session.is_approved() {
        Ok(Statement::UserImages { user_id: session.user_id(), tag: tag_filter_of(params) })
    } else {
        Err(Rejection::PendingApproval)
    }
}

/// Starts the listing of all images. Who is not authenticated, for whatever reason, gets it with
/// no favorites marked.
pub fn list_all_images(session: Result<Session, Rejection>, params: SearchParams) -> (asked: Query)
    ensures
        asked@ == (match session {
            Ok(known) => Statement::AllImagesFor {
                user_id: known.account().id,
                tag: tag_filter(params),
            },
            Err(_) => Statement::AllImages { tag: tag_filter(params) },
        }),
        params.tag matches Some(tag) ==> asked@ == (match session {
            Ok(known) => Statement::AllImagesFor { user_id: known.account().id, tag: tag@ },
            Err(_) => Statement::AllImages { tag: tag@ },
        }),
        params.tag is None ==> asked@ == (match session {
            Ok(known) => Statement::AllImagesFor {
                user_id: known.account().id,
                tag: Seq::<char>::empty(),
            },
            Err(_) => Statement::AllImages { tag: Seq::<char>::empty() },
        }),
{
    match session {
        Ok(known) => Statement::AllImagesFor {
            user_id: known.user_id(),
            tag: tag_filter_of(params),
        },
        Err(_) => Statement::AllImages { tag: tag_filter_of(params) },
    }
}

/// Starts the listing of the user's favorites.
pub fn list_favorite_images(session: &Session) -> (asked: Query)
    ensures
        asked@ == (Statement::<Seq<char>>::FavoriteImages { user_id: session.account().id }),
{
    Statement::FavoriteImages { user_id: session.user_id() }
}

/// A deletion that waits for the path of the image.
#[derive(Clone, Copy, Debug)]
pub struct Deletion {
    pub image_id: i64,
}

/// A deletion whose file is to be removed from disk.
#[derive(Debug)]
pub struct FileRemoval {
    pub image_id: i64,
    pub disk_path: String,
}

/// Starts a deletion: the store is asked for the path of the image, which only its owner gets.
pub fn delete_image(session: &Session, image_id: i64) -> (asked: (Query, Deletion))
    ensures
        asked.0@ == (Statement::<Seq<char>>::OwnedImagePath {
            image_id,
            user_id: session.account().id,
        }),
        asked.1.image_id == image_id,
{
    (
        Statement::OwnedImagePath { image_id, user_id: session.user_id() },
        Deletion { image_id },
    )
}

impl Deletion {
    /// Goes on with the store's answer: the file is to be removed next.
    pub fn found(self, answer: Result<Option<String>, StoreError>) -> (removal: Result<
        FileRemoval,
        Rejection,
    >)
        ensures
            match answer {
                Err(_) => removal == Err::<FileRemoval, Rejection>(Rejection::Database),
                Ok(None) => removal == Err::<FileRemoval, Rejection>(
                    Rejection::ImageNotFoundOrDenied,
                ),
                Ok(Some(file_path)) => {
                    &&& removal is Ok
                    &&& removal->Ok_0.image_id == self.image_id
                    &&& removal->Ok_0.disk_path@ == disk_path_behind(file_path@)
                },
            },
    {
        match answer {
            Err(_) => Err(Rejection::Database),
            Ok(None) => Err(Rejection::ImageNotFoundOrDenied),
            Ok(Some(file_path)) => {
                let name = trim_start_matches(file_path.as_str(), "/images/");
                Ok(
                    FileRemoval {
                        image_id: self.image_id,
                        disk_path: "uploads/".to_owned().concat(name.as_str()),
                    },
                )
            },
        }
    }
}

impl FileRemoval {
    /// Goes on after the removal, whether the file could be removed or not: the record goes.
    pub fn removed(&self) -> (asked: Query)
        ensures
            asked@ == (Statement::<Seq<char>>::DeleteImage { image_id: self.image_id }),
    {
        Statement::DeleteImage { image_id: self.image_id }
    }

    /// Ends a deletion.
    pub fn deleted(self, outcome: Result<(), StoreError>) -> (answer: Result<Notice, Rejection>)
        ensures
            answer == (match outcome {
                Err(_) => Err::<Notice, Rejection>(Rejection::Database),
                Ok(_) => Ok::<Notice, Rejection>(Notice::ImageDeleted),
            }),
    {
        acknowledged(outcome, Notice::ImageDeleted)
    }
}

/// Deleting an image removes the very file that its upload wrote: the path that an upload records
/// leads back to the place where its data was put.
pub proof fn law_deletion_finds_uploaded_file(identifier: Seq<char>, extension: Seq<char>)
    requires
        is_uuid_v4(identifier),
    ensures
        disk_path_behind(public_path_of(file_name(identifier, extension))) == disk_path_of(
            file_name(identifier, extension),
        ),
{
    reveal_strlit("/images/");
    let name = file_name(identifier, extension);
    let prefix = "/images/"@;
    let path = public_path_of(name);
    assert(prefix =~= path.subrange(0, prefix.len() as int));
    assert(path.skip(prefix.len() as int) =~= name);
    assert(name[0] == identifier[0]);
    assert(is_hex_digit(identifier[0]));
    assert(prefix[0] == '/');
    assert(!prefix.is_prefix_of(name)) by {
        if prefix.is_prefix_of(name) {
            assert(name.subrange(0, prefix.len() as int)[0] == name[0]);
        }
    }
    assert(without_leading(name, prefix) == name);
    assert(without_leading(path, prefix) == without_leading(name, prefix));
}

proof fn lemma_joined_is_empty_only_without_parts(parts: Seq<Seq<char>>, separator: char)
    requires
        parts.len() > 0,
        forall|i: int| 0 <= i < parts.len() ==> (#[trigger] parts[i]).len() > 0,
    ensures
        joined(parts, separator).len() > 0,
{
    assert(parts[0].len() > 0);
}

/// A listing shows the tags of an image one by one: from the text that holds their names with
/// commas between them it gets the names back, provided that none is empty or holds a comma.
pub proof fn law_listed_tags_are_the_names(names: Seq<Seq<char>>)
    requires
        forall|i: int|
            0 <= i < names.len() ==> (#[trigger] names[i]).len() > 0 && !names[i].contains(','),
    ensures
        listed_tags(joined(names, ',')) == names,
{
    if names.len() == 0 {
        assert(listed_tags(joined(names, ',')) =~= names);
    } else {
        lemma_joined_is_empty_only_without_parts(names, ',');
        law_split_undoes_join(names, ',');
    }
}

/// Whatever its length, data whose signature stands for a kind of image is not refused, and goes by
/// the extension of that kind. Data of another kind is refused as no image, and only data without a
/// known signature as of unknown type. Left to other laws are data that start with a skippable
/// Zstandard frame, and archives whose first entry is nearly as long as a 32-bit number allows.
pub proof fn law_images_are_not_refused(data: Seq<u8>)
    requires
        data.len() < 8 || !(0x50 <= data[0] <= 0x5F && data[1] == 0x2A && data[2] == 0x4D && data[3]
            == 0x18),
        data.len() < 22 || !(data[0] == 0x50 && data[1] == 0x4B && data[2] == 3 && data[3] == 4)
            || data[18] + 0x100 * data[19] + 0x10000 * data[20] + 0x100_0000 * data[21]
            <= 0xFFFF_FFFF - 6049,
    ensures
        inferred_kind(data) is None <==> data_refusal(data) == Some(Rejection::UnknownFileType),
        inferred_kind(data) matches Some(kind) ==> {
            let image = kind.0.len() >= 6 && kind.0.take(6) == seq!['i', 'm', 'a', 'g', 'e', '/'];
            &&& image ==> data_refusal(data) is None && recognised(data) == Some(Some(kind))
            &&& !image ==> data_refusal(data) == Some(Rejection::NotAnImage)
        },
{
    law_signature_tells_the_kind(data);
    lemma_image_types_begin_so(inferred_kind(data)->Some_0.0);
}

proof fn lemma_image_types_begin_so(mime_type: Seq<char>)
    ensures
        is_image_type(mime_type) == (mime_type.len() >= 6 && mime_type.take(6) == seq![
            'i',
            'm',
            'a',
            'g',
            'e',
            '/',
        ]),
{
    reveal_strlit("image/");
    assert("image/"@ =~= seq!['i', 'm', 'a', 'g', 'e', '/']);
    if mime_type.len() >= 6 {
        assert(mime_type.take(6) =~= mime_type.subrange(0, 6));
    }
}

/// Also behind skippable frames an image is not refused, as long as the data can be searched.
pub proof fn law_searched_images_are_not_refused(data: Seq<u8>)
    requires
        can_be_inferred(data),
    ensures
        inferred_kind(data) is None <==> data_refusal(data) == Some(Rejection::UnknownFileType),
        inferred_kind(data) matches Some(kind) ==> {
            let image = kind.0.len() >= 6 && kind.0.take(6) == seq!['i', 'm', 'a', 'g', 'e', '/'];
            &&& image ==> data_refusal(data) is None && recognised(data) == Some(Some(kind))
            &&& !image ==> data_refusal(data) == Some(Rejection::NotAnImage)
        },
{
    lemma_image_types_begin_so(inferred_kind(data)->Some_0.0);
}

/// Zstandard data behind however long a row of skippable frames is never of unknown type.
pub proof fn law_zstandard_is_not_unknown(data: Seq<u8>)
    requires
        leads_to_zstandard(data, 0),
        !few_frames(data, 0, 256),
    ensures
        data_refusal(data) != Some(Rejection::UnknownFileType),
{
}

/// An image is kept as `uploads/<identifier>.<extension>` and served as
/// `/images/<identifier>.<extension>`.
pub proof fn law_paths_of_an_upload(identifier: Seq<char>, extension: Seq<char>)
    ensures
        disk_path_of(file_name(identifier, extension)) == "uploads/"@ + identifier + seq!['.']
            + extension,
        public_path_of(file_name(identifier, extension)) == "/images/"@ + identifier + seq!['.']
            + extension,
{
    reveal_strlit(".");
    assert("."@ =~= seq!['.']);
    assert(disk_path_of(file_name(identifier, extension)) =~= "uploads/"@ + identifier + seq!['.']
        + extension);
    assert(public_path_of(file_name(identifier, extension)) =~= "/images/"@ + identifier
        + seq!['.'] + extension);
}

/// Uploads under different identifiers never share a file or a public path, whatever their kinds.
pub proof fn law_uploads_do_not_collide(
    identifier: Seq<char>,
    extension: Seq<char>,
    other_identifier: Seq<char>,
    other_extension: Seq<char>,
)
    requires
        is_uuid_v4(identifier),
        is_uuid_v4(other_identifier),
        identifier != other_identifier,
    ensures
        disk_path_of(file_name(identifier, extension)) != disk_path_of(
            file_name(other_identifier, other_extension),
        ),
        public_path_of(file_name(identifier, extension)) != public_path_of(
            file_name(other_identifier, other_extension),
        ),
{
    let k = choose|k: int| 0 <= k < 36 && identifier[k] != other_identifier[k];
    assert(0 <= k < 36 && identifier[k] != other_identifier[k]) by {
        if forall|i: int| 0 <= i < 36 ==> identifier[i] == other_identifier[i] {
            assert(identifier =~= other_identifier);
        }
    }
    let a = file_name(identifier, extension);
    let b = file_name(other_identifier, other_extension);
    assert(a[k] == identifier[k] && b[k] == other_identifier[k]);
    let n = "uploads/"@.len() as int;
    assert(disk_path_of(a)[n + k] == a[k] && disk_path_of(b)[n + k] == b[k]);
    let m = "/images/"@.len() as int;
    assert(public_path_of(a)[m + k] == a[k] && public_path_of(b)[m + k] == b[k]);
}

/// The file behind a recorded path stands under the same name on disk: each leading `/images/` of
/// the path is left away, and whatever else it holds is kept.
pub proof fn law_path_leads_to_the_file_of_that_name(path: Seq<char>)
    ensures
        disk_path_behind("/images/"@ + path) == disk_path_behind(path),
        path.len() < "/images/"@.len() || path.take("/images/"@.len() as int) != "/images/"@
            ==> disk_path_behind(path) == "uploads/"@ + path,
{
    reveal_strlit("/images/");
    law_leading_prefixes_are_taken_away("/images/"@, path);
}

/// The favorite mark of a row is its truth value where that could be read; else it is set exactly
/// where a number other than zero could be read.
pub proof fn law_favorite_mark_is_read(mark: bool, number: Option<i64>, n: i64)
    ensures
        favorite_mark(Some(mark), number) == mark,
        favorite_mark(None, Some(n)) == (n != 0),
        !favorite_mark(None, None),
{
}

/// The tags that are listed spell the text of the row: with commas between them they make it up
/// again, and none of them holds a comma. Of no text there are no tags.
pub proof fn law_listed_tags_spell_the_text(tags: Seq<char>)
    ensures
        tags.len() == 0 ==> listed_tags(tags).len() == 0,
        tags.len() > 0 ==> listed_tags(tags).len() > 0,
        joined(listed_tags(tags), ',') == tags,
        forall|i: int|
            0 <= i < listed_tags(tags).len() ==> !(#[trigger] listed_tags(tags)[i]).contains(','),
{
    lemma_pieces_are_separated(tags, ',');
    law_join_undoes_split(tags, ',');
    if tags.len() == 0 {
        assert(joined(listed_tags(tags), ',') =~= tags);
    }
}

/// A record has the id, the path and the mark of its row, and its tags spell the text of the row.
pub proof fn law_record_tells_its_row(record: ImageRecord, row: ImageRow)
    requires
        lists_row(record, row),
    ensures
        record.id == row.id,
        record.file_path@ == row.file_path@,
        row.favorited_bool matches Some(mark) ==> record.is_favorited == mark,
        row.favorited_bool is None ==> (record.is_favorited <==> (row.favorited_number is Some
            && row.favorited_number->Some_0 != 0)),
        joined(views(record.tags@), ',') == row.tags@,
        row.tags@.len() == 0 <==> record.tags@.len() == 0,
        forall|i: int|
            0 <= i < record.tags@.len() ==> !(#[trigger] record.tags@[i])@.contains(','),
{
    law_listed_tags_spell_the_text(row.tags@);
    assert(views(record.tags@).len() == record.tags@.len());
    assert forall|i: int| 0 <= i < record.tags@.len() implies !(
    #[trigger] record.tags@[i])@.contains(',') by {
        assert(views(record.tags@)[i] == record.tags@[i]@);
        assert(!listed_tags(row.tags@)[i].contains(','));
    }
}

/// A listing that is asked for with a tag is restricted to that very tag, however long; one that is
/// asked for without a tag is not restricted.
pub proof fn law_filter_is_the_tag_asked_for(params: SearchParams)
    ensures
        params.tag matches Some(tag) ==> tag_filter(params) == tag@,
        params.tag is None ==> tag_filter(params).len() == 0,
{
}

} // verus!
