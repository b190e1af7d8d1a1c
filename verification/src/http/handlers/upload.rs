//! Upload of a track: which files are taken, and under which name.

use vstd::prelude::*;
use vstd::string::*;

use crate::http::handlers::status::{CONFLICT, FORBIDDEN};
use crate::text::{after_last, last_segment, lowercase, lowercase_text};

verus! {

/// What the page shows after an upload: the last file that was stored.
#[derive(Debug)]
pub struct UploadTemplate {
    title: String,
    upload_uuid: String,
    bytes: usize,
}

/// The characters that are taken out of a file name.
pub open spec fn is_dropped(c: char) -> bool {
    c == ' ' || c == '-' || c == '(' || c == ')' || c == '"' || c == ']' || c == '[' || c == '\''
}

/// The characters of `s` in order, without those that are taken out of a
/// file name.
pub open spec fn kept_text(s: Seq<char>) -> Seq<char>
    decreases s.len(),
{
    if s.len() == 0 {
        s
    } else if is_dropped(s.last()) {
        kept_text(s.drop_last())
    } else {
        kept_text(s.drop_last()).push(s.last())
    }
}

/// The name under which an uploaded file is kept: in lowercase, without
/// blanks, hyphens, round and square brackets and quotes.
pub open spec fn normalized_text(file_name: Seq<char>) -> Seq<char> {
    kept_text(lowercase_text(file_name))
}

/// The suffix of a file name, which follows its last dot, names a format
/// that is taken: `mp3` or `wav`.
pub open spec fn has_accepted_suffix(file_name: Seq<char>) -> bool {
    after_last(file_name, '.') == "mp3"@ || after_last(file_name, '.') == "wav"@
}

/// Where an upload is stored below the directory `dir`.
pub open spec fn upload_path_text(dir: Seq<char>, upload_uuid: Seq<char>, file_name: Seq<char>) -> Seq<
    char,
> {
    dir + "/"@ + upload_uuid + "-"@ + file_name
}

impl UploadTemplate {
    /// Title of the file that was stored last.
    pub closed spec fn title_text(&self) -> Seq<char> {
        self.title@
    }

    /// Identifier of the upload that was stored last.
    pub closed spec fn uuid_text(&self) -> Seq<char> {
        self.upload_uuid@
    }

    /// Size of the file that was stored last.
    pub closed spec fn size(&self) -> usize {
        self.bytes
    }

    /// The page before any file is stored.
    pub fn new() -> (template: UploadTemplate)
        ensures
            template.title_text() == Seq::<char>::empty(),
            template.uuid_text() == Seq::<char>::empty(),
            template.size() == 0,
    {
        UploadTemplate { title: String::new(), upload_uuid: String::new(), bytes: 0 }
    }

    /// Notes the file that was just stored.
    pub fn record(&mut self, file_name: String, upload_uuid: String, bytes: usize)
        ensures
            final(self).title_text() == file_name@,
            final(self).uuid_text() == upload_uuid@,
            final(self).size() == bytes,
    {
        self.title = file_name;
        self.upload_uuid = upload_uuid;
        self.bytes = bytes;
    }

    /// Title of the file that was stored last.
    pub fn title(&self) -> (title: &String)
        ensures
            title@ == self.title_text(),
    {
        &self.title
    }

    /// Identifier of the upload that was stored last.
    pub fn upload_uuid(&self) -> (upload_uuid: &String)
        ensures
            upload_uuid@ == self.uuid_text(),
    {
        &self.upload_uuid
    }

    /// Size of the file that was stored last.
    pub fn bytes(&self) -> (bytes: usize)
        ensures
            bytes == self.size(),
    {
        self.bytes
    }
}

fn dropped(c: char) -> (b: bool)
    ensures
        b == is_dropped(c),
{
    c == ' ' || c == '-' || c == '(' || c == ')' || c == '"' || c == ']' || c == '[' || c == '\''
}

/// The name under which an uploaded file is kept.
pub fn normalize_file_name(file_name: &str) -> (normalized: String)
    ensures
        normalized@ == normalized_text(file_name@),
{
    let lower = lowercase(file_name);
    let mut normalized = String::new();
    for c in iter: lower.as_str().chars()
        invariant
            iter.seq() == lower@,
            normalized@ == kept_text(lower@.take(iter.index() as int)),
    {
        let ghost after = lower@.take(iter.index() + 1);
        assert(after.drop_last() =~= lower@.take(iter.index() as int));
        assert(after.last() == c);
        if !dropped(c) {
            normalized.push(c);
        }
    }
    assert(lower@.take(lower@.len() as int) =~= lower@);
    normalized
}

/// Whether the suffix of the file name names a format that is taken.
pub fn is_accepted(file_name: &str) -> (accepted: bool)
    ensures
        accepted == has_accepted_suffix(file_name@),
{
    let suffix = last_segment(file_name, '.');
    let mp3 = String::from_str("mp3");
    let wav = String::from_str("wav");
    suffix == mp3 || suffix == wav
}

/// Where an upload is stored below the directory `dir`.
pub fn upload_path(dir: &str, upload_uuid: &str, file_name: &str) -> (path: String)
    ensures
        path@ == upload_path_text(dir@, upload_uuid@, file_name@),
{
    let mut path = String::from_str(dir);
    path.append("/");
    path.append(upload_uuid);
    path.append("-");
    path.append(file_name);
    path
}

/// Decides on one uploaded file before it is stored: a request without a
/// session is in conflict, a file whose normalized name has no accepted
/// suffix is forbidden, and any other file is stored under its normalized
/// name.
pub fn upload_track(session: Option<&str>, file_name: &str) -> (r: Result<String, u16>)
    ensures
        session is None ==> r == Err::<String, u16>(CONFLICT),
        session is Some && !has_accepted_suffix(normalized_text(file_name@)) ==> r == Err::<
            String,
            u16,
        >(FORBIDDEN),
        session is Some && has_accepted_suffix(normalized_text(file_name@)) ==> r is Ok
            && r->Ok_0@ == normalized_text(file_name@),
{
    if session.is_none() {
        return Err(CONFLICT);
    }
    let file_name_normalized = normalize_file_name(file_name);
    if is_accepted(file_name_normalized.as_str()) {
        Ok(file_name_normalized)
    } else {
        Err(FORBIDDEN)
    }
}

} // verus!
