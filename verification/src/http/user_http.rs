//! The classification page of a track, which is put together from the
//! answers of the transformation service.

use vstd::prelude::*;
use vstd::string::*;

use crate::db::db_conn::Upload;
use crate::http::handlers::status::BAD_REQUEST;
use crate::text::{after_last, last_segment, replace_all, replaced};

verus! {

/// Where the transformation service is asked whether a file exists.
pub const CHECK_URL: &'static str = "http://127.0.0.1:8000/transform/check/";

/// Where the transformation service is asked for signal and sound.
pub const STEP_1_URL: &'static str = "http://127.0.0.1:8000/transform/step_1";

/// Where the transformation service is asked for the artifacts.
pub const STEP_2_URL: &'static str = "http://127.0.0.1:8000/transform/step_2";

/// Samples in one analysis frame, as the service is told.
pub const FRAME_SIZE: &'static str = "4096";

/// Samples between the starts of two frames, as the service is told.
pub const HOP_SIZE: &'static str = "512";

/// The JSON text of member `key` of the JSON object `body`, as the crate
/// `serde_json` parses and prints it; `None` where `body` is no JSON text
/// or holds no such member.
pub uninterp spec fn json_member_text(body: Seq<char>, key: Seq<char>) -> Option<Seq<char>>;

/// The content of member `key` of the JSON object `body` where that member
/// is a string, as the crate `serde_json` parses it; `None` where `body` is
/// no JSON text, holds no such member, or holds one that is no string.
pub uninterp spec fn json_member_string(body: Seq<char>, key: Seq<char>) -> Option<Seq<char>>;

/// Parses `body` with `serde_json::from_str`, looks `key` up with
/// `Value::get` and prints the member with its `Display` form. The result
/// depends on the two texts alone; nothing more is claimed of it.
#[verifier::external_body]
pub(crate) fn member_text(body: &str, key: &str) -> (text: Option<String>)
    ensures
        text is Some <==> json_member_text(body@, key@) is Some,
        text is Some ==> text->Some_0@ == json_member_text(body@, key@)->Some_0,
{
    let value: serde_json::Value = serde_json::from_str(body).ok()?;
    Some(value.get(key)?.to_string())
}

/// Parses `body` with `serde_json::from_str`, looks `key` up with
/// `Value::get` and takes the member's content with `Value::as_str`. The
/// result depends on the two texts alone; nothing more is claimed of it.
#[verifier::external_body]
pub(crate) fn member_string(body: &str, key: &str) -> (content: Option<String>)
    ensures
        content is Some <==> json_member_string(body@, key@) is Some,
        content is Some ==> content->Some_0@ == json_member_string(body@, key@)->Some_0,
{
    let value: serde_json::Value = serde_json::from_str(body).ok()?;
    Some(value.get(key)?.as_str()?.to_owned())
}

/// The page of one upload.
#[derive(Debug)]
pub struct TrackPage {
    pub upload: Upload,
}

/// The page that shows the artifacts of one upload.
#[derive(Debug)]
pub struct ClassificationPage {
    pub upload: Upload,
    pub mel_mp4: String,
    pub mfcc_mp4: String,
    pub power_mp4: String,
    pub sound_location: String,
    pub signal_np: String,
}

/// What the second request to the transformation service carries in its
/// headers.
#[derive(Debug)]
pub struct ArtifactRequest {
    pub sound_location: String,
    pub signal: String,
    pub frame_size: String,
    pub hop_size: String,
    pub filename: String,
}

/// The name under which an upload is known to the transformation service.
pub open spec fn stored_name_text(upload_uuid: Seq<char>, file_name: Seq<char>) -> Seq<char> {
    upload_uuid + "-"@ + file_name
}

/// A location as the page links it: the JSON text of a member without its
/// quotes and without the prefix of the back end.
pub open spec fn media_path_text(member: Seq<char>) -> Seq<char> {
    replaced(replaced(member, "\""@, ""@), "../back"@, ""@)
}

/// A location that may be written with doubled backslashes, as the page
/// links it: without quotes, with slashes, without the prefix of the back
/// end.
pub open spec fn location_text(member: Seq<char>) -> Seq<char> {
    replaced(replaced(replaced(member, "\""@, ""@), "\\\\"@, "/"@), "../back"@, ""@)
}

/// The file name of a location: what follows its last slash.
pub open spec fn signal_name_text(member: Seq<char>) -> Seq<char> {
    after_last(location_text(member), '/')
}

/// The name under which an upload is known to the transformation service.
pub fn stored_name(upload_uuid: &str, file_name: &str) -> (name: String)
    ensures
        name@ == stored_name_text(upload_uuid@, file_name@),
{
    let mut name = String::from_str(upload_uuid);
    name.append("-");
    name.append(file_name);
    name
}

/// The address at which the transformation service is asked whether the
/// file of an upload exists.
pub fn check_url(upload_uuid: &str, file_name: &str) -> (url: String)
    ensures
        url@ == CHECK_URL@ + stored_name_text(upload_uuid@, file_name@),
{
    let mut url = String::from_str(CHECK_URL);
    url.append(upload_uuid);
    url.append("-");
    url.append(file_name);
    assert(url@ =~= CHECK_URL@ + stored_name_text(upload_uuid@, file_name@));
    url
}

/// The JSON text of a member as a location that the page links.
pub fn clean_media_path(member: &str) -> (path: String)
    ensures
        path@ == media_path_text(member@),
{
    let unquoted = replace_all(member, "\"", "");
    replace_all(unquoted.as_str(), "../back", "")
}

/// The JSON text of a member that may be written with doubled backslashes
/// as a location that the page links.
pub fn clean_location(member: &str) -> (location: String)
    ensures
        location@ == location_text(member@),
{
    let unquoted = replace_all(member, "\"", "");
    let slashed = replace_all(unquoted.as_str(), "\\\\", "/");
    replace_all(slashed.as_str(), "../back", "")
}

/// The file name of the location that the JSON text of a member holds.
pub fn signal_name(member: &str) -> (name: String)
    ensures
        name@ == signal_name_text(member@),
{
    let location = clean_location(member);
    last_segment(location.as_str(), '/')
}

/// What the second request to the transformation service carries, from
/// the members that the answer to the first holds.
pub fn artifact_headers(sound_location: String, signal: String, filename: String) -> (request:
    ArtifactRequest)
    ensures
        request.sound_location == sound_location,
        request.signal == signal,
        request.filename == filename,
        request.frame_size@ == FRAME_SIZE@,
        request.hop_size@ == HOP_SIZE@,
{
    ArtifactRequest {
        sound_location,
        signal,
        frame_size: String::from_str(FRAME_SIZE),
        hop_size: String::from_str(HOP_SIZE),
        filename,
    }
}

/// What the second request to the transformation service carries, read
/// from the answer `body` to the first: the strings `sound_location`,
/// `signal` and `filename`. There is none where one of them is missing.
pub fn artifact_request(body: &str) -> (request: Option<ArtifactRequest>)
    ensures
        request is Some <==> json_member_string(body@, "sound_location"@) is Some
            && json_member_string(body@, "signal"@) is Some && json_member_string(
            body@,
            "filename"@,
        ) is Some,
        request is Some ==> request->Some_0.sound_location@ == json_member_string(
            body@,
            "sound_location"@,
        )->Some_0 && request->Some_0.signal@ == json_member_string(body@, "signal"@)->Some_0
            && request->Some_0.filename@ == json_member_string(body@, "filename"@)->Some_0
            && request->Some_0.frame_size@ == FRAME_SIZE@ && request->Some_0.hop_size@
            == HOP_SIZE@,
{
    let sound_location = match member_string(body, "sound_location") {
        Some(s) => s,
        None => {
            return None;
        },
    };
    let signal = match member_string(body, "signal") {
        Some(s) => s,
        None => {
            return None;
        },
    };
    let filename = match member_string(body, "filename") {
        Some(s) => s,
        None => {
            return None;
        },
    };
    Some(artifact_headers(sound_location, signal, filename))
}

/// The page of `upload` from the JSON texts of the five members that name
/// its artifacts.
pub fn classification_page(
    upload: Upload,
    power_mp4: &str,
    mel_mp4: &str,
    mfcc_mp4: &str,
    sound_location: &str,
    signal: &str,
) -> (page: ClassificationPage)
    ensures
        page.upload == upload,
        page.power_mp4@ == media_path_text(power_mp4@),
        page.mel_mp4@ == media_path_text(mel_mp4@),
        page.mfcc_mp4@ == media_path_text(mfcc_mp4@),
        page.sound_location@ == location_text(sound_location@),
        page.signal_np@ == signal_name_text(signal@),
{
    ClassificationPage {
        upload,
        power_mp4: clean_media_path(power_mp4),
        mel_mp4: clean_media_path(mel_mp4),
        mfcc_mp4: clean_media_path(mfcc_mp4),
        sound_location: clean_location(sound_location),
        signal_np: signal_name(signal),
    }
}

/// The page of `upload`, read from the answer `body` of the transformation
/// service to the second request: its members `power_mp4`, `mel_mp4`,
/// `mfcc_mp4`, `sound_location` and `signal`. There is none where one of
/// them is missing.
pub fn send_to_classification(upload: Upload, body: &str) -> (page: Option<ClassificationPage>)
    ensures
        page is Some <==> json_member_text(body@, "power_mp4"@) is Some && json_member_text(
            body@,
            "mel_mp4"@,
        ) is Some && json_member_text(body@, "mfcc_mp4"@) is Some && json_member_text(
            body@,
            "sound_location"@,
        ) is Some && json_member_text(body@, "signal"@) is Some,
        page is Some ==> page->Some_0.upload == upload && page->Some_0.power_mp4@
            == media_path_text(json_member_text(body@, "power_mp4"@)->Some_0)
            && page->Some_0.mel_mp4@ == media_path_text(
            json_member_text(body@, "mel_mp4"@)->Some_0,
        ) && page->Some_0.mfcc_mp4@ == media_path_text(
            json_member_text(body@, "mfcc_mp4"@)->Some_0,
        ) && page->Some_0.sound_location@ == location_text(
            json_member_text(body@, "sound_location"@)->Some_0,
        ) && page->Some_0.signal_np@ == signal_name_text(
            json_member_text(body@, "signal"@)->Some_0,
        ),
{
    let power_mp4 = match member_text(body, "power_mp4") {
        Some(s) => s,
        None => {
            return None;
        },
    };
    let mel_mp4 = match member_text(body, "mel_mp4") {
        Some(s) => s,
        None => {
            return None;
        },
    };
    let mfcc_mp4 = match member_text(body, "mfcc_mp4") {
        Some(s) => s,
        None => {
            return None;
        },
    };
    let sound_location = match member_text(body, "sound_location") {
        Some(s) => s,
        None => {
            return None;
        },
    };
    let signal = match member_text(body, "signal") {
        Some(s) => s,
        None => {
            return None;
        },
    };
    Some(
        classification_page(
            upload,
            power_mp4.as_str(),
            mel_mp4.as_str(),
            mfcc_mp4.as_str(),
            sound_location.as_str(),
            signal.as_str(),
        ),
    )
}

/// The page of `upload` for a request with a session; a request without
/// one is a bad request.
pub fn get_track_details(session: Option<&str>, upload: Upload) -> (r: Result<TrackPage, u16>)
    ensures
        session is Some ==> r is Ok && r->Ok_0.upload == upload,
        session is None ==> r == Err::<TrackPage, u16>(BAD_REQUEST),
{
    match session {
        Some(_) => Ok(TrackPage { upload }),
        None => Err(BAD_REQUEST),
    }
}

} // verus!
