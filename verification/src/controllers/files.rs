//! One-time download and upload links: the signed token's claims, the checks
//! a request passes, and the names and paths it ends up with.
use vstd::prelude::*;

use super::{error_reply, reply_is, ErrorReply};
use crate::cache::BackupRecord;
use crate::text::{
    after_last, after_last_chars, chars_of, concat2, concat3, eq_chars, owned, string_of,
    strip_end, strip_start, trim, trim_chars, trim_class, CharClass,
};

verus! {

pub struct DownloadQuery {
    pub token: String,
}

/// The claims of a file download link.
pub struct FileJwtPayload {
    pub site_id: String,
    pub file_path: String,
    pub unique_id: String,
}

/// The claims of a backup download link.
pub struct BackupJwtPayload {
    pub site_id: String,
    pub backup_id: String,
    pub unique_id: String,
}

pub struct UploadQuery {
    pub token: String,
    /// Where under the site's root the file goes; its root when empty.
    pub directory: String,
}

/// The claims of an upload link.
pub struct UploadJwtPayload {
    pub site_id: String,
    pub unique_id: String,
    pub permissions: Vec<String>,
}

/// A link is refused with 401 when its token does not verify, when its
/// claims do not validate (the error given), or when it was used before;
/// in that order.
pub fn token_gate(verified: bool, invalid_claims: Option<String>, first_use: bool) -> (r: Result<
    (),
    ErrorReply,
>)
    ensures
        !verified ==> (r matches Err(e) && reply_is(e, 401, "invalid token"@)),
        verified && invalid_claims is Some ==> (r matches Err(e) && reply_is(
            e,
            401,
            "invalid token: "@ + invalid_claims.unwrap()@,
        )),
        verified && invalid_claims is None && !first_use ==> (r matches Err(e) && reply_is(
            e,
            401,
            "token has already been used"@,
        )),
        verified && invalid_claims is None && first_use ==> r is Ok,
{
    if !verified {
        return Err(error_reply(401, "invalid token"));
    }
    match invalid_claims {
        Some(err) => Err(ErrorReply { status: 401, message: concat2("invalid token: ", err.as_str()) }),
        None => if !first_use {
            Err(error_reply(401, "token has already been used"))
        } else {
            Ok(())
        },
    }
}

/// The name a downloaded file is offered under: the last piece of its path.
pub fn download_file_name(file_path: &str) -> (n: String)
    ensures
        n@ == after_last(file_path@, '/'),
{
    string_of(&after_last_chars(chars_of(file_path).as_slice(), '/'))
}

/// The `content-disposition` value that offers a download as `name`.
pub fn attachment_header(name: &str) -> (h: String)
    ensures
        h@ == "attachment; filename=\""@ + name@ + "\""@,
{
    concat3("attachment; filename=\"", name, "\"")
}

/// The `content-disposition` value of a backup download.
pub fn backup_attachment_header(backup_id: &str) -> (h: String)
    ensures
        h@ == "attachment; filename=\""@ + backup_id@ + ".tar.gz\""@,
{
    concat3("attachment; filename=\"", backup_id, ".tar.gz\"")
}

/// The first of the site's backups with this id.
pub fn find_backup(backups: &Vec<BackupRecord>, backup_id: &str) -> (r: Option<usize>)
    ensures
        match r {
            Some(i) => i < backups@.len() && backups@[i as int].id@ == backup_id@ && forall|k: int|
                0 <= k < i ==> #[trigger] backups@[k].id@ != backup_id@,
            None => forall|k: int| 0 <= k < backups@.len() ==> #[trigger] backups@[k].id@ != backup_id@,
        },
{
    let want = chars_of(backup_id);
    let mut i: usize = 0;
    while i < backups.len()
        invariant
            i <= backups@.len(),
            want@ == backup_id@,
            forall|k: int| 0 <= k < i ==> #[trigger] backups@[k].id@ != backup_id@,
        decreases backups.len() - i,
    {
        if eq_chars(chars_of(backups[i].id.as_str()).as_slice(), want.as_slice()) {
            return Some(i);
        }
        i = i + 1;
    }
    None
}

/// Does the link grant this permission? It does when it lists it.
pub fn has_permission(permissions: &Vec<String>, wanted: &str) -> (b: bool)
    ensures
        b == exists|k: int| 0 <= k < permissions@.len() && #[trigger] permissions@[k]@ == wanted@,
{
    let want = chars_of(wanted);
    let mut i: usize = 0;
    while i < permissions.len()
        invariant
            i <= permissions@.len(),
            want@ == wanted@,
            forall|k: int| 0 <= k < i ==> #[trigger] permissions@[k]@ != wanted@,
        decreases permissions.len() - i,
    {
        if eq_chars(chars_of(permissions[i].as_str()).as_slice(), want.as_slice()) {
            return true;
        }
        i = i + 1;
    }
    false
}

/// The directory an upload goes to, as given: trimmed, without slashes at
/// either end.
pub open spec fn upload_dir(directory: Seq<char>) -> Seq<char> {
    strip_end(strip_start(trim(directory), CharClass::Exactly('/')), CharClass::Exactly('/'))
}

/// Where an uploaded file goes, relative to the site's root: its name in
/// the given directory, or at the root when none is given.
pub fn upload_target_path(directory: &str, name: &str) -> (p: String)
    ensures
        p@ == (if upload_dir(directory@).len() == 0 {
            name@
        } else {
            upload_dir(directory@) + "/"@ + name@
        }),
{
    let t = trim_chars(chars_of(directory).as_slice());
    let d = trim_class(t.as_slice(), CharClass::Exactly('/'));
    if d.len() == 0 {
        owned(name)
    } else {
        let ds = string_of(&d);
        concat3(ds.as_str(), "/", name)
    }
}

} // verus!
