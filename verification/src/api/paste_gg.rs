//! paste.gg: listing the files of a paste and reading one.
use vstd::prelude::*;
use vstd::string::StringExecFns;

verus! {

pub const PASTE_GG: &'static str = "https://api.paste.gg/v1";

pub const PASTES: &'static str = "/pastes";

/// Whether a request succeeded.
#[derive(Clone, Copy, Debug, PartialEq, Eq, PartialOrd, Ord)]
pub enum Status {
    Success,
    Error,
}

/// An answer of paste.gg.
#[derive(Debug)]
pub struct Response<T> {
    pub status: Status,
    pub result: Option<Vec<T>>,
    pub error: Option<String>,
    pub message: Option<String>,
}

/// A file of a paste.
#[derive(Debug)]
pub struct Files {
    pub id: String,
    pub name: Option<String>,
}

/// Where the files of the paste `id` are listed.
pub fn files_url(id: &str) -> (r: String)
    ensures
        r@ == PASTE_GG@ + PASTES@ + "/"@ + id@ + "/files"@,
{
    let mut r = String::from_str(PASTE_GG);
    r.append(PASTES);
    r.append("/");
    r.append(id);
    r.append("/files");
    r
}

/// Where the text of file `file_id` of paste `paste_id` is read.
pub fn raw_file_url(paste_id: &str, file_id: &str) -> (r: String)
    ensures
        r@ == PASTE_GG@ + PASTES@ + "/"@ + paste_id@ + "/files/"@ + file_id@ + "/raw"@,
{
    let mut r = String::from_str(PASTE_GG);
    r.append(PASTES);
    r.append("/");
    r.append(paste_id);
    r.append("/files/");
    r.append(file_id);
    r.append("/raw");
    r
}

/// A listing of files, or the error that paste.gg reported: its message,
/// or a note that it gave none.
pub fn files_from_response(resp: Response<Files>) -> (r: Result<Response<Files>, String>)
    ensures
        resp.status == Status::Success ==> r == Ok::<Response<Files>, String>(resp),
        resp.status == Status::Error ==> (r matches Err(e) && e@ == match resp.error {
            Some(m) => m@,
            None => "Paste.gg gave us an error but with no message!"@,
        }),
{
    match resp.status {
        Status::Error => match resp.error {
            Some(m) => Err(m),
            None => Err(String::from_str("Paste.gg gave us an error but with no message!")),
        },
        Status::Success => Ok(resp),
    }
}

/// The id of the first file of a listing, or why there is none.
pub fn first_file_id(files: &Response<Files>) -> (r: Result<String, String>)
    ensures
        match files.result {
            None => r matches Err(e) && e@ == "Got an empty result from paste.gg!"@,
            Some(list) => if list@.len() == 0 {
                r matches Err(e) && e@ == "Couldn't get file id from empty paste.gg response!"@
            } else {
                r matches Ok(id) && id@ == list@[0].id@
            },
        },
{
    match &files.result {
        None => Err(String::from_str("Got an empty result from paste.gg!")),
        Some(list) => if list.len() == 0 {
            Err(String::from_str("Couldn't get file id from empty paste.gg response!"))
        } else {
            Ok(list[0].id.clone())
        },
    }
}

} // verus!
