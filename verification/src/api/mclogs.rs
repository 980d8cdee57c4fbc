//! mclo.gs, where logs are uploaded and read back.
use vstd::prelude::*;
use vstd::string::StringExecFns;

verus! {

pub const MCLOGS: &'static str = "https://api.mclo.gs/1";

pub const UPLOAD: &'static str = "/log";

pub const RAW: &'static str = "/raw";

/// The answer to an upload.
#[derive(Debug)]
pub struct PostLogResponse {
    pub success: bool,
    pub id: Option<String>,
    pub url: Option<String>,
    pub raw: Option<String>,
    pub error: Option<String>,
}

/// Where logs are uploaded.
pub fn upload_url() -> (r: String)
    ensures
        r@ == MCLOGS@ + UPLOAD@,
{
    let mut r = String::from_str(MCLOGS);
    r.append(UPLOAD);
    r
}

/// Where the text of the log `id` is read.
pub fn raw_log_url(id: &str) -> (r: String)
    ensures
        r@ == MCLOGS@ + RAW@ + "/"@ + id@,
{
    let mut r = String::from_str(MCLOGS);
    r.append(RAW);
    r.append("/");
    r.append(id);
    r
}

} // verus!
