//! Construction of the download URLs the pipeline fetches from.
//!
//! The remote layout is fixed: `{base}/version` serves the current version
//! token as plain text, and `{base}/{version}-{prefix}{channel}.zip` serves
//! the archive blob for one distribution channel of one version.

use vstd::prelude::*;
use vstd::string::StringExecFns;

verus! {

/// The endpoint serving the current remote version token.
pub fn version_url(base: &str) -> (u: String)
    ensures
        u@ == base@ + "/version"@,
{
    let mut u = base.to_owned();
    u.append("/version");
    u
}

/// The endpoint serving the archive blob of one channel of one version:
/// `{base}/{version}-{prefix}{channel}.zip`.
pub fn archive_url(base: &str, version: &str, prefix: &str, channel: &str) -> (u: String)
    ensures
        u@ == base@ + "/"@ + version@ + "-"@ + prefix@ + channel@ + ".zip"@,
{
    let mut u = base.to_owned();
    u.append("/");
    u.append(version);
    u.append("-");
    u.append(prefix);
    u.append(channel);
    u.append(".zip");
    u
}

} // verus!
