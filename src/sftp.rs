//! File-transfer sessions: which host a session belongs to, and where an
//! upload lands.
use vstd::prelude::*;
use vstd::string::*;
use crate::hosts::opt_text;
use crate::registry::Registry;
use crate::text::{file_name, file_name_of};

verus! {

/// Records that `session_id` was opened against the host `host_id`, so that
/// later requests can find the host's credentials again.
pub fn sftp_connect_session(host_map: &mut Registry<String>, session_id: String, host_id: String)
    requires
        old(host_map).wf(),
    ensures
        final(host_map).wf(),
        final(host_map)@ == old(host_map)@.insert(session_id@, host_id),
{
    host_map.insert(session_id, host_id);
}

pub open spec fn session_not_found_text() -> Seq<char> {
    "Session not found"@
}

/// The host that `session_id` was opened against.
pub fn sftp_get_host(host_map: &Registry<String>, session_id: &str) -> (r: Result<String, String>)
    requires
        host_map.wf(),
    ensures
        host_map@.contains_key(session_id@) ==> r == Ok::<String, String>(host_map@[session_id@]),
        !host_map@.contains_key(session_id@) ==> (r matches Err(m) && m@ == session_not_found_text()),
{
    match host_map.get(session_id) {
        Some(h) => Ok(h.clone()),
        None => Err(String::from_str("Session not found")),
    }
}

/// A remote path ending in `/` names a directory: the file keeps its local
/// name there (or `upload` when it has none). Any other path is the target.
pub open spec fn destination_spec(remote: Seq<char>, local_name: Option<Seq<char>>) -> Seq<char> {
    if remote.len() > 0 && remote.last() == '/' {
        remote + match local_name {
            Some(n) => n,
            None => "upload"@,
        }
    } else {
        remote
    }
}

pub fn destination_for(remote_path: &str, local_name: &Option<String>) -> (r: String)
    ensures
        r@ == destination_spec(remote_path@, opt_text(*local_name)),
{
    let n = remote_path.unicode_len();
    if n > 0 && remote_path.get_char(n - 1) == '/' {
        let base = String::from_str(remote_path);
        match local_name {
            Some(name) => base.concat(name.as_str()),
            None => base.concat("upload"),
        }
    } else {
        String::from_str(remote_path)
    }
}

/// Where the upload of `local_path` to `remote_path` is written.
pub fn upload_destination(remote_path: &str, local_path: &str) -> (r: String)
    ensures
        r@ == destination_spec(remote_path@, file_name_of(local_path@)),
{
    let name = file_name(local_path);
    destination_for(remote_path, &name)
}

} // verus!
