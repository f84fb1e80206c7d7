use vstd::prelude::*;

use crate::text::{decimal, push_decimal};

verus! {

/// Relies on `users::get_effective_uid`, which asks the system (`geteuid`)
/// for the effective user id of the calling process. Nothing is promised of
/// its value.
#[verifier::external_body]
fn effective_uid() -> (r: u32) {
    users::get_effective_uid()
}

/// `name` appended to the path `dir` as one more component: a separator is
/// put between them unless `dir` is empty or already ends with one.
pub open spec fn path_join(dir: Seq<char>, name: Seq<char>) -> Seq<char> {
    if dir.len() == 0 || dir.last() == '/' {
        dir + name
    } else {
        dir.push('/') + name
    }
}

/// The directory that holds the socket under a runtime directory.
pub open spec fn socket_dir_spec(runtime_dir: Seq<char>) -> Seq<char> {
    path_join(runtime_dir, "handsfree"@)
}

/// The socket under a runtime directory.
pub open spec fn runtime_socket_path_spec(runtime_dir: Seq<char>) -> Seq<char> {
    path_join(socket_dir_spec(runtime_dir), "daemon.sock"@)
}

/// The socket that a user falls back to: one per user id, under `/tmp`.
pub open spec fn fallback_socket_path_spec(uid: u32) -> Seq<char> {
    "/tmp/handsfree-"@ + decimal(uid as nat) + ".sock"@
}

/// The socket path that resolution gives: the one under the runtime
/// directory where that directory is usable, else the per-user fallback.
pub open spec fn resolved_socket_path(runtime_dir: Option<Seq<char>>, uid: u32) -> Seq<char> {
    match runtime_dir {
        Some(d) => runtime_socket_path_spec(d),
        None => fallback_socket_path_spec(uid),
    }
}

/// Appends `name` to the path `dir` as one more component.
fn join(dir: &str, name: &str) -> (r: String)
    ensures
        r@ == path_join(dir@, name@),
{
    let n = dir.unicode_len();
    let mut s = String::from_str(dir);
    if n > 0 && dir.get_char(n - 1) != '/' {
        s.append("/");
        proof {
            reveal_strlit("/");
        }
    }
    s.append(name);
    s
}

/// The directory under `runtime_dir` that must exist before the service's
/// socket can be placed there.
pub fn socket_dir(runtime_dir: &str) -> (r: String)
    ensures
        r@ == socket_dir_spec(runtime_dir@),
{
    join(runtime_dir, "handsfree")
}

/// The socket path under `runtime_dir`.
pub fn runtime_socket_path(runtime_dir: &str) -> (r: String)
    ensures
        r@ == runtime_socket_path_spec(runtime_dir@),
{
    let dir = socket_dir(runtime_dir);
    join(dir.as_str(), "daemon.sock")
}

/// The socket path of the user `uid` when no runtime directory is usable.
pub fn fallback_socket_path(uid: u32) -> (r: String)
    ensures
        r@ == fallback_socket_path_spec(uid),
{
    let mut s = String::from_str("/tmp/handsfree-");
    push_decimal(&mut s, uid as u64);
    s.append(".sock");
    s
}

/// Resolves the socket path for the user `uid`. `usable_runtime_dir` is the
/// runtime directory when one is set and the socket's directory under it
/// exists; otherwise it is `None`, and the per-user fallback is used. The
/// path is never empty.
pub fn resolve_socket_path(usable_runtime_dir: Option<&str>, uid: u32) -> (r: String)
    ensures
        r@ == resolved_socket_path(
            match usable_runtime_dir {
                Some(d) => Some(d@),
                None => None,
            },
            uid,
        ),
        r@.len() > 0,
{
    proof {
        reveal_strlit("daemon.sock");
        reveal_strlit("/tmp/handsfree-");
    }
    match usable_runtime_dir {
        Some(d) => runtime_socket_path(d),
        None => fallback_socket_path(uid),
    }
}

/// Resolves the socket path for the calling user, as `resolve_socket_path`
/// does, with the effective user id of this process for the fallback.
pub fn get_socket_path(usable_runtime_dir: Option<&str>) -> (r: String)
    ensures
        usable_runtime_dir matches Some(d) ==> r@ == runtime_socket_path_spec(d@),
        usable_runtime_dir is None ==> exists|uid: u32| r@ == fallback_socket_path_spec(uid),
        r@.len() > 0,
{
    let uid = effective_uid();
    resolve_socket_path(usable_runtime_dir, uid)
}

} // verus!
