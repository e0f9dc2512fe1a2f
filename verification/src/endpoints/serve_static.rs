//! The endpoint that serves the compiled client's files.
use vstd::prelude::*;
use crate::endpoints::{HttpReply, ReplyView, plain_reply};
use crate::options::InputOptions;
use crate::text::push_char;

verus! {

/// `root` joined with `path` as a Unix `Path::join` does it: an absolute
/// `path` replaces `root`; otherwise a `/` separates them unless `root` is
/// empty or already ends in one.
pub open spec fn path_join(root: Seq<char>, path: Seq<char>) -> Seq<char> {
    if path.len() > 0 && path[0] == '/' {
        path
    } else if root.len() > 0 && root.last() != '/' {
        root.push('/') + path
    } else {
        root + path
    }
}

/// Joins two paths like `Path::join` on Unix.
pub fn join_path(root: &str, path: &str) -> (joined: String)
    ensures
        joined@ == path_join(root@, path@),
{
    let n = path.unicode_len();
    if n > 0 && path.get_char(0) == '/' {
        return path.to_owned();
    }
    let mut joined = root.to_owned();
    let m = root.unicode_len();
    if m > 0 && root.get_char(m - 1) != '/' {
        push_char(&mut joined, '/');
    }
    joined.append(path);
    joined
}

/// The directory files are served from: the compiled client's path from
/// the options, or `.` without options.
pub open spec fn static_root(options: Option<&InputOptions>) -> Seq<char> {
    match options {
        Some(o) => o.path_to_compiled_client@,
        None => "."@,
    }
}

/// The body of the reply when no file can be served.
pub open spec fn missing_file_body(file_path: Seq<char>, root: Seq<char>) -> Seq<char> {
    "File within path `"@ + file_path + "` is not found\nroot_path="@ + root
}

/// What the endpoint serves for a request path: the file at `file_path`
/// if it exists and opens, else the `missing` reply.
pub struct StaticLookup {
    pub file_path: String,
    pub missing: HttpReply,
}

/// Whether the request path can be served: it starts with an ASCII
/// character (the leading `/`), which is cut off before joining.
pub open spec fn servable_path(requested_path: Seq<char>) -> bool {
    requested_path.len() >= 1 && (requested_path[0] as u32) < 128
}

/// Where a request path is looked up, and the 404 reply if nothing is there.
pub fn handler(options: Option<&InputOptions>, requested_path: &str) -> (lookup: StaticLookup)
    requires
        servable_path(requested_path@),
    ensures
        lookup.file_path@ == path_join(static_root(options), requested_path@.skip(1)),
        lookup.missing@ == plain_reply(
            404,
            missing_file_body(lookup.file_path@, static_root(options)),
        ),
{
    let root: String = match options {
        Some(o) => o.path_to_compiled_client.clone(),
        None => ".".to_owned(),
    };
    let n = requested_path.unicode_len();
    let relative = requested_path.substring_char(1, n);
    assert(relative@ =~= requested_path@.skip(1));
    let file_path = join_path(root.as_str(), relative);
    let mut body = "File within path `".to_owned();
    body.append(file_path.as_str());
    body.append("` is not found\nroot_path=");
    body.append(root.as_str());
    let missing = HttpReply::with_body(404, body);
    StaticLookup { file_path, missing }
}

/// A request path that does not start with `/` after the leading one is
/// looked up under the root; one that does (a request for `//...`) is
/// looked up at that absolute path, outside the root.
pub proof fn lemma_join_stays_under_root(root: Seq<char>, path: Seq<char>)
    ensures
        !(path.len() > 0 && path[0] == '/') ==> path_join(root, path).take(root.len() as int)
            == root,
        (path.len() > 0 && path[0] == '/') ==> path_join(root, path) == path,
{
    if !(path.len() > 0 && path[0] == '/') {
        if root.len() > 0 && root.last() != '/' {
            assert((root.push('/') + path).take(root.len() as int) =~= root);
        } else {
            assert((root + path).take(root.len() as int) =~= root);
        }
    }
}

} // verus!
