//! The sandboxed file system of plugins: every path must lie below the
//! sandbox root once it is resolved.

use vstd::prelude::*;
use vstd::string::StringExecFns;
use crate::text::{chars_of, contains_text, find_char, has_prefix, matches_at};

verus! {

/// Whether the resolved path lies in the sandbox: it is the root, or it
/// begins with the root and goes on with a slash; a root that ends in a
/// slash is followed by anything.
pub open spec fn within_root(root: Seq<char>, resolved: Seq<char>) -> bool {
    has_prefix(resolved, root) && (resolved.len() == root.len() || (root.len() > 0 && root.last() == '/')
        || resolved[root.len() as int] == '/')
}

/// The message for a path that leaves the sandbox.
pub open spec fn escape_message() -> Seq<char> {
    "Path escapes sandbox"@
}

/// The message for a path with a null character.
pub open spec fn null_message() -> Seq<char> {
    "Path contains a null byte"@
}

/// The sandboxed file system.
pub struct FsAPI {
    sandbox_root: String,
}

impl FsAPI {
    /// The sandbox root.
    pub closed spec fn root(&self) -> Seq<char> {
        self.sandbox_root@
    }

    /// A file system with the default sandbox root.
    pub fn new() -> (fs: FsAPI)
        ensures
            fs.root() == "/tmp/zenith_sandbox"@,
    {
        FsAPI { sandbox_root: String::from_str("/tmp/zenith_sandbox") }
    }

    /// Sets the sandbox root.
    pub fn set_sandbox_root(&mut self, path: &str)
        ensures
            final(self).root() == path@,
    {
        self.sandbox_root = String::from_str(path);
    }

    /// The sandbox root.
    pub fn get_sandbox_root(&self) -> (r: String)
        ensures
            r@ == self.root(),
    {
        self.sandbox_root.clone()
    }

    /// Refuses a path that holds a null character, before it is resolved.
    pub fn check_request(&self, relative_path: &str) -> (r: Result<(), String>)
        ensures
            r is Ok <==> !relative_path@.contains('\0'),
            r is Err ==> r->Err_0@ == null_message(),
    {
        let chars = chars_of(relative_path);
        let at = find_char(&chars, '\0', 0);
        if at < chars.len() {
            Err(String::from_str("Path contains a null byte"))
        } else {
            proof {
                if relative_path@.contains('\0') {
                    let w = choose|w: int| 0 <= w < relative_path@.len() && relative_path@[w] == '\0';
                    assert(chars@[w] == '\0');
                }
            }
            Ok(())
        }
    }

    /// Refuses a resolved path that lies outside the sandbox.
    pub fn check_resolved(&self, resolved: &str) -> (r: Result<(), String>)
        ensures
            r is Ok <==> within_root(self.root(), resolved@),
            r is Err ==> r->Err_0@ == escape_message(),
    {
        let root = chars_of(self.sandbox_root.as_str());
        let path = chars_of(resolved);
        let inside = matches_at(&path, &root, 0) && (path.len() == root.len() || (root.len() > 0
            && root[root.len() - 1] == '/') || path[root.len()] == '/');
        if inside {
            Ok(())
        } else {
            Err(String::from_str("Path escapes sandbox"))
        }
    }

    /// Whether a file counts as present: its path was resolved into the
    /// sandbox and something was found there.
    pub fn file_exists(&self, resolved: Option<&str>, found: bool) -> (r: bool)
        ensures
            r == match resolved {
                Some(p) => within_root(self.root(), p@) && found,
                None => false,
            },
    {
        match resolved {
            Some(p) => self.check_resolved(p).is_ok() && found,
            None => false,
        }
    }
}

} // verus!
