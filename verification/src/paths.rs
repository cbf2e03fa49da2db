//! File paths as text: joining the way `PathBuf::push` does on Unix, and the
//! extension of a file name.

use vstd::prelude::*;
use crate::text::{chars_of, push_str};
use crate::outside::path_extension;

verus! {

/// `base` joined with `rel` the way `Path::join` does on Unix: an absolute
/// `rel` replaces `base`; otherwise `rel` is appended, with a `/` between the
/// two unless `base` is empty or already ends with `/`.
pub open spec fn path_join(base: Seq<char>, rel: Seq<char>) -> Seq<char> {
    if rel.len() > 0 && rel[0] == '/' {
        rel
    } else if base.len() == 0 || base.last() == '/' {
        base + rel
    } else {
        base.push('/') + rel
    }
}

/// Joins two paths the way `Path::join` does on Unix.
pub fn join_path(base: &str, rel: &str) -> (p: String)
    ensures
        p@ == path_join(base@, rel@),
{
    let b = chars_of(base);
    let r = chars_of(rel);
    let mut p = String::new();
    if r.len() > 0 && r[0] == '/' {
        push_str(&mut p, rel);
        assert(p@ =~= path_join(base@, rel@));
        return p;
    }
    push_str(&mut p, base);
    if b.len() > 0 && b[b.len() - 1] != '/' {
        crate::outside::push_char(&mut p, '/');
    }
    push_str(&mut p, rel);
    assert(p@ =~= path_join(base@, rel@));
    p
}

/// A plain file name: not empty, not `.` or `..`, and without `/`.
pub open spec fn is_plain_file_name(s: Seq<char>) -> bool {
    &&& s.len() > 0
    &&& s != seq!['.']
    &&& s != seq!['.', '.']
    &&& forall|i: int| 0 <= i < s.len() ==> s[i] != '/'
}

/// The extension of a plain file name, as `Path::extension` gives it: the text
/// after the last `.`, unless there is no `.` or the only `.` is the first
/// character.
pub open spec fn file_name_extension(s: Seq<char>) -> Option<Seq<char>> {
    if exists|i: int| 0 < i < s.len() && s[i] == '.' {
        let k = choose|k: int|
            0 < k < s.len() && s[k] == '.' && forall|j: int| k < j < s.len() ==> s[j] != '.';
        Some(s.skip(k + 1))
    } else {
        None
    }
}

/// The extension of `name`, with `mp4` in its place when there is none: the
/// extension under which an uploaded video is stored.
pub fn extension_or_mp4(name: &str) -> (e: String)
    ensures
        is_plain_file_name(name@) ==> e@ == match file_name_extension(name@) {
            Some(x) => x,
            None => "mp4"@,
        },
{
    match path_extension(name) {
        Some(e) => e,
        None => {
            let mut e = String::new();
            push_str(&mut e, "mp4");
            e
        },
    }
}

} // verus!
