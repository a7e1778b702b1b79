//! Joining path components and locating the trashbin.
use vstd::prelude::*;
use crate::error::XiloError;

verus! {

/// The subdirectory of the base directory that holds the trashbin.
pub const TRASHBIN_DIR: &'static str = "xilo";

/// `name` placed inside `dir`, with one `/` between them.
pub open spec fn joined(dir: Seq<char>, name: Seq<char>) -> Seq<char> {
    if dir.len() == 0 {
        name
    } else if dir.last() == '/' {
        dir + name
    } else {
        dir + seq!['/'] + name
    }
}

/// Joins `name` onto `dir`.
pub fn join(dir: &str, name: &str) -> (r: String)
    ensures
        r@ == joined(dir@, name@),
{
    let n = dir.unicode_len();
    let mut r = String::from_str(dir);
    if n > 0 && dir.get_char(n - 1) != '/' {
        r.append("/");
        proof {
            reveal_strlit("/");
        }
    }
    r.append(name);
    assert(r@ =~= joined(dir@, name@));
    r
}

/// The trashbin's location under the given base directory; without a base
/// directory there is none.
pub fn trashbin_path(base: Option<&str>) -> (r: Result<String, XiloError>)
    ensures
        match base {
            None => r == Err::<String, XiloError>(XiloError::CannotFindCacheDirPath),
            Some(b) => r matches Ok(p) && p@ == joined(b@, TRASHBIN_DIR@),
        },
{
    match base {
        None => Err(XiloError::CannotFindCacheDirPath),
        Some(b) => Ok(join(b, TRASHBIN_DIR)),
    }
}

} // verus!
