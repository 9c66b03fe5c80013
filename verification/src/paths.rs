//! Joining of file-system paths written as text, with `/` as separator.

use vstd::prelude::*;
use vstd::string::*;

verus! {

/// `part` appended to the directory `base`: an absolute `part` stands
/// alone, and a separator is put between the two unless `base` is empty
/// or already ends with one.
pub open spec fn joined_path(base: Seq<char>, part: Seq<char>) -> Seq<char> {
    if part.len() > 0 && part[0] == '/' {
        part
    } else if base.len() > 0 && base.last() != '/' {
        base + seq!['/'] + part
    } else {
        base + part
    }
}

/// Appends `part` to the directory `base`.
pub fn join_path(base: &str, part: &str) -> (joined: String)
    ensures
        joined@ == joined_path(base@, part@),
{
    proof {
        reveal_strlit("/");
        assert("/"@ =~= seq!['/']);
    }
    let part_len = part.unicode_len();
    if part_len > 0 && part.get_char(0) == '/' {
        return String::from_str(part);
    }
    let base_len = base.unicode_len();
    let mut joined = String::from_str(base);
    if base_len > 0 && base.get_char(base_len - 1) != '/' {
        joined.append("/");
    }
    joined.append(part);
    joined
}

} // verus!
