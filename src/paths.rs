//! Path names: the temporary sibling of a file and matching by file name.
use vstd::prelude::*;

verus! {

/// Name that the provisioned helper executable has on disk.
pub const HELPER_FILE_NAME: &'static str = "rename.exe";

/// The reserved suffix of a file's temporary duplicate.
pub open spec fn temp_suffix() -> Seq<char> {
    seq!['.', 't', 'e', 'm', 'p']
}

/// The temporary duplicate's path for the file at `path`.
pub open spec fn temp_path_of(path: Seq<char>) -> Seq<char> {
    path + temp_suffix()
}

pub open spec fn is_separator(c: char) -> bool {
    c == '/' || c == '\\'
}

/// `path` names a file called `name`: its last component is `name`.
pub open spec fn has_file_name(path: Seq<char>, name: Seq<char>) -> bool {
    &&& name.len() > 0
    &&& name.len() <= path.len()
    &&& path.subrange(path.len() - name.len(), path.len() as int) == name
    &&& (path.len() == name.len() || is_separator(path[path.len() - name.len() - 1]))
}

/// The path of the temporary duplicate of `path`: `path` followed by `.temp`.
pub fn temp_path(path: &str) -> (r: String)
    ensures
        r@ == temp_path_of(path@),
{
    let mut r = String::from_str(path);
    let suffix = ".temp";
    proof {
        reveal_strlit(".temp");
    }
    r.append(suffix);
    assert(suffix@ =~= temp_suffix());
    r
}

/// Whether `path`'s last component is exactly `name`.
pub fn file_name_is(path: &str, name: &str) -> (r: bool)
    ensures
        r == has_file_name(path@, name@),
{
    let plen = path.unicode_len();
    let nlen = name.unicode_len();
    if nlen == 0 || nlen > plen {
        return false;
    }
    let start = plen - nlen;
    let mut i: usize = 0;
    while i < nlen
        invariant
            nlen == name@.len(),
            plen == path@.len(),
            start == plen - nlen,
            0 < nlen <= plen,
            i <= nlen,
            forall|j: int| 0 <= j < i ==> path@[start + j] == name@[j],
        decreases nlen - i,
    {
        if path.get_char(start + i) != name.get_char(i) {
            assert(path@.subrange(start as int, plen as int)[i as int] != name@[i as int]);
            return false;
        }
        i = i + 1;
    }
    assert(path@.subrange(start as int, plen as int) =~= name@);
    if start == 0 {
        true
    } else {
        let c = path.get_char(start - 1);
        c == '/' || c == '\\'
    }
}

} // verus!
