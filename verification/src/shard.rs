//! Where a package's file lies inside the index directory tree.
//!
//! The index spreads its files over directories by the length and the first
//! characters of the package name. Lengths and positions count characters.
//! Paths are text with `/` between their parts.

use vstd::prelude::*;
use crate::error::LookupError;

verus! {

/// The directory, relative to the index root, that holds the file of the
/// package `name`. Meant for names that are not empty.
pub open spec fn subdirectory_name(name: Seq<char>) -> Seq<char> {
    if name.len() == 1 {
        "1"@
    } else if name.len() == 2 {
        "2"@
    } else if name.len() == 3 {
        "3/"@ + name.subrange(0, 1)
    } else {
        name.subrange(0, 2) + "/"@ + name.subrange(2, 4)
    }
}

/// `part` joined to the path `base`, as `Path::join` of std joins paths
/// that are separated by `/`: a part that begins with `/` is absolute and
/// stands alone; otherwise the part follows the base, after a `/` unless the
/// base is empty or ends in one already.
pub open spec fn joined(base: Seq<char>, part: Seq<char>) -> Seq<char> {
    if part.len() > 0 && part[0] == '/' {
        part
    } else if base.len() > 0 && base.last() != '/' {
        base + "/"@ + part
    } else {
        base + part
    }
}

/// The path of the index file of the package `name` under `index_path`: the
/// subdirectory joined to the root, and the name joined to that.
pub open spec fn crate_filename(index_path: Seq<char>, name: Seq<char>) -> Seq<char> {
    joined(joined(index_path, subdirectory_name(name)), name)
}

/// The subdirectory, character by character: the length itself for names of
/// one or two characters; `3` and the first character for names of three;
/// the first two characters and the next two for longer names.
pub proof fn lemma_subdirectory_name_chars(name: Seq<char>)
    requires
        name.len() > 0,
    ensures
        name.len() == 1 ==> subdirectory_name(name) == seq!['1'],
        name.len() == 2 ==> subdirectory_name(name) == seq!['2'],
        name.len() == 3 ==> subdirectory_name(name) == seq!['3', '/', name[0]],
        name.len() >= 4 ==> subdirectory_name(name) == seq![name[0], name[1], '/', name[2], name[3]],
{
    reveal_strlit("1");
    reveal_strlit("2");
    reveal_strlit("3/");
    reveal_strlit("/");
    if name.len() == 1 {
        assert(subdirectory_name(name) =~= seq!['1']);
    } else if name.len() == 2 {
        assert(subdirectory_name(name) =~= seq!['2']);
    } else if name.len() == 3 {
        assert(subdirectory_name(name) =~= seq!['3', '/', name[0]]);
    } else {
        assert(subdirectory_name(name) =~= seq![name[0], name[1], '/', name[2], name[3]]);
    }
}

/// The index subdirectory for a package name, or `InvalidInput` for the empty
/// name, which no directory holds.
pub fn get_index_subdirectory_name(crate_name: &str) -> (r: Result<String, LookupError>)
    ensures
        crate_name@.len() == 0 ==> r == Err::<String, LookupError>(LookupError::InvalidInput),
        crate_name@.len() > 0 ==> r is Ok && r->Ok_0@ == subdirectory_name(crate_name@),
{
    let n: usize = crate_name.unicode_len();
    if n == 0 {
        Err(LookupError::InvalidInput)
    } else if n == 1 {
        Ok("1".to_owned())
    } else if n == 2 {
        Ok("2".to_owned())
    } else if n == 3 {
        let mut dir = "3/".to_owned();
        dir.append(crate_name.substring_char(0, 1));
        Ok(dir)
    } else {
        let mut dir = crate_name.substring_char(0, 2).to_owned();
        dir.append("/");
        dir.append(crate_name.substring_char(2, 4));
        Ok(dir)
    }
}

/// For a name without `/` the file lies under the root: the path is the
/// root, the subdirectory and the name, with one `/` between them. An empty
/// root gives a relative path, and a root that ends in `/` gets no second one.
pub proof fn lemma_crate_filename_of_plain_name(index_path: Seq<char>, name: Seq<char>)
    requires
        name.len() > 0,
        forall|i: int| 0 <= i < name.len() ==> name[i] != '/',
    ensures
        crate_filename(index_path, name) == ({
            let relative = subdirectory_name(name) + seq!['/'] + name;
            if index_path.len() == 0 {
                relative
            } else if index_path.last() == '/' {
                index_path + relative
            } else {
                index_path + seq!['/'] + relative
            }
        }),
{
    reveal_strlit("/");
    lemma_subdirectory_name_chars(name);
    let dir = subdirectory_name(name);
    let relative = dir + seq!['/'] + name;
    assert("/"@ =~= seq!['/']);
    assert(dir.len() > 0 && dir[0] != '/' && dir.last() != '/');
    let under_root = joined(index_path, dir);
    assert(under_root.len() > 0 && under_root.last() == dir.last());
    if index_path.len() == 0 {
        assert(under_root =~= dir);
        assert(crate_filename(index_path, name) =~= relative);
    } else if index_path.last() == '/' {
        assert(crate_filename(index_path, name) =~= index_path + relative);
    } else {
        assert(crate_filename(index_path, name) =~= index_path + seq!['/'] + relative);
    }
}

/// Joins `part` to the path `base`.
pub fn join_path(base: &str, part: &str) -> (path: String)
    ensures
        path@ == joined(base@, part@),
{
    if !part.is_empty() && part.get_char(0) == '/' {
        return part.to_owned();
    }
    let mut path = base.to_owned();
    let base_len: usize = base.unicode_len();
    if base_len > 0 && base.get_char(base_len - 1) != '/' {
        path.append("/");
    }
    path.append(part);
    path
}

/// The path of a package's index file, or `InvalidInput` for the empty name.
pub fn get_index_crate_filename(index_path: &str, crate_name: &str) -> (r: Result<
    String,
    LookupError,
>)
    ensures
        crate_name@.len() == 0 ==> r == Err::<String, LookupError>(LookupError::InvalidInput),
        crate_name@.len() > 0 ==> r is Ok && r->Ok_0@ == crate_filename(index_path@, crate_name@),
{
    match get_index_subdirectory_name(crate_name) {
        Err(e) => Err(e),
        Ok(dir) => {
            let under_root = join_path(index_path, dir.as_str());
            Ok(join_path(under_root.as_str(), crate_name))
        },
    }
}

} // verus!
