//! Stem and extension of a file name, as `std::path::Path::file_stem` and
//! `Path::extension` define them for the final component of a path.
use vstd::prelude::*;

verus! {

/// The index of the last `'.'` of `name`, or -1 when it has none.
pub open spec fn last_dot(name: Seq<char>) -> int
    decreases name.len(),
{
    if name.len() == 0 {
        -1
    } else if name.last() == '.' {
        name.len() - 1
    } else {
        last_dot(name.drop_last())
    }
}

/// Whether `name` is the parent-directory name "..".
pub open spec fn is_parent_dir(name: Seq<char>) -> bool {
    name == seq!['.', '.']
}

/// A name has an extension when it is not ".." and holds a '.' after its
/// first character.
pub open spec fn has_extension(name: Seq<char>) -> bool {
    !is_parent_dir(name) && last_dot(name) > 0
}

/// The stem: the part before the last '.', or the whole name when it has no
/// extension.
pub open spec fn stem_of(name: Seq<char>) -> Seq<char> {
    if has_extension(name) {
        name.take(last_dot(name))
    } else {
        name
    }
}

/// The extension: the part after the last '.', if the name has one.
pub open spec fn extension_of(name: Seq<char>) -> Option<Seq<char>> {
    if has_extension(name) {
        Some(name.skip(last_dot(name) + 1))
    } else {
        None
    }
}

proof fn lemma_last_dot(name: Seq<char>)
    ensures
        -1 <= last_dot(name) < name.len(),
        last_dot(name) >= 0 ==> name[last_dot(name)] == '.',
        forall|j: int| last_dot(name) < j < name.len() ==> name[j] != '.',
    decreases name.len(),
{
    if name.len() > 0 && name.last() != '.' {
        lemma_last_dot(name.drop_last());
        assert forall|j: int| last_dot(name) < j < name.len() implies name[j] != '.' by {
            if j < name.len() - 1 {
                assert(name.drop_last()[j] == name[j]);
            }
        }
    }
}

proof fn lemma_last_dot_char(name: Seq<char>, k: int)
    requires
        0 <= k < name.len(),
        name[k] == '.',
        forall|j: int| k < j < name.len() ==> name[j] != '.',
    ensures
        last_dot(name) == k,
    decreases name.len(),
{
    if name.last() != '.' {
        assert(name.drop_last()[k] == '.');
        lemma_last_dot_char(name.drop_last(), k);
    }
}

proof fn lemma_no_dot(name: Seq<char>)
    requires
        forall|j: int| 0 <= j < name.len() ==> name[j] != '.',
    ensures
        last_dot(name) == -1,
    decreases name.len(),
{
    if name.len() > 0 {
        lemma_no_dot(name.drop_last());
    }
}

/// Finds the index of the last '.' in `name`.
fn find_last_dot(name: &str) -> (r: Option<usize>)
    ensures
        match r {
            Some(k) => k == last_dot(name@),
            None => last_dot(name@) == -1,
        },
{
    let len = name.unicode_len();
    let mut i: usize = len;
    while i > 0
        invariant
            i <= len,
            len == name@.len(),
            forall|j: int| i <= j < len ==> name@[j] != '.',
        decreases i,
    {
        if name.get_char(i - 1) == '.' {
            proof {
                lemma_last_dot_char(name@, i - 1);
            }
            return Some(i - 1);
        }
        i = i - 1;
    }
    proof {
        lemma_no_dot(name@);
    }
    None
}

/// Splits a file name into its stem and its extension.
pub fn split_file_name(name: &str) -> (r: (String, Option<String>))
    ensures
        r.0@ == stem_of(name@),
        r.1 matches Some(ext) ==> extension_of(name@) == Some(ext@),
        r.1 is None ==> extension_of(name@) is None,
{
    proof {
        lemma_last_dot(name@);
    }
    let len = name.unicode_len();
    let parent = len == 2 && name.get_char(0) == '.' && name.get_char(1) == '.';
    assert(parent == is_parent_dir(name@)) by {
        if len == 2 && name@[0] == '.' && name@[1] == '.' {
            assert(name@ =~= seq!['.', '.']);
        }
    }
    match find_last_dot(name) {
        Some(k) => {
            if k > 0 && !parent {
                let stem = name.substring_char(0, k).to_owned();
                let ext = name.substring_char(k + 1, len).to_owned();
                assert(stem@ =~= stem_of(name@));
                assert(ext@ =~= name@.skip(k + 1));
                (stem, Some(ext))
            } else {
                (name.to_owned(), None)
            }
        },
        None => (name.to_owned(), None),
    }
}

/// The stem of a file name, as `Path::file_stem` gives it.
pub fn file_stem(name: &str) -> (stem: String)
    ensures
        stem@ == stem_of(name@),
{
    split_file_name(name).0
}

/// The extension of a file name, as `Path::extension` gives it.
pub fn file_extension(name: &str) -> (ext: Option<String>)
    ensures
        match ext {
            Some(e) => extension_of(name@) == Some(e@),
            None => extension_of(name@) is None,
        },
{
    split_file_name(name).1
}

} // verus!
