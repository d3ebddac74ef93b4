//! The name of a finished file: whatever is asked for, the file carries the
//! extension of the container it is stored in.

use vstd::prelude::*;
use vstd::string::*;
use crate::text::{chars_of, ends_with_text, string_of_range};

verus! {

/// The place of the last dot of `name` before `upto` that is not the first
/// character of the name, and -1 if there is none.
pub open spec fn last_dot(name: Seq<char>, upto: int) -> int
    decreases upto,
{
    if upto <= 1 || upto > name.len() {
        -1
    } else if name[upto - 1] == '.' {
        upto - 1
    } else {
        last_dot(name, upto - 1)
    }
}

/// Where the extension of a file name begins: at its last dot, unless that
/// is its first character, and at its end if it has no such dot.
pub open spec fn stem_end(name: Seq<char>) -> int {
    if last_dot(name, name.len() as int) >= 1 {
        last_dot(name, name.len() as int)
    } else {
        name.len() as int
    }
}

/// The name of the finished file for a bare file name, one without a
/// separator: the name without its extension, and ".mp4" as the extension
/// whatever it was. The empty name gives ".mp4", and "." and ".." are taken
/// as names without an extension.
pub open spec fn media_name(name: Seq<char>) -> Seq<char> {
    name.take(stem_end(name)) + ".mp4"@
}

/// A character that separates the components of a path: the slash and the
/// backslash, on every platform.
pub open spec fn is_separator(c: char) -> bool {
    c == '/' || c == '\\'
}

/// Where the last component of `path` begins, looking at the characters
/// before `upto`: after the last separator, and at the start of the path if
/// it has none.
pub open spec fn component_start(path: Seq<char>, upto: int) -> int
    decreases upto,
{
    if upto <= 0 || upto > path.len() {
        0
    } else if is_separator(path[upto - 1]) {
        upto
    } else {
        component_start(path, upto - 1)
    }
}

/// The last component of `path`: what follows its last separator.
pub open spec fn last_component(path: Seq<char>) -> Seq<char> {
    path.skip(component_start(path, path.len() as int))
}

/// The path of the finished file for `path`: the same folder, and the last
/// component with ".mp4" as its extension whatever it was. A path that
/// ends in a separator, and the empty path, get ".mp4" as the whole of
/// their last component.
pub open spec fn media_path(path: Seq<char>) -> Seq<char> {
    path.take(component_start(path, path.len() as int)) + media_name(last_component(path))
}

/// The last dot stands within the name.
pub proof fn last_dot_bounds(name: Seq<char>, upto: int)
    ensures
        -1 <= last_dot(name, upto) < name.len() || last_dot(name, upto) == -1,
        last_dot(name, upto) != 0,
    decreases upto,
{
    if !(upto <= 1 || upto > name.len()) && name[upto - 1] != '.' {
        last_dot_bounds(name, upto - 1);
    }
}

/// The last component begins within the path, and holds no separator.
pub proof fn component_start_bounds(path: Seq<char>, upto: int)
    requires
        0 <= upto <= path.len(),
    ensures
        0 <= component_start(path, upto) <= upto,
        forall|i: int| component_start(path, upto) <= i < upto ==> !is_separator(path[i]),
    decreases upto,
{
    if upto > 0 && !is_separator(path[upto - 1]) {
        component_start_bounds(path, upto - 1);
    }
}

/// Every finished file has the extension ".mp4".
pub proof fn media_name_has_fixed_extension(name: Seq<char>)
    ensures
        ends_with_text(media_name(name), ".mp4"@),
{
    last_dot_bounds(name, name.len() as int);
    let full = media_name(name);
    assert(full.subrange(full.len() - ".mp4"@.len(), full.len() as int) =~= ".mp4"@);
}

/// A name that has the fixed extension already is left as it is: naming the
/// finished file twice gives what naming it once gives.
pub proof fn media_name_is_stable(name: Seq<char>)
    requires
        name.len() > 0,
    ensures
        media_name(media_name(name)) == media_name(name),
{
    reveal_strlit(".mp4");
    last_dot_bounds(name, name.len() as int);
    let k = stem_end(name);
    let once = media_name(name);
    assert(once.len() == k + 4);
    assert(once[k] == '.' && once[k + 1] == 'm' && once[k + 2] == 'p' && once[k + 3] == '4');
    assert(last_dot(once, k + 4) == last_dot(once, k + 3));
    assert(last_dot(once, k + 3) == last_dot(once, k + 2));
    assert(last_dot(once, k + 2) == last_dot(once, k + 1));
    assert(last_dot(once, k + 1) == k);
    assert(once.take(k) =~= name.take(k));
}

/// Every finished file has the extension ".mp4", whatever path is asked
/// for, and stays in the folder that is asked for.
pub proof fn media_path_has_fixed_extension(path: Seq<char>)
    ensures
        ends_with_text(media_path(path), ".mp4"@),
        path.take(component_start(path, path.len() as int)).is_prefix_of(media_path(path)),
{
    component_start_bounds(path, path.len() as int);
    let folder = path.take(component_start(path, path.len() as int));
    let name = media_name(last_component(path));
    media_name_has_fixed_extension(last_component(path));
    let full = media_path(path);
    let ext = ".mp4"@;
    assert(name.subrange(name.len() - ext.len(), name.len() as int) == ext);
    assert(full.subrange(full.len() - ext.len(), full.len() as int) =~= name.subrange(
        name.len() - ext.len(),
        name.len() as int,
    ));
    assert(folder =~= full.subrange(0, folder.len() as int));
}

/// Where the extension of the name that begins at `start` in `chars`
/// begins.
fn stem_end_from(chars: &Vec<char>, start: usize) -> (end: usize)
    requires
        start <= chars.len(),
    ensures
        start <= end <= chars.len(),
        end - start == stem_end(chars@.skip(start as int)),
{
    let ghost name = chars@.skip(start as int);
    let len: usize = chars.len() - start;
    let mut end: usize = chars.len();
    let mut at: usize = len;
    while at > 1 && end == chars.len()
        invariant
            at <= len,
            len == chars.len() - start,
            start <= chars.len(),
            name == chars@.skip(start as int),
            end == chars.len() ==> last_dot(name, len as int) == last_dot(name, at as int),
            end != chars.len() ==> start + 1 <= end < chars.len() && last_dot(name, len as int)
                == end - start,
        decreases at,
    {
        assert(name[at - 1] == chars@[start + at - 1]);
        if chars[start + at - 1] == '.' {
            end = start + at - 1;
        }
        at = at - 1;
    }
    end
}

/// The name of the finished file for a bare file name, one without a
/// separator. For such a name that is not empty and does not begin with
/// ".." the result is what `Path::with_extension("mp4")` gives. The empty
/// name and the names that begin with "..", which std leaves without an
/// extension, get ".mp4" all the same.
pub fn media_file_name(name: &str) -> (full: String)
    ensures
        full@ == media_name(name@),
{
    let chars = chars_of(name);
    assert(chars@.skip(0) == chars@);
    let end = stem_end_from(&chars, 0);
    proof {
        assert(chars@.subrange(0, end as int) == chars@.take(end as int));
    }
    let mut full = string_of_range(&chars, 0, end);
    full.append(".mp4");
    full
}

/// The path of the finished file for `path`. Where the last component of
/// the path is a name that does not begin with a dot, and, off Windows,
/// holds no backslash, the result is what `Path::with_extension("mp4")`
/// gives. It differs where std finds no file name to change or leaves the
/// name without an extension: a path that is empty or ends in a separator,
/// or whose last component is "." or begins with "..", gets ".mp4" all the
/// same, so that the result has the fixed extension on every input.
pub fn media_file_path(path: &str) -> (full: String)
    ensures
        full@ == media_path(path@),
        ends_with_text(full@, ".mp4"@),
{
    let chars = chars_of(path);
    let mut start: usize = chars.len();
    while start > 0 && !(chars[start - 1] == '/' || chars[start - 1] == '\\')
        invariant
            start <= chars.len(),
            component_start(chars@, chars.len() as int) == component_start(chars@, start as int),
        decreases start,
    {
        start = start - 1;
    }
    let end = stem_end_from(&chars, start);
    proof {
        let name = chars@.skip(start as int);
        assert(chars@.subrange(0, end as int) =~= chars@.take(start as int) + name.take(
            stem_end(name),
        ));
        assert((chars@.take(start as int) + name.take(stem_end(name))) + ".mp4"@
            =~= chars@.take(start as int) + (name.take(stem_end(name)) + ".mp4"@));
        media_path_has_fixed_extension(path@);
    }
    let mut full = string_of_range(&chars, 0, end);
    full.append(".mp4");
    full
}

} // verus!
