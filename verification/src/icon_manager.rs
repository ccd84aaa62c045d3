//! The key under which the icon of a file is looked up.
use vstd::prelude::*;
use vstd::string::StrSliceExecFns;

verus! {

/// Whether `i` is the position of the last dot in `name`.
pub open spec fn is_last_dot(name: Seq<char>, i: int) -> bool {
    &&& 0 <= i < name.len()
    &&& name[i] == '.'
    &&& forall|j: int| i < j < name.len() ==> name[j] != '.'
}

/// Whether `name` holds a dot.
pub open spec fn has_dot(name: Seq<char>) -> bool {
    exists|i: int| 0 <= i < name.len() && name[i] == '.'
}

/// The extension of a file name: what stands from its last dot on, the dot
/// included; the word `unknown` where the name has no dot.
pub open spec fn extension_of(name: Seq<char>) -> Seq<char> {
    if has_dot(name) {
        name.skip(choose|i: int| is_last_dot(name, i))
    } else {
        "unknown"@
    }
}

/// The extension of `name`, as [`extension_of`] defines it.
pub fn get_file_extension(name: &str) -> (extension: &str)
    ensures
        extension@ == extension_of(name@),
{
    let len = name.unicode_len();
    let mut i: usize = len;
    while i > 0
        invariant
            i <= len,
            len == name@.len(),
            forall|j: int| i <= j < len ==> name@[j] != '.',
        decreases i,
    {
        i -= 1;
        if name.get_char(i) == '.' {
            assert(is_last_dot(name@, i as int));
            return name.substring_char(i, len);
        }
    }
    "unknown"
}

} // verus!
