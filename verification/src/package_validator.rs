//! Syntactic validation of package identifiers.
//!
//! A package identifier may use nested-attribute dot notation
//! (for example `python312Packages.pip`). It must be non-empty, consist
//! only of ASCII alphanumerics, `-`, `_` and `.`, must not begin or end
//! with a dot, and must not contain two dots in a row.

use vstd::prelude::*;

verus! {

/// Characters allowed anywhere in a package identifier.
pub open spec fn spec_is_package_char(c: char) -> bool {
    ('a' <= c && c <= 'z') || ('A' <= c && c <= 'Z') || ('0' <= c && c <= '9') || c == '-' || c
        == '_' || c == '.'
}

/// A well-formed package identifier: non-empty, drawn from the allowed
/// character set, with no leading, trailing or doubled dots.
pub open spec fn spec_is_valid_package_name(name: Seq<char>) -> bool {
    &&& name.len() > 0
    &&& name[0] != '.'
    &&& name[name.len() - 1] != '.'
    &&& forall|i: int| 0 <= i < name.len() ==> spec_is_package_char(#[trigger] name[i])
    &&& forall|i: int| 0 <= i < name.len() - 1 ==> !(#[trigger] name[i] == '.' && name[i + 1]
        == '.')
}

/// Decides whether `c` may appear in a package identifier.
pub fn is_package_char(c: char) -> (r: bool)
    ensures
        r == spec_is_package_char(c),
{
    ('a' <= c && c <= 'z') || ('A' <= c && c <= 'Z') || ('0' <= c && c <= '9') || c == '-' || c
        == '_' || c == '.'
}

/// Checks that `name` is a well-formed package identifier.
pub fn is_valid_package_name(name: &str) -> (r: bool)
    ensures
        r == spec_is_valid_package_name(name@),
{
    let len = name.unicode_len();
    if len == 0 {
        return false;
    }
    if name.get_char(0) == '.' || name.get_char(len - 1) == '.' {
        return false;
    }
    let mut i: usize = 0;
    while i < len
        invariant
            len == name@.len(),
            0 <= i <= len,
            forall|j: int| 0 <= j < i ==> spec_is_package_char(#[trigger] name@[j]),
            forall|j: int|
                0 <= j < i && j + 1 < len ==> !(#[trigger] name@[j] == '.' && name@[j + 1] == '.'),
        decreases len - i,
    {
        let c = name.get_char(i);
        if !is_package_char(c) {
            return false;
        }
        if c == '.' && i + 1 < len && name.get_char(i + 1) == '.' {
            return false;
        }
        i += 1;
    }
    true
}

} // verus!
