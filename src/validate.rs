use vstd::prelude::*;

verus! {

/// Where a field stands with respect to validation.
#[derive(PartialEq, Eq, Structural, Clone, Copy, Debug)]
pub enum Validity {
    Unvalidated,
    Valid,
    Invalid,
}

/// A path is accepted when it is non-empty and names an existing regular
/// file. Whether it does is found by the caller, who probes the file system.
pub open spec fn path_validity(raw: Seq<char>, is_regular_file: bool) -> Validity {
    if raw.len() > 0 && is_regular_file {
        Validity::Valid
    } else {
        Validity::Invalid
    }
}

/// A name is accepted when it is non-empty; whitespace counts as content.
pub open spec fn name_validity(raw: Seq<char>) -> Validity {
    if raw.len() > 0 {
        Validity::Valid
    } else {
        Validity::Invalid
    }
}

/// Decides a path field. `is_regular_file` is the caller's finding that `raw`
/// names an existing regular file (not a directory, not a dangling link, not a
/// special file); the empty string is refused whatever it says.
pub fn validate_path(raw: &str, is_regular_file: bool) -> (r: Validity)
    ensures
        r == path_validity(raw@, is_regular_file),
{
    if !raw.is_empty() && is_regular_file {
        Validity::Valid
    } else {
        Validity::Invalid
    }
}

/// Decides the name field: valid iff non-empty, with no trimming.
pub fn validate_name(raw: &str) -> (r: Validity)
    ensures
        r == name_validity(raw@),
{
    if raw.is_empty() {
        Validity::Invalid
    } else {
        Validity::Valid
    }
}

} // verus!
