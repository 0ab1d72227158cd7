//! Filesystem paths carried by the device records.
//!
//! The library never reads a path: it carries where a record came from so
//! that callers can go back to it. `PathBuf` is std's own type, declared here
//! so that records can hold one.

use vstd::prelude::*;
use std::path::PathBuf;

verus! {

/// `std::path::PathBuf`, carried opaquely.
#[verifier::external_type_specification]
#[verifier::external_body]
pub struct ExPathBuf(PathBuf);

/// `std::path::PathBuf::new`: an empty path. Nothing about the value is
/// relied upon.
pub assume_specification[ PathBuf::new ]() -> PathBuf;

/// `<std::path::PathBuf as Clone>::clone`: a copy of the path, equal to it
/// (std documents `clone` as returning a copy of the value).
pub assume_specification[ <PathBuf as Clone>::clone ](p: &PathBuf) -> (r: PathBuf)
    ensures
        r == *p,
;

} // verus!
