//! The install path as the runtime reads it from its environment.
use vstd::prelude::*;

use crate::text::text_result;

verus! {

broadcast use vstd::string::group_string_axioms;

/// The install path, or the error when the variable is not set.
pub open spec fn env_install_path_result(variable: Option<Seq<char>>) -> Result<
    Seq<char>,
    Seq<char>,
> {
    match variable {
        Some(p) => Ok(p),
        None => Err("INSTALL_PATH not set"@),
    }
}

/// The view of an optional text.
pub open spec fn option_view(o: Option<&str>) -> Option<Seq<char>> {
    match o {
        Some(s) => Some(s@),
        None => None,
    }
}

/// The install path, given the value of the `INSTALL_PATH` environment
/// variable (`None` when it is not set or not Unicode).
pub fn get_install_path(variable: Option<&str>) -> (r: Result<String, String>)
    ensures
        text_result(r) == env_install_path_result(option_view(variable)),
{
    match variable {
        Some(path) => Ok(String::from_str(path)),
        None => Err(String::from_str("INSTALL_PATH not set")),
    }
}

} // verus!
