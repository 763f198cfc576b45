//! Where the logging configuration lives.
use vstd::prelude::*;

use crate::common::process::{get_install_path, install_path_result};
use crate::text::text_result;

verus! {

broadcast use vstd::string::group_string_axioms;

/// The logging configuration file: `<install>/log4rs.yaml`.
pub open spec fn log4rs_config_path(install: Seq<char>) -> Result<Seq<char>, Seq<char>> {
    match install_path_result(install) {
        Ok(p) => Ok(p + "/log4rs.yaml"@),
        Err(e) => Err(e),
    }
}

/// The logging configuration file under the install path `install_path`.
pub fn get_log4rs_config_path(install_path: &str) -> (r: Result<String, String>)
    ensures
        text_result(r) == log4rs_config_path(install_path@),
{
    let mut path = get_install_path(install_path)?;
    path.append("/log4rs.yaml");
    Ok(path)
}

} // verus!
