//! Where the credentials are kept.

use crate::text::{ends_with, has_suffix};
use vstd::prelude::*;
use vstd::string::*;

verus! {

/// The file name for a configuration name: the name itself where it already
/// ends in `.json`, else the name with `.json` added.
pub open spec fn config_filename(config_name: Seq<char>) -> Seq<char> {
    if has_suffix(config_name, ".json"@) {
        config_name
    } else {
        config_name + ".json"@
    }
}

/// The name of the configuration file for `config_name`; the `.json`
/// extension may be left out by the user.
pub fn get_config_filename(config_name: &String) -> (filename: String)
    ensures
        filename@ == config_filename(config_name@),
{
    if ends_with(config_name.as_str(), ".json") {
        config_name.clone()
    } else {
        config_name.clone().concat(".json")
    }
}

} // verus!
