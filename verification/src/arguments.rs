//! The program's arguments.

use vstd::prelude::*;
use vstd::string::StringExecFns;
use crate::error::{Error, ErrorView};

verus! {

/// The message of the error for a missing URL.
pub open spec fn missing_url_message() -> Seq<char> {
    "Provide the URL to download."@
}

/// The message of the error for a missing or unusable output directory.
pub open spec fn missing_directory_message() -> Seq<char> {
    "Provide a directory to place the downloaded file in"@
}

/// Reads the URL and the output directory out of the program's arguments.
///
/// `given` holds the arguments as the process got them, the program's own
/// name first. `is_directory` says whether the argument behind the URL names
/// an existing directory; it is not looked at where that argument is missing.
pub fn args(given: &Vec<String>, is_directory: bool) -> (r: Result<(String, String), Error>)
    ensures
        match r {
            Ok((url, out_dir)) => {
                &&& given@.len() >= 3
                &&& is_directory
                &&& url@ == given@[1]@
                &&& out_dir@ == given@[2]@
            },
            Err(e) => if given@.len() < 2 {
                e@ == (ErrorView::Usage { message: missing_url_message() })
            } else {
                &&& given@.len() < 3 || !is_directory
                &&& e@ == (ErrorView::Usage { message: missing_directory_message() })
            },
        },
{
    if given.len() < 2 {
        return Err(Error::Usage { message: String::from_str("Provide the URL to download.") });
    }
    if given.len() < 3 || !is_directory {
        return Err(
            Error::Usage {
                message: String::from_str("Provide a directory to place the downloaded file in"),
            },
        );
    }
    Ok((given[1].clone(), given[2].clone()))
}

} // verus!
