//! Building the run configuration from the raw argument list.

use vstd::prelude::*;

verus! {

/// The validated, immutable configuration of one run: the search term and
/// the path of the file to search. Both are fixed once the value is built.
pub struct Config {
    pub query: String,
    pub file_path: String,
}

/// Returned when fewer arguments were supplied than a run needs. The caller
/// may recover by invoking the program again with a full argument list.
#[derive(Debug, Clone, Copy, PartialEq, Eq, Structural)]
pub struct ArgumentCountError;

impl Config {
    /// Maps an ordered argument list to a configuration. Element 0 is the
    /// program's own invocation name and is not used; element 1 becomes the
    /// query and element 2 the file path, each copied verbatim. A list with
    /// fewer than three elements is rejected, and no partial configuration
    /// is ever produced.
    pub fn new(args: &[String]) -> (result: Result<Config, ArgumentCountError>)
        ensures
            args@.len() >= 3 ==> (result matches Ok(config)
                && config.query@ == args@[1]@
                && config.file_path@ == args@[2]@),
            args@.len() < 3 ==> result matches Err(ArgumentCountError),
    {
        if args.len() < 3 {
            Err(ArgumentCountError)
        } else {
            let query = args[1].clone();
            let file_path = args[2].clone();
            Ok(Config { query, file_path })
        }
    }
}

} // verus!
