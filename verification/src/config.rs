//! Start-up configuration of the web front end.

use vstd::prelude::*;

verus! {

/// The port the web server listens on when none is given.
pub const DEFAULT_PORT: u16 = 9090;

/// Start-up options of the web server.
#[derive(Debug)]
pub struct Args {
    /// The port to run the web server on.
    pub port: u16,
}

impl Default for Args {
    fn default() -> (args: Self)
        ensures
            args.port == DEFAULT_PORT,
    {
        Args { port: DEFAULT_PORT }
    }
}

} // verus!
