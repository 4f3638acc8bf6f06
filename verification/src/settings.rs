//! Settings a session is opened with.

use vstd::prelude::*;

verus! {

/// How to spawn the underlying process: the shell to run, its
/// arguments, and an optional working directory.
#[derive(Debug, Clone)]
pub struct BackendSettings {
    pub shell: String,
    pub args: Vec<String>,
    pub working_directory: Option<String>,
}

impl Default for BackendSettings {
    fn default() -> (r: BackendSettings)
        ensures
            r.shell@ == "/bin/bash"@,
            r.args@.len() == 0,
            r.working_directory is None,
    {
        BackendSettings {
            shell: String::from_str("/bin/bash"),
            args: Vec::new(),
            working_directory: None,
        }
    }
}

} // verus!
