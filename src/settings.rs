use vstd::prelude::*;

verus! {

/// The shell that a new backend starts when none is configured.
pub const DEFAULT_SHELL: &'static str = "/bin/bash";

/// How the backend collaborator starts the child process.
///
/// `env` holds the extra environment variables in insertion order; its keys
/// are pairwise distinct.
#[derive(Debug, Clone)]
pub struct BackendSettings {
    pub shell: String,
    pub args: Vec<String>,
    pub working_directory: Option<String>,
    pub env: Vec<(String, String)>,
}

impl BackendSettings {
    /// The keys of `env` are pairwise distinct.
    pub open spec fn wf(&self) -> bool {
        forall|i: int, j: int|
            0 <= i < j < self.env@.len() ==> #[trigger] self.env@[i].0@ != #[trigger] self.env@[j].0@
    }
}

impl Default for BackendSettings {
    fn default() -> (r: Self)
        ensures
            r.wf(),
            r.shell@ == DEFAULT_SHELL@,
            r.args@.len() == 0,
            r.working_directory.is_none(),
            r.env@.len() == 2,
            r.env@[0].0@ == "TERM"@,
            r.env@[0].1@ == "xterm-256color"@,
            r.env@[1].0@ == "COLORTERM"@,
            r.env@[1].1@ == "truecolor"@,
    {
        let mut env: Vec<(String, String)> = Vec::new();
        env.push(("TERM".to_owned(), "xterm-256color".to_owned()));
        env.push(("COLORTERM".to_owned(), "truecolor".to_owned()));
        proof {
            reveal_strlit("TERM");
            reveal_strlit("COLORTERM");
            assert(env@[0].0@.len() != env@[1].0@.len());
        }
        BackendSettings {
            shell: DEFAULT_SHELL.to_owned(),
            args: Vec::new(),
            working_directory: None,
            env,
        }
    }
}

} // verus!
