//! What a run is given: which client library does the work, which commit the
//! new commits are modelled on, and how many of them are written.

use vstd::prelude::*;

verus! {

/// The commit that a run is modelled on unless it is told otherwise.
pub const COMMIT_REF: &'static str = "8d83139ab7fd7bdb569417dc17494f9730b1b6ec";

/// The number of commits that a run writes unless it is told otherwise.
pub const COMMIT_COUNT: usize = 10000;

/// One of the two interchangeable client libraries.
#[derive(Clone, Copy, Debug, PartialEq, Eq, Structural)]
pub enum Backend {
    Git2,
    Gix,
}

/// The backend that the command line selects: the flag `--use-gix` selects
/// `Gix`, its absence `Git2`.
pub open spec fn selected_backend(use_gix: bool) -> Backend {
    if use_gix {
        Backend::Gix
    } else {
        Backend::Git2
    }
}

/// The backend that the command line selects.
pub fn select_backend(use_gix: bool) -> (backend: Backend)
    ensures
        backend == selected_backend(use_gix),
{
    if use_gix {
        Backend::Gix
    } else {
        Backend::Git2
    }
}

/// The inputs of a run.
#[derive(Debug)]
pub struct Config {
    /// The client library that opens the repository, finds the base commit
    /// and writes the new commits.
    pub backend: Backend,
    /// The identifier of the base commit, as hexadecimal text.
    pub base: String,
    /// The number of commits to write.
    pub count: usize,
}

/// The inputs of a run as a mathematical value.
pub struct ConfigView {
    pub backend: Backend,
    pub base: Seq<char>,
    pub count: nat,
}

impl View for Config {
    type V = ConfigView;

    open spec fn view(&self) -> ConfigView {
        ConfigView { backend: self.backend, base: self.base@, count: self.count as nat }
    }
}

impl Config {
    /// The inputs of a run with the given backend, base identifier and
    /// number of commits.
    pub fn new(backend: Backend, base: String, count: usize) -> (config: Config)
        ensures
            config@ == (ConfigView { backend, base: base@, count: count as nat }),
    {
        Config { backend, base, count }
    }

    /// The inputs that the command line stands for: the selected backend with
    /// the built-in base commit and number of commits.
    pub fn from_flag(use_gix: bool) -> (config: Config)
        ensures
            config@ == (ConfigView {
                backend: selected_backend(use_gix),
                base: COMMIT_REF@,
                count: COMMIT_COUNT as nat,
            }),
    {
        Config { backend: select_backend(use_gix), base: COMMIT_REF.to_owned(), count: COMMIT_COUNT }
    }
}

} // verus!
