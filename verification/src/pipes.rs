//! Control channels: named pipes used to exchange session data with
//! companion processes. This module decides what opening a pipe path may
//! touch on disk; the caller performs the steps and the blocking open.

use vstd::prelude::*;

verus! {

/// Which end of the pipe the caller wants. Opening either end blocks the
/// caller until a counterpart opens the opposite end: callers rely on that
/// for startup ordering, so the open must not be hidden behind a generic
/// file abstraction.
#[derive(Clone, Copy, PartialEq, Eq, Structural, Debug)]
pub enum PipeMode {
    Read,
    Write,
}

/// A filesystem step that must happen before a pipe path can be opened.
#[derive(Clone, Copy, PartialEq, Eq, Structural, Debug)]
pub enum PipeSetup {
    /// Create the path's missing parent directories.
    CreateParentDirs,
    /// Create the FIFO special file at the path.
    CreateFifo,
}

/// Why a pipe path cannot be opened.
#[derive(Clone, Copy, PartialEq, Eq, Structural, Debug)]
pub enum PipeError {
    /// The path does not exist and creating it was not requested.
    NoSuchPath,
    /// An entry exists at the path but is not usable in the requested mode.
    NotAFile,
}

impl PipeError {
    /// A descriptive reason for the caller.
    pub fn message(&self) -> (r: &'static str)
        ensures
            *self is NoSuchPath ==> r@ == "Path does not exist"@,
            *self is NotAFile ==> r@ == "Path is not a file"@,
    {
        match self {
            PipeError::NoSuchPath => "Path does not exist",
            PipeError::NotAFile => "Path is not a file",
        }
    }
}

/// The setup steps opening a pipe path performs, in order: parents first,
/// then the FIFO, each only when missing and only when creation is asked
/// for. An existing entry at the path is taken as already correctly typed.
pub open spec fn spec_pipe_setup(exists: bool, parent_exists: bool, create: bool) -> Seq<
    PipeSetup,
> {
    (if !parent_exists && create {
        seq![PipeSetup::CreateParentDirs]
    } else {
        Seq::<PipeSetup>::empty()
    }) + (if !exists && create {
        seq![PipeSetup::CreateFifo]
    } else {
        Seq::<PipeSetup>::empty()
    })
}

/// Decide what opening a pipe path must do on disk first. A missing path
/// without `create` fails with no steps at all — nothing is created as a
/// side effect of the failed open.
pub fn plan_pipe_setup(exists: bool, parent_exists: bool, create: bool) -> (r: Result<
    Vec<PipeSetup>,
    PipeError,
>)
    ensures
        !exists && !create ==> r == Err::<Vec<PipeSetup>, PipeError>(PipeError::NoSuchPath),
        exists || create ==> (r matches Ok(steps) && steps@ == spec_pipe_setup(
            exists,
            parent_exists,
            create,
        )),
{
    if !exists && !create {
        return Err(PipeError::NoSuchPath);
    }
    let mut steps: Vec<PipeSetup> = Vec::new();
    if !parent_exists && create {
        steps.push(PipeSetup::CreateParentDirs);
    }
    if !exists && create {
        steps.push(PipeSetup::CreateFifo);
    }
    proof {
        assert(steps@ =~= spec_pipe_setup(exists, parent_exists, create));
    }
    Ok(steps)
}

/// After setup, the path must hold an entry usable in the requested mode;
/// only then may the caller perform the blocking open of that end.
pub fn check_openable(usable: bool, mode: PipeMode) -> (r: Result<PipeMode, PipeError>)
    ensures
        usable ==> r == Ok::<PipeMode, PipeError>(mode),
        !usable ==> r == Err::<PipeMode, PipeError>(PipeError::NotAFile),
{
    if usable {
        Ok(mode)
    } else {
        Err(PipeError::NotAFile)
    }
}

} // verus!
