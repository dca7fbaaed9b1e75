//! Releasing a page mapping: the region is unmapped first, the descriptor is
//! closed second, and a failure of either step is swallowed so that the
//! other still runs.
use vstd::prelude::*;

verus! {

/// The resources that a page mapping still holds.
#[derive(Debug, Clone, Copy, PartialEq, Eq, Structural)]
pub struct Held {
    /// The mapped region has not been released yet.
    pub mapping: bool,
    /// The device file descriptor has not been released yet.
    pub descriptor: bool,
}

/// The next thing that teardown does.
#[derive(Debug, Clone, Copy, PartialEq, Eq, Structural)]
pub enum TeardownStep {
    /// Unmap the mapped region.
    Unmap,
    /// Close the descriptor, if it is still open.
    Close,
    /// Nothing is held any more.
    Done,
}

/// The step that teardown takes while `held` is still held.
pub open spec fn step_for(held: Held) -> TeardownStep {
    if held.mapping {
        TeardownStep::Unmap
    } else if held.descriptor {
        TeardownStep::Close
    } else {
        TeardownStep::Done
    }
}

/// What is still held once `step` has been attempted. A step counts as done
/// whether or not the system call behind it succeeded.
pub open spec fn held_after(held: Held, step: TeardownStep) -> Held {
    match step {
        TeardownStep::Unmap => Held { mapping: false, ..held },
        TeardownStep::Close => Held { descriptor: false, ..held },
        TeardownStep::Done => held,
    }
}

/// What is held after `n` steps of teardown starting from `held`.
pub open spec fn held_after_steps(held: Held, n: nat) -> Held
    decreases n,
{
    if n == 0 {
        held
    } else {
        held_after_steps(held_after(held, step_for(held)), (n - 1) as nat)
    }
}

/// Chooses the next teardown step: the mapping before the descriptor.
pub fn next_teardown_step(held: Held) -> (r: TeardownStep)
    ensures
        r == step_for(held),
{
    if held.mapping {
        TeardownStep::Unmap
    } else if held.descriptor {
        TeardownStep::Close
    } else {
        TeardownStep::Done
    }
}

/// Records that `step` has been attempted.
pub fn release(held: Held, step: TeardownStep) -> (r: Held)
    ensures
        r == held_after(held, step),
{
    match step {
        TeardownStep::Unmap => Held { mapping: false, descriptor: held.descriptor },
        TeardownStep::Close => Held { mapping: held.mapping, descriptor: false },
        TeardownStep::Done => held,
    }
}

/// Whatever a mapping holds, two steps of teardown release all of it, and
/// teardown then reports that it is done.
pub proof fn lemma_teardown_releases_everything(held: Held)
    ensures
        held_after_steps(held, 2) == (Held { mapping: false, descriptor: false }),
        step_for(held_after_steps(held, 2)) == TeardownStep::Done,
{
    reveal_with_fuel(held_after_steps, 3);
}

/// Relies on nix::fcntl::fcntl with FcntlArg::F_GETFD: it asks the system
/// for the descriptor's flags and fails when `fd` is not an open descriptor.
/// The answer depends on the state of the process, so nothing more is stated.
#[verifier::external_body]
fn descriptor_flags(fd: i32) -> (r: Result<i32, nix::errno::Errno>) {
    nix::fcntl::fcntl(fd, nix::fcntl::FcntlArg::F_GETFD)
}

/// Whether a flags query shows that the descriptor is still open.
pub fn flags_show_open(query: Result<i32, nix::errno::Errno>) -> (r: bool)
    ensures
        r == query is Ok,
{
    query.is_ok()
}

/// Checks, before closing, that `fd` still names an open descriptor; a
/// descriptor that the system no longer knows is not closed again.
pub fn descriptor_still_open(fd: i32) -> (r: bool) {
    let query = descriptor_flags(fd);
    flags_show_open(query)
}

} // verus!
