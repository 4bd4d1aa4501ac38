//! The single-instance worker slot and the decisions taken around each
//! command: which requests may start, stop or write to the worker, and what
//! each outside result means for the caller.
use crate::config::ConfigError;
use vstd::prelude::*;
use vstd::string::StringSliceAdditionalSpecFns;
use vstd::utf8::{decode_utf8, encode_utf8};

verus! {

/// Why a command on the worker did not succeed.
#[derive(Debug)]
pub enum SupervisorError {
    /// A start was requested while a worker runs.
    AlreadyRunning,
    /// A write was requested while no worker runs.
    NotRunning,
    /// The launch configuration could not be resolved.
    ConfigFailure(ConfigError),
    /// The operating system could not create the worker or its pipes.
    SpawnFailure(String),
    /// The kill signal failed; the slot was cleared all the same.
    TerminationFailure(String),
    /// Writing a line to the worker's input failed.
    WriteFailure(String),
    /// Flushing the worker's input failed.
    FlushFailure(String),
}

/// The slot and the result after a start whose spawn gave `spawned`.
pub open spec fn start_step<W>(slot: Option<W>, spawned: Result<W, SupervisorError>) -> (
    Option<W>,
    Result<(), SupervisorError>,
) {
    match slot {
        Some(w) => (Some(w), Err(SupervisorError::AlreadyRunning)),
        None => match spawned {
            Ok(w) => (Some(w), Ok(())),
            Err(e) => (None, Err(e)),
        },
    }
}

/// Whether a start may go on to spawn a worker.
pub open spec fn start_check<W>(slot: Option<W>) -> Result<(), SupervisorError> {
    match slot {
        Some(_) => Err(SupervisorError::AlreadyRunning),
        None => Ok(()),
    }
}

/// The result of a stop, given what killing the worker gave (`None` when no
/// worker ran).
pub open spec fn stop_result_spec(killed: Option<Result<(), String>>) -> Result<(), SupervisorError> {
    match killed {
        Some(Err(detail)) => Err(SupervisorError::TerminationFailure(detail)),
        _ => Ok(()),
    }
}

/// The result of a stop on `slot`, where killing a worker, if one ran, gave
/// `kill`.
pub open spec fn stop_outcome<W>(slot: Option<W>, kill: Result<(), String>) -> Result<
    (),
    SupervisorError,
> {
    stop_result_spec(
        match slot {
            Some(_) => Some(kill),
            None => None,
        },
    )
}

/// Whether a write may go on to the worker's input.
pub open spec fn write_check<W>(slot: Option<W>) -> Result<(), SupervisorError> {
    match slot {
        Some(_) => Ok(()),
        None => Err(SupervisorError::NotRunning),
    }
}

/// The result of a write, given what writing and then flushing gave.
pub open spec fn write_result_spec(
    written: Result<(), String>,
    flushed: Result<(), String>,
) -> Result<(), SupervisorError> {
    match written {
        Err(detail) => Err(SupervisorError::WriteFailure(detail)),
        Ok(()) => match flushed {
            Err(detail) => Err(SupervisorError::FlushFailure(detail)),
            Ok(()) => Ok(()),
        },
    }
}

/// The slot that holds the running worker, if any. `W` is the worker's
/// process handle together with its input channel.
pub struct Supervisor<W> {
    slot: Option<W>,
}

impl<W> View for Supervisor<W> {
    type V = Option<W>;

    closed spec fn view(&self) -> Option<W> {
        self.slot
    }
}

impl<W> Supervisor<W> {
    /// A supervisor with no worker.
    pub fn new() -> (r: Supervisor<W>)
        ensures
            r@ is None,
    {
        Supervisor { slot: None }
    }

    /// Whether a worker runs.
    pub fn is_running(&self) -> (r: bool)
        ensures
            r == self@ is Some,
    {
        self.slot.is_some()
    }

    /// Refuses a start while a worker runs; to be asked before anything is
    /// spawned.
    pub fn check_start(&self) -> (r: Result<(), SupervisorError>)
        ensures
            r == start_check(self@),
    {
        match &self.slot {
            Some(_) => Err(SupervisorError::AlreadyRunning),
            None => Ok(()),
        }
    }

    /// Completes a start with the outcome of the spawn. A worker is kept only
    /// when the slot was empty; otherwise the new one is dropped and the
    /// running one stays.
    pub fn commit_start(&mut self, spawned: Result<W, SupervisorError>) -> (r: Result<
        (),
        SupervisorError,
    >)
        ensures
            (final(self)@, r) == start_step(old(self)@, spawned),
    {
        if self.slot.is_some() {
            return Err(SupervisorError::AlreadyRunning);
        }
        match spawned {
            Ok(w) => {
                self.slot = Some(w);
                Ok(())
            },
            Err(e) => Err(e),
        }
    }

    /// Begins a stop: the slot is emptied at once and whatever worker it held
    /// is handed out to be killed.
    pub fn take_for_stop(&mut self) -> (r: Option<W>)
        ensures
            r == old(self)@,
            final(self)@ is None,
    {
        let mut taken: Option<W> = None;
        std::mem::swap(&mut taken, &mut self.slot);
        taken
    }

    /// The running worker, for a write. Asking changes nothing.
    pub fn worker(&self) -> (r: Result<&W, SupervisorError>)
        ensures
            match r {
                Ok(w) => self@ == Some(*w),
                Err(e) => Err::<(), SupervisorError>(e) == write_check(self@),
            },
            r is Ok <==> write_check(self@) is Ok,
    {
        match &self.slot {
            Some(w) => Ok(w),
            None => Err(SupervisorError::NotRunning),
        }
    }
}

/// Ends a stop, given what killing the worker gave (`None` when none ran).
/// Only a failed kill is an error; the slot is empty either way.
pub fn stop_result(killed: Option<Result<(), String>>) -> (r: Result<(), SupervisorError>)
    ensures
        r == stop_result_spec(killed),
{
    match killed {
        Some(Err(detail)) => Err(SupervisorError::TerminationFailure(detail)),
        _ => Ok(()),
    }
}

/// Ends a write, given what writing the line and then flushing gave. The
/// flush is only attempted after a successful write, and its result is
/// read only then.
pub fn write_result(written: Result<(), String>, flushed: Result<(), String>) -> (r: Result<
    (),
    SupervisorError,
>)
    ensures
        r == write_result_spec(written, flushed),
{
    match written {
        Err(detail) => Err(SupervisorError::WriteFailure(detail)),
        Ok(()) => match flushed {
            Err(detail) => Err(SupervisorError::FlushFailure(detail)),
            Ok(()) => Ok(()),
        },
    }
}

/// The bytes that a write hands to the worker's input: the line's own
/// encoding, nothing added, nothing cut.
pub fn line_bytes(text: &str) -> (r: &[u8])
    ensures
        r@ == encode_utf8(text@),
        decode_utf8(r@) == text@,
{
    proof {
        vstd::utf8::encode_utf8_decode_utf8(text@);
    }
    text.as_bytes()
}

/// A second start without a stop in between is refused with
/// `AlreadyRunning`, both when it is checked and when it is committed, and
/// the worker of the first start stays the only one.
pub proof fn law_single_instance<W>(
    slot: Option<W>,
    first: Result<W, SupervisorError>,
    second: Result<W, SupervisorError>,
)
    requires
        start_step(slot, first).1 is Ok,
    ensures
        start_step(slot, first).0 == Some(first->Ok_0),
        start_check(start_step(slot, first).0) == Err::<(), SupervisorError>(
            SupervisorError::AlreadyRunning,
        ),
        start_step(start_step(slot, first).0, second) == (
            start_step(slot, first).0,
            Err::<(), SupervisorError>(SupervisorError::AlreadyRunning),
        ),
{
}

/// Stopping is idempotent: with no worker a stop succeeds whatever the kill
/// would have given, and since every stop leaves the slot empty, a second
/// stop in a row never fails.
pub proof fn law_stop_idempotent<W>(
    slot: Option<W>,
    first_kill: Result<(), String>,
    kill: Result<(), String>,
)
    ensures
        stop_outcome(None::<W>, kill) == Ok::<(), SupervisorError>(()),
        slot is Some && first_kill is Ok ==> stop_outcome(slot, first_kill) == Ok::<
            (),
            SupervisorError,
        >(()),
{
}

/// A write with no worker running is refused with `NotRunning`.
pub proof fn law_write_needs_worker<W>(slot: Option<W>)
    requires
        slot is None,
    ensures
        write_check(slot) == Err::<(), SupervisorError>(SupervisorError::NotRunning),
{
}

} // verus!
