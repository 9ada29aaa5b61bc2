//! The supervisor: the process that launches the worker and restarts it.
//!
//! The supervisor records its own process id before it asks the host to
//! start the worker, and hands the id to the worker as its one argument.
//! Nothing else is shared between the two sides: both compute the
//! rendezvous endpoint from it.
//!
//! Restart policy: a worker that ends without having been told to is started
//! again after a fixed delay of one second, never at once; a worker that was
//! told to shut down is not started again. Every supervisor has a limit:
//! once it has ordered that many restarts it gives up, and the worker
//! stays down until the supervisor itself is started anew.

use crate::endpoint::{decimal, decimal_string};
use crate::errors::{failure_message, ExpectPgErrExt, PgError};
use vstd::prelude::*;
use vstd::string::StringExecFns;

verus! {

/// The delay between the end of a worker and its restart, in seconds.
pub const RESTART_DELAY_SECS: u64 = 1;

/// The number of restarts after which a supervisor gives up, unless it is
/// made with another.
pub const RESTART_LIMIT: u64 = 10;

/// The name of the function at which the worker starts.
pub open spec fn entry_point() -> Seq<char> {
    "background_main"@
}

/// What the host is asked for when the worker is registered.
#[derive(Debug, PartialEq, Eq)]
pub struct WorkerRegistration {
    /// The name under which the worker is listed.
    pub name: String,
    /// The library that holds the worker's entry point.
    pub library: String,
    /// The function at which the worker starts.
    pub function: String,
    /// The argument of that function: the supervisor's process id.
    pub argument: i64,
    /// The seconds to wait before a worker that ended is started again.
    pub restart_secs: u64,
    /// Whether the worker may run queries against the host's database.
    pub spi_access: bool,
}

/// How a worker ended.
#[derive(Clone, Copy, Debug, PartialEq, Eq, Structural)]
pub enum WorkerExit {
    /// It was told to shut down, and did.
    Shutdown,
    /// It ended without having been told to.
    Unexpected,
}

/// What the supervisor does about a worker that ended.
#[derive(Clone, Copy, Debug, PartialEq, Eq, Structural)]
pub enum Restart {
    /// Start it again once `secs` seconds have passed.
    After { secs: u64 },
    /// Leave it.
    Never,
}

/// What is done about a worker that ended as `exit` says, by a supervisor
/// with the given limit that has ordered `restarts` restarts.
pub open spec fn decision(limit: u64, restarts: u64, exit: WorkerExit) -> Restart {
    if exit == WorkerExit::Unexpected && restarts < limit {
        Restart::After { secs: RESTART_DELAY_SECS }
    } else {
        Restart::Never
    }
}

/// The number of restarts ordered once that worker's end has been dealt
/// with.
pub open spec fn counted(limit: u64, restarts: u64, exit: WorkerExit) -> u64 {
    if decision(limit, restarts, exit) is After {
        (restarts + 1) as u64
    } else {
        restarts
    }
}

/// The number of restarts ordered once the workers' ends in `exits` have
/// been dealt with, first to last.
pub open spec fn counted_after(limit: u64, restarts: u64, exits: Seq<WorkerExit>) -> u64
    decreases exits.len(),
{
    if exits.len() == 0 {
        restarts
    } else {
        counted(limit, counted_after(limit, restarts, exits.drop_last()), exits.last())
    }
}

/// The supervisor of one worker.
#[derive(Debug)]
pub struct Supervisor {
    pid: Option<i64>,
    limit: u64,
    restarts: u64,
}

impl Supervisor {
    /// The identity that was recorded, if any.
    pub closed spec fn identity(&self) -> Option<i64> {
        self.pid
    }

    /// The number of restarts after which the supervisor gives up.
    pub closed spec fn restart_limit(&self) -> u64 {
        self.limit
    }

    /// The number of restarts ordered so far.
    pub closed spec fn restarts_ordered(&self) -> u64 {
        self.restarts
    }

    /// A supervisor that has recorded nothing and ordered no restart, and
    /// that gives up after `limit` restarts.
    pub fn new(limit: u64) -> (supervisor: Self)
        ensures
            supervisor.identity() is None,
            supervisor.restart_limit() == limit,
            supervisor.restarts_ordered() == 0,
    {
        Supervisor { pid: None, limit, restarts: 0 }
    }

    /// Records the supervisor's process id and describes the worker to
    /// register: listed as `ext_name`, a space, `role` and
    /// `background worker`, found in the library `ext_name`, started at
    /// `background_main` with the process id as its argument, restarted
    /// after one second, with access to the host's database.
    ///
    /// An identity is recorded once. A second attempt changes nothing and is
    /// an error for the host.
    pub fn init(&mut self, process_id: u32, ext_name: &str, role: &str) -> (r: Result<
        WorkerRegistration,
        PgError,
    >)
        ensures
            final(self).restart_limit() == old(self).restart_limit(),
            final(self).restarts_ordered() == old(self).restarts_ordered(),
            match old(self).identity() {
                None => {
                    &&& final(self).identity() == Some(process_id as i64)
                    &&& r is Ok
                    &&& r->Ok_0.name@ == ext_name@ + " "@ + role@ + " background worker"@
                    &&& r->Ok_0.library@ == ext_name@
                    &&& r->Ok_0.function@ == entry_point()
                    &&& r->Ok_0.argument == process_id as i64
                    &&& r->Ok_0.restart_secs == RESTART_DELAY_SECS
                    &&& r->Ok_0.spi_access
                },
                Some(_) => {
                    &&& final(self).identity() == old(self).identity()
                    &&& r is Err
                    &&& r->Err_0.message@ == failure_message(
                        "Impossible concurrent access to set PID value"@,
                        decimal(process_id as int),
                    )
                },
            },
    {
        let pid = process_id as i64;
        let recorded: Result<(), String> = match self.pid {
            None => {
                self.pid = Some(pid);
                Ok(())
            },
            Some(_) => Err(decimal_string(pid)),
        };
        match recorded.expect_or_pg_err("Impossible concurrent access to set PID value") {
            Err(error) => Err(error),
            Ok(_) => {
                let name = String::from_str(ext_name).concat(" ").concat(role).concat(
                    " background worker",
                );
                Ok(
                    WorkerRegistration {
                        name,
                        library: String::from_str(ext_name),
                        function: String::from_str("background_main"),
                        argument: pid,
                        restart_secs: RESTART_DELAY_SECS,
                        spi_access: true,
                    },
                )
            },
        }
    }

    /// The identity that was recorded: what a client reads before each
    /// call.
    pub fn pid(&self) -> (pid: Option<i64>)
        ensures
            pid == self.identity(),
    {
        self.pid
    }

    /// Decides what to do about a worker that ended. After a shutdown it is
    /// left alone. After an unexpected end it is started again after the
    /// delay, and the restart is counted, unless the limit is reached.
    pub fn worker_exited(&mut self, exit: WorkerExit) -> (restart: Restart)
        ensures
            final(self).identity() == old(self).identity(),
            final(self).restart_limit() == old(self).restart_limit(),
            restart == decision(old(self).restart_limit(), old(self).restarts_ordered(), exit),
            final(self).restarts_ordered() == counted(
                old(self).restart_limit(),
                old(self).restarts_ordered(),
                exit,
            ),
    {
        match exit {
            WorkerExit::Shutdown => Restart::Never,
            WorkerExit::Unexpected => {
                if self.restarts < self.limit {
                    self.restarts = self.restarts + 1;
                    Restart::After { secs: RESTART_DELAY_SECS }
                } else {
                    Restart::Never
                }
            },
        }
    }
}

/// Restarts are never immediate and never follow a shutdown: whatever the
/// supervisor has seen, it orders a restart only for a worker that ended
/// unexpectedly, and only after the delay.
pub proof fn lemma_restart_is_delayed(limit: u64, restarts: u64, exit: WorkerExit)
    ensures
        decision(limit, restarts, WorkerExit::Shutdown) == Restart::Never,
        decision(limit, restarts, exit) matches Restart::After { secs } ==> secs >= 1 && exit
            == WorkerExit::Unexpected,
{
}

/// Restarts are bounded. A supervisor never orders more restarts than its
/// limit, however many workers end and however they end; and once it has
/// ordered that many it orders no more.
pub proof fn lemma_restarts_stay_within_limit(limit: u64, restarts: u64, exits: Seq<WorkerExit>)
    requires
        restarts <= limit,
    ensures
        restarts <= counted_after(limit, restarts, exits) <= limit,
        counted_after(limit, restarts, exits) == limit ==> forall|exit: WorkerExit|
            #[trigger] decision(limit, counted_after(limit, restarts, exits), exit)
                == Restart::Never,
    decreases exits.len(),
{
    if exits.len() > 0 {
        lemma_restarts_stay_within_limit(limit, restarts, exits.drop_last());
    }
}

} // verus!
