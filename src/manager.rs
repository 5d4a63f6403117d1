//! The process manager: the process table together with the location of the
//! server executable, deciding each start, stop and log request.
//!
//! A start runs in two steps so that the slow work happens outside the
//! table's lock: `start_server` reserves the entry and hands back the launch
//! plan; whoever carries the plan out (writes the configuration file, spawns
//! the process) reports back through `finish_start`. While a start is under
//! way every other start of the same server is refused, so a server is never
//! spawned twice.

use vstd::prelude::*;

use crate::error::{launch_error_of, LaunchError, ProcessError};
use crate::paths::{launch_args, launch_args_of, paths_of, server_paths, ServerPaths, ServerPathsView};
use crate::table::{
    abandoned, drained, is_running, is_starting, launched, logs_check, reserved, start_check,
    stop_check, stopped, table_wf, ProcessTable, Server,
};

verus! {

/// How to launch one server: where its files are and its arguments.
pub struct LaunchPlan {
    pub paths: ServerPaths,
    pub args: Vec<String>,
}

/// What a `LaunchPlan` holds, as character sequences.
pub struct LaunchPlanView {
    pub paths: ServerPathsView,
    pub args: Seq<Seq<char>>,
}

impl View for LaunchPlan {
    type V = LaunchPlanView;

    open spec fn view(&self) -> LaunchPlanView {
        LaunchPlanView { paths: self.paths@, args: self.args@.map_values(|a: String| a@) }
    }
}

/// The launch plan of server `id` when the executable is at `executable`.
pub open spec fn plan_of(executable: Seq<char>, id: u128) -> Option<LaunchPlanView> {
    match paths_of(executable, id) {
        Some(paths) => Some(LaunchPlanView { paths, args: launch_args_of(paths.config_file) }),
        None => None,
    }
}

/// Tracks the servers started from one executable.
pub struct ProcessManager<H, O> {
    arma_reforger_path: String,
    servers: ProcessTable<H, O>,
}

impl<H, O> View for ProcessManager<H, O> {
    type V = Map<u128, Server<H, O>>;

    closed spec fn view(&self) -> Map<u128, Server<H, O>> {
        self.servers@
    }
}

impl<H, O> ProcessManager<H, O> {
    pub open spec fn wf(&self) -> bool {
        table_wf(self@)
    }

    /// The path of the server executable.
    pub closed spec fn executable(&self) -> Seq<char> {
        self.arma_reforger_path@
    }

    /// The path of the server executable.
    pub fn arma_reforger_path(&self) -> (r: &String)
        ensures
            r@ == self.executable(),
    {
        &self.arma_reforger_path
    }

    /// A manager of the executable at `arma_reforger_path`, with no servers.
    pub fn new(arma_reforger_path: String) -> (r: Self)
        ensures
            r.wf(),
            r@ == Map::<u128, Server<H, O>>::empty(),
            r.executable() == arma_reforger_path@,
    {
        ProcessManager { arma_reforger_path, servers: ProcessTable::new() }
    }

    /// The executable, its directory and the configuration file of server
    /// `id`.
    pub fn get_paths(&self, id: u128) -> (r: Result<ServerPaths, ProcessError>)
        ensures
            match r {
                Ok(p) => paths_of(self.executable(), id) == Some(p@),
                Err(e) => {
                    &&& paths_of(self.executable(), id) is None
                    &&& e == ProcessError::InvalidExecutablePath
                },
            },
    {
        match server_paths(&self.arma_reforger_path, id) {
            Some(p) => Ok(p),
            None => Err(ProcessError::InvalidExecutablePath),
        }
    }

    /// Whether server `id` is running.
    pub fn is_running(&self, id: u128) -> (r: bool)
        ensures
            r == is_running(self@, id),
    {
        self.servers.is_running(id)
    }

    /// Whether a start of server `id` is under way.
    pub fn is_starting(&self, id: u128) -> (r: bool)
        ensures
            r == is_starting(self@, id),
    {
        self.servers.is_starting(id)
    }

    /// Begins a start of server `id`. Refused while the server runs or is
    /// being started, and when the executable has no directory; otherwise the
    /// server is marked as starting and the plan to launch it is returned.
    /// The caller writes the configuration file, spawns the process and
    /// reports the outcome to `finish_start`.
    pub fn start_server(&mut self, id: u128) -> (r: Result<LaunchPlan, ProcessError>)
        requires
            old(self).wf(),
        ensures
            final(self).wf(),
            final(self).executable() == old(self).executable(),
            match start_check(old(self)@, id) {
                Err(e) => r == Err::<LaunchPlan, ProcessError>(e) && final(self)@ == old(self)@,
                Ok(_) => match plan_of(old(self).executable(), id) {
                    None => {
                        &&& r == Err::<LaunchPlan, ProcessError>(
                            ProcessError::InvalidExecutablePath,
                        )
                        &&& final(self)@ == old(self)@
                    },
                    Some(plan) => {
                        &&& r is Ok
                        &&& r->Ok_0@ == plan
                        &&& final(self)@ == reserved(old(self)@, id)
                    },
                },
            },
    {
        if self.servers.is_running(id) {
            return Err(ProcessError::AlreadyRunning);
        }
        if self.servers.is_starting(id) {
            return Err(ProcessError::AlreadyStarting);
        }
        let paths = match self.get_paths(id) {
            Ok(p) => p,
            Err(e) => return Err(e),
        };
        let args = launch_args(&paths.config_file);
        match self.servers.reserve(id) {
            Ok(()) => Ok(LaunchPlan { paths, args }),
            Err(e) => Err(e),
        }
    }

    /// Finishes the start under way of server `id` with the outcome of its
    /// launch: a launched process makes the server running; a failure leaves
    /// the table as it was before the start and is reported.
    pub fn finish_start(&mut self, id: u128, outcome: Result<(H, O), LaunchError>) -> (r: Result<
        (),
        ProcessError,
    >)
        requires
            old(self).wf(),
            is_starting(old(self)@, id),
        ensures
            final(self).wf(),
            final(self).executable() == old(self).executable(),
            match outcome {
                Ok((process, output)) => {
                    &&& r is Ok
                    &&& final(self)@ == launched(old(self)@, id, process, output)
                },
                Err(e) => {
                    &&& r == Err::<(), ProcessError>(launch_error_of(e))
                    &&& final(self)@ == abandoned(old(self)@, id)
                },
            },
    {
        match outcome {
            Ok((process, output)) => {
                self.servers.install(id, process, output);
                Ok(())
            },
            Err(e) => {
                self.servers.release(id);
                Err(e.to_process_error())
            },
        }
    }

    /// Stops server `id`: its process is taken out of the table and handed
    /// to the caller to be killed; the entry stays, stopped. Refused when the
    /// server was never started or has no process.
    pub fn stop_server(&mut self, id: u128) -> (r: Result<H, ProcessError>)
        requires
            old(self).wf(),
        ensures
            final(self).wf(),
            final(self).executable() == old(self).executable(),
            match r {
                Ok(process) => {
                    &&& stop_check(old(self)@, id) is Ok
                    &&& old(self)@[id].process == Some(process)
                    &&& final(self)@ == stopped(old(self)@, id)
                },
                Err(e) => {
                    &&& stop_check(old(self)@, id) == Err::<(), ProcessError>(e)
                    &&& final(self)@ == old(self)@
                },
            },
    {
        self.servers.take_process(id)
    }

    /// The output of server `id`'s latest launch, handed to the caller to be
    /// read to its end; nothing when it was handed out before. The process
    /// stays in the table. Refused when the server was never started.
    pub fn get_logs(&mut self, id: u128) -> (r: Result<Option<O>, ProcessError>)
        requires
            old(self).wf(),
        ensures
            final(self).wf(),
            final(self).executable() == old(self).executable(),
            match r {
                Ok(output) => {
                    &&& logs_check(old(self)@, id) is Ok
                    &&& output == old(self)@[id].output
                    &&& final(self)@ == drained(old(self)@, id)
                },
                Err(e) => {
                    &&& logs_check(old(self)@, id) == Err::<(), ProcessError>(e)
                    &&& final(self)@ == old(self)@
                },
            },
    {
        self.servers.take_output(id)
    }
}

} // verus!
