//! The process table: one entry per server identifier, each either running
//! with its process handle, stopped, or being started.
//!
//! The handle type `H` (a live process) and the output type `O` (its captured
//! output pipes) are chosen by the caller; the table owns each value it holds
//! and hands it out exactly once.

use std::collections::HashMap;
use vstd::prelude::*;

use crate::error::ProcessError;

verus! {

broadcast use vstd::std_specs::hash::group_hash_axioms;

/// The lifecycle state of a table entry.
#[derive(Clone, Copy, Debug, PartialEq, Eq, Structural)]
pub enum ServerState {
    /// The process was launched and has not been stopped.
    Running,
    /// The process was stopped; the entry stays as a tombstone.
    Stopped,
    /// A start is under way. `first_launch` says that the server had no entry
    /// before this start.
    Starting { first_launch: bool },
}

/// One entry of the process table.
pub struct Server<H, O> {
    pub id: u128,
    /// The live process, present exactly while the server is running.
    pub process: Option<H>,
    /// The output pipes of the latest launch, until they are taken.
    pub output: Option<O>,
    pub state: ServerState,
}

impl<H, O> Server<H, O> {
    /// The entry stands under key `id` and holds a process exactly when it is
    /// running.
    pub open spec fn wf(&self, id: u128) -> bool {
        &&& self.id == id
        &&& (self.state == ServerState::Running) == (self.process is Some)
    }
}

/// A table is well formed when each entry is.
pub open spec fn table_wf<H, O>(m: Map<u128, Server<H, O>>) -> bool {
    forall|id: u128| #[trigger] m.contains_key(id) ==> m[id].wf(id)
}

/// Whether server `id` has been started: it has an entry that is not the
/// placeholder of a first start still under way.
pub open spec fn is_registered<H, O>(m: Map<u128, Server<H, O>>, id: u128) -> bool {
    &&& m.contains_key(id)
    &&& m[id].state != (ServerState::Starting { first_launch: true })
}

/// Whether server `id` is running.
pub open spec fn is_running<H, O>(m: Map<u128, Server<H, O>>, id: u128) -> bool {
    m.contains_key(id) && m[id].state == ServerState::Running
}

/// Whether a start of server `id` is under way.
pub open spec fn is_starting<H, O>(m: Map<u128, Server<H, O>>, id: u128) -> bool {
    m.contains_key(id) && m[id].state is Starting
}

/// The answer to a request to start server `id`.
pub open spec fn start_check<H, O>(m: Map<u128, Server<H, O>>, id: u128) -> Result<(), ProcessError> {
    if is_running(m, id) {
        Err(ProcessError::AlreadyRunning)
    } else if is_starting(m, id) {
        Err(ProcessError::AlreadyStarting)
    } else {
        Ok(())
    }
}

/// The table once a start of server `id` is under way.
pub open spec fn reserved<H, O>(m: Map<u128, Server<H, O>>, id: u128) -> Map<u128, Server<H, O>> {
    if m.contains_key(id) {
        m.insert(id, Server { state: ServerState::Starting { first_launch: false }, ..m[id] })
    } else {
        m.insert(
            id,
            Server {
                id,
                process: None,
                output: None,
                state: ServerState::Starting { first_launch: true },
            },
        )
    }
}

/// The table once server `id` was launched as `process`, with output `output`.
pub open spec fn launched<H, O>(
    m: Map<u128, Server<H, O>>,
    id: u128,
    process: H,
    output: O,
) -> Map<u128, Server<H, O>> {
    m.insert(
        id,
        Server { id, process: Some(process), output: Some(output), state: ServerState::Running },
    )
}

/// The table once the start under way of server `id` failed: as it was before
/// that start.
pub open spec fn abandoned<H, O>(m: Map<u128, Server<H, O>>, id: u128) -> Map<u128, Server<H, O>> {
    if m[id].state == (ServerState::Starting { first_launch: true }) {
        m.remove(id)
    } else {
        m.insert(id, Server { state: ServerState::Stopped, ..m[id] })
    }
}

/// The answer to a request to stop server `id`.
pub open spec fn stop_check<H, O>(m: Map<u128, Server<H, O>>, id: u128) -> Result<(), ProcessError> {
    if !is_registered(m, id) {
        Err(ProcessError::NotStarted)
    } else if m[id].process is None {
        Err(ProcessError::AlreadyStopped)
    } else {
        Ok(())
    }
}

/// The table once the process of server `id` was taken out to be stopped.
pub open spec fn stopped<H, O>(m: Map<u128, Server<H, O>>, id: u128) -> Map<u128, Server<H, O>> {
    m.insert(id, Server { process: None, state: ServerState::Stopped, ..m[id] })
}

/// The answer to a request for the logs of server `id`.
pub open spec fn logs_check<H, O>(m: Map<u128, Server<H, O>>, id: u128) -> Result<(), ProcessError> {
    if is_registered(m, id) {
        Ok(())
    } else {
        Err(ProcessError::NotFound)
    }
}

/// The table once the output of server `id` was taken out to be read.
pub open spec fn drained<H, O>(m: Map<u128, Server<H, O>>, id: u128) -> Map<u128, Server<H, O>> {
    m.insert(id, Server { output: None, ..m[id] })
}

/// The table of supervised processes, keyed by server identifier.
pub struct ProcessTable<H, O> {
    servers: HashMap<u128, Server<H, O>>,
}

impl<H, O> View for ProcessTable<H, O> {
    type V = Map<u128, Server<H, O>>;

    closed spec fn view(&self) -> Map<u128, Server<H, O>> {
        self.servers@
    }
}

impl<H, O> ProcessTable<H, O> {
    pub open spec fn wf(&self) -> bool {
        table_wf(self@)
    }

    /// An empty table.
    pub fn new() -> (r: Self)
        ensures
            r.wf(),
            r@ == Map::<u128, Server<H, O>>::empty(),
    {
        ProcessTable { servers: HashMap::new() }
    }

    /// Whether server `id` is running.
    pub fn is_running(&self, id: u128) -> (r: bool)
        ensures
            r == is_running(self@, id),
    {
        match self.servers.get(&id) {
            Some(server) => server.state == ServerState::Running,
            None => false,
        }
    }

    /// Whether a start of server `id` is under way.
    pub fn is_starting(&self, id: u128) -> (r: bool)
        ensures
            r == is_starting(self@, id),
    {
        match self.servers.get(&id) {
            Some(server) => match server.state {
                ServerState::Starting { .. } => true,
                _ => false,
            },
            None => false,
        }
    }

    /// Begins a start of server `id`: refused while the server runs or is
    /// being started, otherwise the entry is marked as starting so that no
    /// other start can begin until this one is finished.
    pub fn reserve(&mut self, id: u128) -> (r: Result<(), ProcessError>)
        requires
            old(self).wf(),
        ensures
            final(self).wf(),
            r == start_check(old(self)@, id),
            r is Ok ==> final(self)@ == reserved(old(self)@, id),
            r is Err ==> final(self)@ == old(self)@,
    {
        match self.servers.remove(&id) {
            Some(server) => {
                match server.state {
                    ServerState::Running => {
                        self.servers.insert(id, server);
                        assert(self.servers@ =~= old(self)@);
                        Err(ProcessError::AlreadyRunning)
                    },
                    ServerState::Starting { .. } => {
                        self.servers.insert(id, server);
                        assert(self.servers@ =~= old(self)@);
                        Err(ProcessError::AlreadyStarting)
                    },
                    ServerState::Stopped => {
                        let starting = Server {
                            state: ServerState::Starting { first_launch: false },
                            ..server
                        };
                        self.servers.insert(id, starting);
                        assert(self.servers@ =~= reserved(old(self)@, id));
                        Ok(())
                    },
                }
            },
            None => {
                let placeholder = Server {
                    id,
                    process: None,
                    output: None,
                    state: ServerState::Starting { first_launch: true },
                };
                self.servers.insert(id, placeholder);
                Ok(())
            },
        }
    }

    /// Finishes the start under way of server `id` with the launched process
    /// and its output: the server is running.
    pub fn install(&mut self, id: u128, process: H, output: O)
        requires
            old(self).wf(),
            is_starting(old(self)@, id),
        ensures
            final(self).wf(),
            final(self)@ == launched(old(self)@, id, process, output),
    {
        let server = Server {
            id,
            process: Some(process),
            output: Some(output),
            state: ServerState::Running,
        };
        self.servers.insert(id, server);
    }

    /// Finishes the start under way of server `id`, which failed: the entry is
    /// as it was before the start.
    pub fn release(&mut self, id: u128)
        requires
            old(self).wf(),
            is_starting(old(self)@, id),
        ensures
            final(self).wf(),
            final(self)@ == abandoned(old(self)@, id),
    {
        match self.servers.remove(&id) {
            Some(server) => {
                if server.state == (ServerState::Starting { first_launch: false }) {
                    let tombstone = Server { state: ServerState::Stopped, ..server };
                    self.servers.insert(id, tombstone);
                }
            },
            None => {},
        }
    }

    /// Takes the process of server `id` out of the table to be stopped; the
    /// entry stays, stopped.
    pub fn take_process(&mut self, id: u128) -> (r: Result<H, ProcessError>)
        requires
            old(self).wf(),
        ensures
            final(self).wf(),
            match r {
                Ok(process) => {
                    &&& stop_check(old(self)@, id) is Ok
                    &&& old(self)@[id].process == Some(process)
                    &&& final(self)@ == stopped(old(self)@, id)
                },
                Err(e) => {
                    &&& stop_check(old(self)@, id) == Err::<(), ProcessError>(e)
                    &&& final(self)@ == old(self)@
                },
            },
    {
        match self.servers.remove(&id) {
            Some(server) => {
                if server.state == (ServerState::Starting { first_launch: true }) {
                    self.servers.insert(id, server);
                    assert(self.servers@ =~= old(self)@);
                    return Err(ProcessError::NotStarted);
                }
                let Server { id: key, process, output, state } = server;
                match process {
                    Some(p) => {
                        let tombstone = Server {
                            id: key,
                            process: None,
                            output,
                            state: ServerState::Stopped,
                        };
                        self.servers.insert(id, tombstone);
                        assert(self.servers@ =~= stopped(old(self)@, id));
                        Ok(p)
                    },
                    None => {
                        self.servers.insert(id, Server { id: key, process: None, output, state });
                        assert(self.servers@ =~= old(self)@);
                        Err(ProcessError::AlreadyStopped)
                    },
                }
            },
            None => Err(ProcessError::NotStarted),
        }
    }

    /// Takes the output of server `id`'s latest launch out of the table to be
    /// read; nothing when it was taken before. The process stays, so that the
    /// server can still be stopped.
    pub fn take_output(&mut self, id: u128) -> (r: Result<Option<O>, ProcessError>)
        requires
            old(self).wf(),
        ensures
            final(self).wf(),
            match r {
                Ok(output) => {
                    &&& logs_check(old(self)@, id) is Ok
                    &&& output == old(self)@[id].output
                    &&& final(self)@ == drained(old(self)@, id)
                },
                Err(e) => {
                    &&& logs_check(old(self)@, id) == Err::<(), ProcessError>(e)
                    &&& final(self)@ == old(self)@
                },
            },
    {
        match self.servers.remove(&id) {
            Some(server) => {
                if server.state == (ServerState::Starting { first_launch: true }) {
                    self.servers.insert(id, server);
                    assert(self.servers@ =~= old(self)@);
                    return Err(ProcessError::NotFound);
                }
                let Server { id: key, process, output, state } = server;
                self.servers.insert(id, Server { id: key, process, output: None, state });
                assert(self.servers@ =~= drained(old(self)@, id));
                Ok(output)
            },
            None => Err(ProcessError::NotFound),
        }
    }
}

} // verus!
