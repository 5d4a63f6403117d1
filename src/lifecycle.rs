//! Laws of the server lifecycle, stated over the process table's model: what
//! a sequence of starts, stops and log requests answers.

use vstd::prelude::*;

use crate::error::ProcessError;
use crate::table::{
    abandoned, drained, is_running, launched, logs_check, reserved, start_check, stop_check,
    stopped, table_wf, Server, ServerState,
};

verus! {

/// A server that was never started cannot be stopped (`NotStarted`) and has
/// no logs (`NotFound`).
pub proof fn lemma_unstarted_server<H, O>(m: Map<u128, Server<H, O>>, id: u128)
    requires
        !m.contains_key(id),
    ensures
        stop_check(m, id) == Err::<(), ProcessError>(ProcessError::NotStarted),
        logs_check(m, id) == Err::<(), ProcessError>(ProcessError::NotFound),
{
}

/// Once a start of a server succeeded, a second start is refused with
/// `AlreadyRunning`, and the table still holds the first launch's process.
pub proof fn lemma_start_while_running<H, O>(
    m: Map<u128, Server<H, O>>,
    id: u128,
    process: H,
    output: O,
)
    requires
        start_check(m, id) is Ok,
    ensures
        ({
            let running = launched(reserved(m, id), id, process, output);
            &&& start_check(running, id) == Err::<(), ProcessError>(ProcessError::AlreadyRunning)
            &&& running[id].process == Some(process)
        }),
{
}

/// Start, stop, stop: the second stop is refused with `AlreadyStopped`.
pub proof fn lemma_stop_twice<H, O>(m: Map<u128, Server<H, O>>, id: u128, process: H, output: O)
    requires
        start_check(m, id) is Ok,
    ensures
        ({
            let running = launched(reserved(m, id), id, process, output);
            &&& stop_check(running, id) is Ok
            &&& stop_check(stopped(running, id), id) == Err::<(), ProcessError>(
                ProcessError::AlreadyStopped,
            )
        }),
{
}

/// Start, stop, start: the second start is accepted and the server runs again
/// with the new process.
pub proof fn lemma_restart_after_stop<H, O>(
    m: Map<u128, Server<H, O>>,
    id: u128,
    first: H,
    first_output: O,
    second: H,
    second_output: O,
)
    requires
        start_check(m, id) is Ok,
    ensures
        ({
            let halted = stopped(launched(reserved(m, id), id, first, first_output), id);
            let again = launched(reserved(halted, id), id, second, second_output);
            &&& start_check(halted, id) is Ok
            &&& is_running(again, id)
            &&& again[id].process == Some(second)
        }),
{
}

/// While a start of a server is under way every other start of it is refused
/// with `AlreadyStarting`: of concurrent starts of one server, serialized by
/// the table's lock, exactly one launches a process, and the server ends with
/// one running entry.
pub proof fn lemma_one_start_at_a_time<H, O>(
    m: Map<u128, Server<H, O>>,
    id: u128,
    process: H,
    output: O,
)
    requires
        start_check(m, id) is Ok,
    ensures
        start_check(reserved(m, id), id) == Err::<(), ProcessError>(ProcessError::AlreadyStarting),
        is_running(launched(reserved(m, id), id, process, output), id),
{
}

/// A start whose launch failed leaves the table exactly as it was before the
/// start: no entry for a server that had none, the same tombstone for a
/// stopped one.
pub proof fn lemma_failed_start_changes_nothing<H, O>(m: Map<u128, Server<H, O>>, id: u128)
    requires
        table_wf(m),
        start_check(m, id) is Ok,
    ensures
        abandoned(reserved(m, id), id) == m,
{
    if m.contains_key(id) {
        assert(m[id].wf(id));
        assert(m[id].state == ServerState::Stopped);
        assert(abandoned(reserved(m, id), id) =~= m);
    } else {
        assert(abandoned(reserved(m, id), id) =~= m);
    }
}

/// The logs of a server are the output of its latest launch.
pub proof fn lemma_logs_of_latest_launch<H, O>(
    m: Map<u128, Server<H, O>>,
    id: u128,
    process: H,
    output: O,
)
    ensures
        logs_check(launched(m, id, process, output), id) is Ok,
        launched(m, id, process, output)[id].output == Some(output),
{
}

/// Taking a server's logs does not change whether and how it can be stopped.
pub proof fn lemma_logs_keep_process<H, O>(m: Map<u128, Server<H, O>>, id: u128)
    requires
        logs_check(m, id) is Ok,
    ensures
        stop_check(drained(m, id), id) == stop_check(m, id),
        drained(m, id)[id].process == m[id].process,
{
}

} // verus!
