use harm::error::{LaunchError, ProcessError};
use harm::manager::ProcessManager;

const EXE: &str = "/srv/reforger/ArmaReforgerServer";
const ID: u128 = 0x67e5_5044_10b1_426f_9247_bb68_0e5f_e0c8;

fn manager() -> ProcessManager<u32, &'static str> {
    ProcessManager::new(EXE.to_string())
}

#[test]
fn unstarted_server_cannot_be_stopped_or_read() {
    let mut m = manager();
    assert_eq!(m.stop_server(ID), Err(ProcessError::NotStarted));
    assert_eq!(m.get_logs(ID), Err(ProcessError::NotFound));
    assert_eq!(m.stop_server(0), Err(ProcessError::NotStarted));
    assert_eq!(m.get_logs(u128::MAX), Err(ProcessError::NotFound));
    assert!(!m.is_running(ID));
}

#[test]
fn start_builds_launch_plan() {
    let mut m = manager();
    let plan = m.start_server(ID).unwrap();
    assert_eq!(plan.paths.executable, EXE);
    assert_eq!(plan.paths.working_dir, "/srv/reforger");
    assert_eq!(
        plan.paths.config_file,
        "/srv/reforger/67e55044-10b1-426f-9247-bb680e5fe0c8.json"
    );
    assert_eq!(
        plan.args,
        vec![
            "-maxFPS".to_string(),
            "60".to_string(),
            "-config".to_string(),
            "/srv/reforger/67e55044-10b1-426f-9247-bb680e5fe0c8.json".to_string(),
        ]
    );
    assert!(m.is_starting(ID));
    assert!(!m.is_running(ID));
}

#[test]
fn second_start_while_running_is_refused() {
    let mut m = manager();
    m.start_server(ID).unwrap();
    assert_eq!(m.finish_start(ID, Ok((11, "first"))), Ok(()));
    assert!(m.is_running(ID));
    assert_eq!(m.start_server(ID).err(), Some(ProcessError::AlreadyRunning));
    assert!(m.is_running(ID));
    assert_eq!(m.stop_server(ID), Ok(11));
}

#[test]
fn stop_twice_reports_already_stopped() {
    let mut m = manager();
    m.start_server(ID).unwrap();
    m.finish_start(ID, Ok((5, "out"))).unwrap();
    assert_eq!(m.stop_server(ID), Ok(5));
    assert!(!m.is_running(ID));
    assert_eq!(m.stop_server(ID), Err(ProcessError::AlreadyStopped));
}

#[test]
fn restart_after_stop_runs_again() {
    let mut m = manager();
    m.start_server(ID).unwrap();
    m.finish_start(ID, Ok((1, "one"))).unwrap();
    assert_eq!(m.stop_server(ID), Ok(1));
    assert!(m.start_server(ID).is_ok());
    assert_eq!(m.finish_start(ID, Ok((2, "two"))), Ok(()));
    assert!(m.is_running(ID));
    assert_eq!(m.stop_server(ID), Ok(2));
}

#[test]
fn start_under_way_blocks_other_starts() {
    let mut m = manager();
    assert!(m.start_server(ID).is_ok());
    assert_eq!(m.start_server(ID).err(), Some(ProcessError::AlreadyStarting));
    assert_eq!(m.start_server(ID).err(), Some(ProcessError::AlreadyStarting));
    m.finish_start(ID, Ok((9, "log"))).unwrap();
    assert_eq!(m.start_server(ID).err(), Some(ProcessError::AlreadyRunning));
    assert_eq!(m.stop_server(ID), Ok(9));
}

#[test]
fn placeholder_of_first_start_is_not_a_server() {
    let mut m = manager();
    m.start_server(ID).unwrap();
    assert_eq!(m.stop_server(ID), Err(ProcessError::NotStarted));
    assert_eq!(m.get_logs(ID), Err(ProcessError::NotFound));
}

#[test]
fn failed_first_start_registers_nothing() {
    let mut m = manager();
    m.start_server(ID).unwrap();
    assert_eq!(
        m.finish_start(ID, Err(LaunchError::ConfigWrite)),
        Err(ProcessError::ConfigWriteFailed)
    );
    assert!(!m.is_starting(ID));
    assert_eq!(m.stop_server(ID), Err(ProcessError::NotStarted));
    assert_eq!(m.get_logs(ID), Err(ProcessError::NotFound));
    assert!(m.start_server(ID).is_ok());
}

#[test]
fn failed_restart_keeps_tombstone() {
    let mut m = manager();
    m.start_server(ID).unwrap();
    m.finish_start(ID, Ok((3, "kept"))).unwrap();
    m.stop_server(ID).unwrap();
    m.start_server(ID).unwrap();
    assert_eq!(
        m.finish_start(ID, Err(LaunchError::Spawn)),
        Err(ProcessError::SpawnFailed)
    );
    assert_eq!(m.stop_server(ID), Err(ProcessError::AlreadyStopped));
    assert_eq!(m.get_logs(ID), Ok(Some("kept")));
}

#[test]
fn logs_are_the_latest_output_and_handed_out_once() {
    let mut m = manager();
    m.start_server(ID).unwrap();
    m.finish_start(ID, Ok((4, "hello from the server\n"))).unwrap();
    assert_eq!(m.get_logs(ID), Ok(Some("hello from the server\n")));
    assert_eq!(m.get_logs(ID), Ok(None));
    assert_eq!(m.stop_server(ID), Ok(4));
    assert_eq!(m.get_logs(ID), Ok(None));
}

#[test]
fn servers_are_independent() {
    let mut m = manager();
    m.start_server(1).unwrap();
    m.finish_start(1, Ok((10, "a"))).unwrap();
    m.start_server(2).unwrap();
    m.finish_start(2, Ok((20, "b"))).unwrap();
    assert_eq!(m.stop_server(1), Ok(10));
    assert!(m.is_running(2));
    assert_eq!(m.get_logs(2), Ok(Some("b")));
}

#[test]
fn executable_without_directory_is_refused() {
    let mut m: ProcessManager<u32, &'static str> = ProcessManager::new("/".to_string());
    assert_eq!(m.start_server(ID).err(), Some(ProcessError::InvalidExecutablePath));
    assert!(!m.is_starting(ID));
    assert_eq!(m.get_paths(ID).err(), Some(ProcessError::InvalidExecutablePath));
    assert_eq!(m.stop_server(ID), Err(ProcessError::NotStarted));
}

#[test]
fn running_check_comes_before_path_check() {
    let mut m = manager();
    m.start_server(ID).unwrap();
    assert_eq!(m.start_server(ID).err(), Some(ProcessError::AlreadyStarting));
    assert_eq!(m.arma_reforger_path(), EXE);
}
