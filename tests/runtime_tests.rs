use docker_launch::{
    outcome, runtime_program_name, Config, Docker, ExecutionResult, Operation, RuntimeError,
};

fn docker_for(image: &str) -> Docker {
    Docker {
        name: String::from("container_abcdefghij"),
        config: Config {
            docker_image: String::from(image),
        },
    }
}

fn finished(success: bool, stderr: &str) -> Result<ExecutionResult, String> {
    Ok(ExecutionResult {
        success,
        stderr: String::from(stderr),
    })
}

#[test]
fn program_name_is_docker() {
    assert_eq!(runtime_program_name(), "docker");
}

#[test]
fn pull_args_name_the_image() {
    assert_eq!(docker_for("hello-world").pull_args(), vec!["pull", "hello-world"]);
}

#[test]
fn run_args_launch_detached_and_auto_removed() {
    assert_eq!(
        docker_for("alpine").run_args(),
        vec!["run", "--name", "container_abcdefghij", "-d", "-ti", "--rm", "alpine"]
    );
}

#[test]
fn successful_pull_is_ok() {
    assert!(outcome(Operation::Pull, finished(true, "")).is_ok());
}

#[test]
fn successful_run_is_ok_whatever_stderr_holds() {
    assert!(outcome(Operation::Run, finished(true, "a warning")).is_ok());
}

#[test]
fn failed_pull_keeps_stderr() {
    let stderr = "Error response from daemon: pull access denied for non_existent_image";
    match outcome(Operation::Pull, finished(false, stderr)) {
        Err(RuntimeError::PullFailed(text)) => assert_eq!(text, stderr),
        _ => panic!("expected a pull failure"),
    }
}

#[test]
fn failed_run_keeps_stderr() {
    match outcome(Operation::Run, finished(false, "Unable to find image")) {
        Err(RuntimeError::RunFailed(text)) => assert_eq!(text, "Unable to find image"),
        _ => panic!("expected a run failure"),
    }
}

#[test]
fn launch_failure_is_reported_for_either_operation() {
    for op in [Operation::Pull, Operation::Run] {
        match outcome(op, Err(String::from("No such file or directory (os error 2)"))) {
            Err(RuntimeError::LaunchFailed(cause)) => {
                assert_eq!(cause, "No such file or directory (os error 2)")
            }
            _ => panic!("expected a launch failure"),
        }
    }
}

#[test]
fn same_report_gives_same_outcome_twice() {
    assert!(outcome(Operation::Pull, finished(true, "")).is_ok());
    assert!(outcome(Operation::Pull, finished(true, "")).is_ok());
}

#[test]
fn messages_name_the_failure() {
    assert_eq!(
        RuntimeError::LaunchFailed(String::from("denied")).message(),
        "Failed to execute docker command: denied"
    );
    assert_eq!(
        RuntimeError::PullFailed(String::from("no such image")).message(),
        "Docker pull failed: no such image"
    );
    assert_eq!(
        RuntimeError::RunFailed(String::from("bad flag")).message(),
        "Docker run failed: bad flag"
    );
}
