//! The client of the container runtime: which arguments each operation
//! hands to the runtime, and what the runtime's report means.
use vstd::prelude::*;

use crate::config::Config;
use crate::naming::{generate_random_name, is_container_name};

verus! {

/// The two operations that the client asks of the runtime.
#[derive(PartialEq, Eq, Structural, Clone, Copy, Debug)]
pub enum Operation {
    /// Fetch the image.
    Pull,
    /// Launch the image as a detached, auto-removing container.
    Run,
}

/// What a finished runtime process reported.
#[derive(Debug)]
pub struct ExecutionResult {
    /// Whether the exit status indicated success.
    pub success: bool,
    /// The captured standard-error text.
    pub stderr: String,
}

/// Why an operation failed.
#[derive(Debug)]
pub enum RuntimeError {
    /// The runtime process could not be started; holds the cause.
    LaunchFailed(String),
    /// The runtime ran the pull and reported failure; holds its stderr.
    PullFailed(String),
    /// The runtime ran the container and reported failure; holds its stderr.
    RunFailed(String),
}

impl RuntimeError {
    /// The human-readable text of the error.
    pub open spec fn text(&self) -> Seq<char> {
        match self {
            RuntimeError::LaunchFailed(cause) => "Failed to execute docker command: "@ + cause@,
            RuntimeError::PullFailed(stderr) => "Docker pull failed: "@ + stderr@,
            RuntimeError::RunFailed(stderr) => "Docker run failed: "@ + stderr@,
        }
    }

    /// Renders the error as the text shown to the operator.
    pub fn message(&self) -> (r: String)
        ensures
            r@ == self.text(),
    {
        match self {
            RuntimeError::LaunchFailed(cause) => {
                String::from_str("Failed to execute docker command: ").concat(cause.as_str())
            },
            RuntimeError::PullFailed(stderr) => {
                String::from_str("Docker pull failed: ").concat(stderr.as_str())
            },
            RuntimeError::RunFailed(stderr) => {
                String::from_str("Docker run failed: ").concat(stderr.as_str())
            },
        }
    }
}

/// The name of the runtime executable.
pub open spec fn runtime_program() -> Seq<char> {
    "docker"@
}

/// The name of the runtime executable that the arguments are handed to.
pub fn runtime_program_name() -> (r: String)
    ensures
        r@ == runtime_program(),
{
    String::from_str("docker")
}

/// The views of a sequence of strings.
pub open spec fn views(v: Seq<String>) -> Seq<Seq<char>> {
    v.map_values(|s: String| s@)
}

/// Maps the runtime's report on `op` to the operation's result: success
/// exactly when the process started and exited successfully; otherwise the
/// launch cause, or the captured stderr under the operation's own error.
pub fn outcome(op: Operation, launched: Result<ExecutionResult, String>) -> (r: Result<
    (),
    RuntimeError,
>)
    ensures
        r is Ok <==> (launched matches Ok(ex) && ex.success),
        launched matches Err(cause) ==> r == Err::<(), RuntimeError>(
            RuntimeError::LaunchFailed(cause),
        ),
        launched matches Ok(ex) ==> (!ex.success && op == Operation::Pull ==> r == Err::<
            (),
            RuntimeError,
        >(RuntimeError::PullFailed(ex.stderr))),
        launched matches Ok(ex) ==> (!ex.success && op == Operation::Run ==> r == Err::<
            (),
            RuntimeError,
        >(RuntimeError::RunFailed(ex.stderr))),
{
    match launched {
        Err(cause) => Err(RuntimeError::LaunchFailed(cause)),
        Ok(ex) => {
            if ex.success {
                Ok(())
            } else {
                match op {
                    Operation::Pull => Err(RuntimeError::PullFailed(ex.stderr)),
                    Operation::Run => Err(RuntimeError::RunFailed(ex.stderr)),
                }
            }
        },
    }
}

/// A client bound to one image and one generated container name.
#[derive(Debug)]
pub struct Docker {
    /// The name given to a container that `Run` launches.
    pub name: String,
    /// The configuration holding the image reference.
    pub config: Config,
}

impl Docker {
    /// Binds the configuration to a freshly generated container name.
    pub fn new(config: Config) -> (r: Docker)
        ensures
            r.config == config,
            is_container_name(r.name@),
    {
        let name = generate_random_name();
        Docker { name, config }
    }

    /// The arguments that ask the runtime to fetch the image:
    /// `pull <image>`.
    pub fn pull_args(&self) -> (r: Vec<String>)
        ensures
            r@.len() == 2,
            views(r@) == seq!["pull"@, self.config.docker_image@],
    {
        let mut r: Vec<String> = Vec::new();
        r.push(String::from_str("pull"));
        r.push(self.config.docker_image.clone());
        proof {
            assert(views(r@) =~= seq!["pull"@, self.config.docker_image@]);
        }
        r
    }

    /// The arguments that ask the runtime to launch the image as a detached,
    /// auto-removing container with a terminal, under the client's name:
    /// `run --name <name> -d -ti --rm <image>`.
    pub fn run_args(&self) -> (r: Vec<String>)
        ensures
            r@.len() == 7,
            views(r@) == seq![
                "run"@,
                "--name"@,
                self.name@,
                "-d"@,
                "-ti"@,
                "--rm"@,
                self.config.docker_image@,
            ],
    {
        let mut r: Vec<String> = Vec::new();
        r.push(String::from_str("run"));
        r.push(String::from_str("--name"));
        r.push(self.name.clone());
        r.push(String::from_str("-d"));
        r.push(String::from_str("-ti"));
        r.push(String::from_str("--rm"));
        r.push(self.config.docker_image.clone());
        proof {
            assert(views(r@) =~= seq![
                "run"@,
                "--name"@,
                self.name@,
                "-d"@,
                "-ti"@,
                "--rm"@,
                self.config.docker_image@,
            ]);
        }
        r
    }
}

} // verus!
