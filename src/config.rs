//! The invocation's configuration, parsed from the process arguments.
use vstd::prelude::*;

verus! {

/// What `Config::new` reports when the image reference is missing.
pub open spec fn not_enough_arguments() -> Seq<char> {
    "not enough arguments"@
}

/// The validated configuration of one invocation.
#[derive(Debug)]
pub struct Config {
    /// The image reference, exactly as given on the command line.
    pub docker_image: String,
}

impl Config {
    /// Parses the full argument list, where element 0 is the program name
    /// and element 1 the image reference. Fails when the reference is
    /// missing; the reference is otherwise taken as it stands.
    pub fn new(args: &[String]) -> (r: Result<Config, &'static str>)
        ensures
            r is Err <==> args@.len() < 2,
            r matches Ok(c) ==> c.docker_image@ == args@[1]@,
            r matches Err(e) ==> e@ == not_enough_arguments(),
    {
        if args.len() < 2 {
            return Err("not enough arguments");
        }
        let docker_image = args[1].clone();
        Ok(Config { docker_image })
    }
}

} // verus!
