//! The command line: one argument, the path of the event device.

use vstd::prelude::*;
use vstd::string::*;

verus! {

/// What the command line asks for.
#[derive(Clone, Debug, PartialEq, Eq)]
pub struct Config {
    /// Path of the event device to read.
    pub devpath: String,
}

impl Default for Config {
    fn default() -> (c: Config)
        ensures
            c.devpath@ == Seq::<char>::empty(),
    {
        Config { devpath: String::new() }
    }
}

/// Reads the configuration from the arguments as the program received them,
/// its own name first. There must be exactly one argument after the name.
pub fn parse_args(args: &Vec<String>) -> (config: Option<Config>)
    ensures
        config is Some <==> args@.len() == 2,
        config matches Some(c) ==> c.devpath@ == args@[1]@,
{
    if args.len() != 2 {
        return None;
    }
    let mut config = Config::default();
    config.devpath = args[1].clone();
    Some(config)
}

/// The usage line for a program called `progname`.
pub fn usage(progname: &str) -> (line: String)
    ensures
        line@ == "Usage: "@ + progname@ + " <event device path>"@,
{
    let mut line = String::from_str("Usage: ");
    line.append(progname);
    line.append(" <event device path>");
    line
}

} // verus!
