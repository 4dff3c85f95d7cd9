//! ArgumentParser: turns an owned sequence of text tokens into the
//! fixed-shape record of recognized startup flags.
//!
//! The token sequence is treated as a process-style argument list: token 0 is
//! conventionally the program name and is never read as a flag. Exactly two
//! boolean flags are recognized, each in a short and a long form; every other
//! token is deliberately ignored (permissive superset parsing: the parser
//! extracts known flags, it does not validate the full command line).

use vstd::prelude::*;

verus! {

/// The validated, immutable record of recognized startup flags.
#[derive(Clone, Copy, Debug, PartialEq, Eq, Structural)]
pub struct Args {
    /// Start the engine in dedicated server mode.
    pub server: bool,
    /// Display version and copyright info instead of running.
    pub version: bool,
}

/// The token requests dedicated server mode (short or long form).
pub open spec fn is_server_flag(t: Seq<char>) -> bool {
    t == "-s"@ || t == "--server"@
}

/// The token requests the version/copyright display (short or long form).
pub open spec fn is_version_flag(t: Seq<char>) -> bool {
    t == "-v"@ || t == "--version"@
}

/// What parsing a token list yields: a flag field is set exactly when some
/// token after the program name spells that flag; both default to false.
pub open spec fn spec_parse(tokens: Seq<String>) -> Args {
    Args {
        server: exists|i: int| 1 <= i < tokens.len() && is_server_flag(tokens[i]@),
        version: exists|i: int| 1 <= i < tokens.len() && is_version_flag(tokens[i]@),
    }
}

/// Extract the recognized flags from a process-style argument list.
/// Parsing is pure: unrecognized tokens are ignored, absent flags default to
/// false, and token 0 (the program name) is never interpreted as a flag.
pub fn parse_args(tokens: &Vec<String>) -> (r: Args)
    ensures
        r == spec_parse(tokens@),
{
    let server_short = String::from_str("-s");
    let server_long = String::from_str("--server");
    let version_short = String::from_str("-v");
    let version_long = String::from_str("--version");
    let mut server = false;
    let mut version = false;
    let mut i: usize = 1;
    while i < tokens.len()
        invariant
            1 <= i,
            tokens.len() >= 1 ==> i <= tokens.len(),
            tokens.len() == 0 ==> i == 1,
            server_short@ == "-s"@,
            server_long@ == "--server"@,
            version_short@ == "-v"@,
            version_long@ == "--version"@,
            server == exists|j: int| 1 <= j < i && is_server_flag(tokens@[j]@),
            version == exists|j: int| 1 <= j < i && is_version_flag(tokens@[j]@),
        decreases tokens.len() - i,
    {
        let t = &tokens[i];
        if *t == server_short || *t == server_long {
            server = true;
        }
        if *t == version_short || *t == version_long {
            version = true;
        }
        i = i + 1;
    }
    Args { server, version }
}

} // verus!
