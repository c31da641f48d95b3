//! Talking to the served project: where to probe it, how to read the answer,
//! and how to find the processes that hold its port.

use crate::text::{decimal, decimal_string, lines, lines_of, views};
use vstd::prelude::*;

verus! {

/// The status code of a healthy answer.
pub const HTTP_OK: u16 = 200;

/// What a single GET request to the served project gave.
#[derive(Debug, Clone, Copy, PartialEq, Eq, Structural)]
pub enum ProbeOutcome {
    /// The request could not be sent or got no answer.
    Unreachable,
    /// The server answered with this status code.
    Answered(u16),
}

impl ProbeOutcome {
    /// Whether the project answered and said it is well.
    pub open spec fn healthy(self) -> bool {
        self == ProbeOutcome::Answered(HTTP_OK)
    }

    /// Tells whether the project answered and said it is well.
    pub fn is_healthy(&self) -> (well: bool)
        ensures
            well == self.healthy(),
    {
        match self {
            ProbeOutcome::Unreachable => false,
            ProbeOutcome::Answered(status) => *status == HTTP_OK,
        }
    }
}

/// The address a project served on `port` answers at.
pub open spec fn local_address(port: u16) -> Seq<char> {
    "http://localhost:"@ + decimal(port as nat)
}

/// The address to probe for a project served on `port`.
pub fn probe_url(port: u16) -> (url: String)
    ensures
        url@ == local_address(port),
{
    String::from_str("http://localhost:").concat(decimal_string(port).as_str())
}

/// The arguments that make `lsof` print the ids of the processes that hold
/// `port`, one per line.
pub open spec fn port_query(port: u16) -> Seq<Seq<char>> {
    seq!["-t"@, "-i:"@ + decimal(port as nat)]
}

/// Builds the arguments of the `lsof` call that lists who holds `port`.
pub fn lsof_args(port: u16) -> (args: Vec<String>)
    ensures
        views(args@) == port_query(port),
{
    let mut args: Vec<String> = Vec::new();
    args.push("-t".to_owned());
    args.push(String::from_str("-i:").concat(decimal_string(port).as_str()));
    assert(views(args@) =~= port_query(port));
    args
}

/// Reads the process ids off the output of that `lsof` call: one per line,
/// in the order listed. No output means no process.
pub fn pids_on_port(lsof_output: &str) -> (pids: Vec<String>)
    ensures
        views(pids@) == lines(lsof_output@),
{
    lines_of(lsof_output)
}

} // verus!
