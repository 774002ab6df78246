//! Platform resolution: the pure mapping from the running operating
//! system's identity to the ordered list of candidate executables and
//! their argument templates. The order encodes fallback priority.

use vstd::prelude::*;

verus! {

/// Identity of the running operating system class. The caller reads it
/// once at process start and treats it as immutable for the process
/// lifetime.
#[derive(Clone, Copy, PartialEq, Eq, Structural, Debug)]
pub enum OsId {
    Windows,
    UnixLike,
}

/// One way to trace a route on the current platform: an executable name
/// together with its argument list. Constructed once per invocation;
/// never mutated.
pub struct CommandCandidate {
    pub executable: String,
    pub args: Vec<String>,
}

/// Mathematical image of a candidate: plain character sequences.
#[verifier::ext_equal]
pub struct CandidateModel {
    pub executable: Seq<char>,
    pub args: Seq<Seq<char>>,
}

impl View for CommandCandidate {
    type V = CandidateModel;

    open spec fn view(&self) -> CandidateModel {
        CandidateModel {
            executable: self.executable@,
            args: self.args@.map_values(|a: String| a@),
        }
    }
}

/// The models of a whole candidate list.
pub open spec fn model_of(cs: Seq<CommandCandidate>) -> Seq<CandidateModel> {
    cs.map_values(|c: CommandCandidate| c@)
}

/// The candidate list for a Windows-class system: exactly one entry,
/// `tracert -d <target>` (`-d` suppresses reverse-DNS lookup).
pub open spec fn windows_candidates(target: Seq<char>) -> Seq<CandidateModel> {
    seq![
        CandidateModel { executable: "tracert"@, args: seq!["-d"@, target] },
    ]
}

/// The candidate list for a Unix-like system, in fallback priority
/// order: `traceroute <target>`, then `tracepath <target>`.
pub open spec fn unix_candidates(target: Seq<char>) -> Seq<CandidateModel> {
    seq![
        CandidateModel { executable: "traceroute"@, args: seq![target] },
        CandidateModel { executable: "tracepath"@, args: seq![target] },
    ]
}

/// The ordered candidate list for the given operating system.
pub open spec fn candidates_spec(os: OsId, target: Seq<char>) -> Seq<CandidateModel> {
    match os {
        OsId::Windows => windows_candidates(target),
        OsId::UnixLike => unix_candidates(target),
    }
}

/// Builds the executable candidate list whose models are exactly
/// [`candidates_spec`].
pub fn candidates_for(os: OsId, target: &str) -> (r: Vec<CommandCandidate>)
    ensures
        model_of(r@) == candidates_spec(os, target@),
{
    let mut r: Vec<CommandCandidate> = Vec::new();
    match os {
        OsId::Windows => {
            let mut args: Vec<String> = Vec::new();
            args.push(String::from_str("-d"));
            args.push(String::from_str(target));
            r.push(CommandCandidate { executable: String::from_str("tracert"), args });
            proof {
                assert(model_of(r@) =~~= windows_candidates(target@));
            }
        },
        OsId::UnixLike => {
            let mut args1: Vec<String> = Vec::new();
            args1.push(String::from_str(target));
            r.push(CommandCandidate { executable: String::from_str("traceroute"), args: args1 });
            let mut args2: Vec<String> = Vec::new();
            args2.push(String::from_str(target));
            r.push(CommandCandidate { executable: String::from_str("tracepath"), args: args2 });
            proof {
                assert(model_of(r@) =~~= unix_candidates(target@));
            }
        },
    }
    r
}

} // verus!
