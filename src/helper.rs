//! The protocol with the rename helper process: what it is asked, and how its
//! outcome is read.
use vstd::prelude::*;

verus! {

/// How one run of the helper process ended, as its caller observed it.
pub enum HelperOutcome {
    /// The process ran and exited; `success` is whether its exit status was the
    /// conventional success code. Both output streams are captured in full.
    Exited { success: bool, stdout: String, stderr: String },
    /// The process could not be started at all.
    SpawnFailed { cause: String },
}

/// Why a delegated rename failed.
pub enum RenameError {
    /// The helper ran and reported failure; its standard error, verbatim.
    HelperFailed { stderr: String },
    /// The helper could not be started; the underlying cause.
    SpawnFailed { cause: String },
}

impl RenameError {
    /// The text that the failure carries: the helper's standard error, or the
    /// cause of the spawn failure.
    pub fn detail(&self) -> (r: &String)
        ensures
            r@ == match self {
                RenameError::HelperFailed { stderr } => stderr@,
                RenameError::SpawnFailed { cause } => cause@,
            },
    {
        match self {
            RenameError::HelperFailed { stderr } => stderr,
            RenameError::SpawnFailed { cause } => cause,
        }
    }

    /// Whether the helper ran at all (as opposed to not being started).
    pub fn helper_ran(&self) -> (r: bool)
        ensures
            r == (self is HelperFailed),
    {
        match self {
            RenameError::HelperFailed { .. } => true,
            RenameError::SpawnFailed { .. } => false,
        }
    }
}

pub open spec fn source_flag() -> Seq<char> {
    seq!['-', 's']
}

pub open spec fn dest_flag() -> Seq<char> {
    seq!['-', 'd']
}

/// The command-line arguments that ask the helper to rename `source` to `dest`:
/// `-s <source> -d <dest>`.
pub fn helper_args(source: &str, dest: &str) -> (r: Vec<String>)
    ensures
        r@.len() == 4,
        r@[0]@ == source_flag(),
        r@[1]@ == source@,
        r@[2]@ == dest_flag(),
        r@[3]@ == dest@,
{
    let s_flag = "-s";
    let d_flag = "-d";
    proof {
        reveal_strlit("-s");
        reveal_strlit("-d");
    }
    assert(s_flag@ =~= source_flag());
    assert(d_flag@ =~= dest_flag());
    let mut r: Vec<String> = Vec::new();
    r.push(String::from_str(s_flag));
    r.push(String::from_str(source));
    r.push(String::from_str(d_flag));
    r.push(String::from_str(dest));
    r
}

/// Reads the outcome of one helper run. Success is decided by the exit status
/// alone, whatever the streams hold. On success the result is the standard
/// output when there is any (to be reported, never interpreted). A failing exit
/// status gives `HelperFailed` with the standard error verbatim; a process that
/// could not be started gives `SpawnFailed` with its cause.
pub fn interpret_outcome(outcome: HelperOutcome) -> (r: Result<Option<String>, RenameError>)
    ensures
        match outcome {
            HelperOutcome::Exited { success, stdout, stderr } => if success {
                if stdout@.len() == 0 {
                    r == Ok::<Option<String>, RenameError>(None)
                } else {
                    r matches Ok(Some(out)) && out@ == stdout@
                }
            } else {
                r matches Err(RenameError::HelperFailed { stderr: e }) && e@ == stderr@
            },
            HelperOutcome::SpawnFailed { cause } => r matches Err(RenameError::SpawnFailed {
                cause: c,
            }) && c@ == cause@,
        },
{
    match outcome {
        HelperOutcome::Exited { success, stdout, stderr } => {
            if !success {
                Err(RenameError::HelperFailed { stderr })
            } else if stdout.unicode_len() == 0 {
                Ok(None)
            } else {
                Ok(Some(stdout))
            }
        },
        HelperOutcome::SpawnFailed { cause } => Err(RenameError::SpawnFailed { cause }),
    }
}

} // verus!
