//! What one invocation of the program does, from its options.
use vstd::prelude::*;

verus! {

/// The work that one invocation performs.
pub enum Mode {
    /// Walk the working directory and take every regular file through the
    /// pipeline.
    Batch,
    /// Have the helper rename `source` to `dest`, and nothing else.
    DirectRename { source: String, dest: String },
    /// Serve as the rename helper: rename `source` to `dest` in this process.
    Helper { source: String, dest: String },
}

/// Options that do not make up an invocation.
#[derive(Debug, PartialEq, Eq, Structural)]
pub enum UsageError {
    /// The rename flag was given without both a source and a destination path.
    MissingPaths,
}

/// The mode for the rename flag and the source and destination options (an
/// option not given is empty). With the flag, both paths are needed. Without
/// it, two paths make this process the helper, and anything else is a batch.
pub fn choose_mode(rename: bool, source: &str, dest: &str) -> (r: Result<Mode, UsageError>)
    ensures
        rename && (source@.len() == 0 || dest@.len() == 0) ==> r == Err::<Mode, UsageError>(
            UsageError::MissingPaths,
        ),
        rename && source@.len() > 0 && dest@.len() > 0 ==> (r matches Ok(
            Mode::DirectRename { source: s, dest: d },
        ) && s@ == source@ && d@ == dest@),
        !rename && source@.len() > 0 && dest@.len() > 0 ==> (r matches Ok(
            Mode::Helper { source: s, dest: d },
        ) && s@ == source@ && d@ == dest@),
        !rename && (source@.len() == 0 || dest@.len() == 0) ==> r matches Ok(Mode::Batch),
{
    let both = source.unicode_len() > 0 && dest.unicode_len() > 0;
    if rename {
        if both {
            Ok(Mode::DirectRename { source: String::from_str(source), dest: String::from_str(dest) })
        } else {
            Err(UsageError::MissingPaths)
        }
    } else if both {
        Ok(Mode::Helper { source: String::from_str(source), dest: String::from_str(dest) })
    } else {
        Ok(Mode::Batch)
    }
}

} // verus!
