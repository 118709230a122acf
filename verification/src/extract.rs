//! Extractor decisions: which archive entry is the binary, where the binary
//! landed after an external unpack, and the replacement policy for a
//! destination file that may still be locked by a just-stopped process —
//! rename it aside first, and only if the rename itself fails fall back to
//! a bounded retry loop of delete attempts before surfacing a clear
//! file-lock error.

use crate::platform::Os;
use crate::types::OpencodeError;
use vstd::prelude::*;
use vstd::string::StrSliceExecFns;
use vstd::string::StringExecFns;

verus! {

/// Whether `s` ends with `suffix`.
pub open spec fn spec_ends_with(s: Seq<char>, suffix: Seq<char>) -> bool {
    s.len() >= suffix.len() && s.subrange(s.len() - suffix.len(), s.len() as int) == suffix
}

/// Decide [`spec_ends_with`].
pub fn ends_with_str(s: &str, suffix: &str) -> (r: bool)
    ensures
        r == spec_ends_with(s@, suffix@),
{
    let n = s.unicode_len();
    let m = suffix.unicode_len();
    if n < m {
        return false;
    }
    let mut i: usize = 0;
    while i < m
        invariant
            n == s@.len(),
            m == suffix@.len(),
            m <= n,
            0 <= i <= m,
            forall|k: int| 0 <= k < i ==> s@[n - m + k] == #[trigger] suffix@[k],
        decreases m - i,
    {
        if !(s.get_char(n - m + i) == suffix.get_char(i)) {
            proof {
                assert(s@.subrange(n - m, n as int)[i as int] != suffix@[i as int]);
            }
            return false;
        }
        i = i + 1;
    }
    proof {
        assert(s@.subrange(n - m, n as int) =~= suffix@);
    }
    true
}

/// Index of the first archive entry whose name ends with the expected
/// executable name; unrelated archive contents are discarded.
pub fn find_binary_entry(names: &Vec<String>, binary_name: &str) -> (r: Option<usize>)
    ensures
        r matches Some(idx) ==> 0 <= idx < names@.len() && spec_ends_with(
            names@[idx as int]@,
            binary_name@,
        ) && forall|k: int| 0 <= k < idx ==> !spec_ends_with(#[trigger] names@[k]@, binary_name@),
        r is None ==> forall|k: int|
            0 <= k < names@.len() ==> !spec_ends_with(#[trigger] names@[k]@, binary_name@),
{
    let mut i: usize = 0;
    while i < names.len()
        invariant
            0 <= i <= names@.len(),
            forall|k: int| 0 <= k < i ==> !spec_ends_with(#[trigger] names@[k]@, binary_name@),
        decreases names@.len() - i,
    {
        if ends_with_str(names[i].as_str(), binary_name) {
            return Some(i);
        }
        i = i + 1;
    }
    None
}

/// The error surfaced when no entry of the archive holds the binary.
pub fn missing_entry_error(binary_name: &str) -> (r: OpencodeError)
    ensures
        r matches OpencodeError::ExtractError { message } && message@ == "Binary '"@
            + binary_name@ + "' not found in archive"@,
{
    let mut message = String::from_str("Binary '");
    message.append(binary_name);
    message.append("' not found in archive");
    OpencodeError::ExtractError { message }
}

/// What a directory listing shows after an external unpack: an entry name,
/// whether it is a directory, and whether the binary stands inside it.
#[derive(Debug, Clone, PartialEq, Eq)]
pub struct TarEntry {
    pub name: String,
    pub is_dir: bool,
    pub contains_binary: bool,
}

/// Whether a listing entry yields the binary: it is the binary itself, or a
/// directory the binary is buried in.
pub open spec fn spec_tar_entry_qualifies(e: TarEntry, binary_name: Seq<char>) -> bool {
    (!e.is_dir && e.name@ == binary_name) || (e.is_dir && e.contains_binary)
}

/// Where the binary landed after an external unpack.
#[derive(Debug, Clone, PartialEq, Eq)]
pub enum TarLocate {
    /// The binary already stands at the destination root.
    AtRoot,
    /// The binary is buried in the subdirectory at this listing index and
    /// must be moved out; the subdirectory is then removed.
    InSubdir { index: usize },
    /// No entry yields the binary.
    Missing,
}

/// Locate the binary in a post-unpack directory listing: the first entry
/// that yields it decides, as the listing is walked in order.
pub fn locate_extracted_binary(entries: &Vec<TarEntry>, binary_name: &str) -> (r: TarLocate)
    ensures
        r is Missing <==> forall|k: int|
            0 <= k < entries@.len() ==> !spec_tar_entry_qualifies(
                #[trigger] entries@[k],
                binary_name@,
            ),
        r is AtRoot ==> exists|k: int|
            0 <= k < entries@.len() && spec_tar_entry_qualifies(#[trigger] entries@[k], binary_name@)
                && !entries@[k].is_dir,
        r matches TarLocate::InSubdir { index } ==> 0 <= index < entries@.len()
            && entries@[index as int].is_dir && entries@[index as int].contains_binary,
{
    let bn: String = binary_name.to_owned();
    let mut i: usize = 0;
    while i < entries.len()
        invariant
            0 <= i <= entries@.len(),
            bn@ == binary_name@,
            forall|k: int|
                0 <= k < i ==> !spec_tar_entry_qualifies(#[trigger] entries@[k], binary_name@),
        decreases entries@.len() - i,
    {
        let e = &entries[i];
        if !e.is_dir && e.name == bn {
            return TarLocate::AtRoot;
        }
        if e.is_dir && e.contains_binary {
            return TarLocate::InSubdir { index: i };
        }
        i = i + 1;
    }
    TarLocate::Missing
}

/// The error surfaced when the binary is nowhere in the unpacked output.
pub fn missing_after_unpack_error(binary_name: &str) -> (r: OpencodeError)
    ensures
        r matches OpencodeError::ExtractError { message } && message@ == "Binary '"@
            + binary_name@ + "' not found after extraction"@,
{
    let mut message = String::from_str("Binary '");
    message.append(binary_name);
    message.append("' not found after extraction");
    OpencodeError::ExtractError { message }
}

/// Bounded number of delete attempts once a rename has failed.
pub const MAX_DELETE_RETRIES: u32 = 30;

/// Phase of the replacement of the destination file.
#[derive(Debug, Clone, Copy, PartialEq, Eq, Structural)]
pub enum ReplacePhase {
    /// Asking whether the destination and a stale renamed leftover exist.
    CheckingDest,
    /// Removing a stale leftover of an earlier update before renaming.
    RemovingStale,
    /// Renaming the existing destination aside.
    Renaming,
    /// Rename failed: retrying deletion of the destination.
    Deleting,
    /// Writing the new binary to the destination.
    Writing { renamed: bool },
    /// The new binary stands at the destination.
    Complete { renamed: bool },
    /// Replacement failed.
    Failed,
}

/// The replacement state machine; the surrounding plumbing performs one
/// file-system action per step and hands the outcome back.
#[derive(Debug, Clone, Copy, PartialEq, Eq, Structural)]
pub struct ReplaceFlow {
    pub phase: ReplacePhase,
    pub attempts: u32,
    pub os: Os,
}

/// Why a replacement failed.
#[derive(Debug, Clone, Copy, PartialEq, Eq, Structural)]
pub enum ReplaceError {
    /// Every delete attempt failed after the rename did: the file is locked.
    LockedFile,
    /// Writing the new binary failed.
    WriteFailed,
    /// The plumbing reported an outcome the current phase never asked for.
    UnexpectedOutcome,
}

/// The file-system action the plumbing must perform next.
#[derive(Debug, Clone, Copy, PartialEq, Eq, Structural)]
pub enum ReplaceAction {
    /// Report whether the destination file and the stale leftover exist.
    CheckDest,
    /// Remove the stale leftover; the outcome is reported but never fatal.
    RemoveStale,
    /// Rename the destination to its sibling leftover name.
    RenameDest,
    /// Try to delete the destination; on failure wait briefly first.
    DeleteDest { attempt: u32 },
    /// Write the selected archive entry to the destination.
    WriteEntry,
    /// Finished: clean the leftover up asynchronously after a grace delay
    /// if one was renamed aside (a failure to clean up is only logged), and
    /// set the executable bit where the platform does not infer it.
    Done { cleanup_stale: bool, set_executable: bool },
    /// Finished: surface the error.
    Fail { error: ReplaceError },
}

/// Outcome of the last file-system action.
#[derive(Debug, Clone, Copy, PartialEq, Eq, Structural)]
pub enum ReplaceEvent {
    DestChecked { exists: bool, stale_exists: bool },
    StaleRemoved,
    Renamed { ok: bool },
    Deleted { ok: bool },
    Written { ok: bool },
}

/// One step of the replacement machine.
pub open spec fn spec_replace_step(s: ReplaceFlow, ev: ReplaceEvent) -> (ReplaceFlow, ReplaceAction) {
    match (s.phase, ev) {
        (ReplacePhase::CheckingDest, ReplaceEvent::DestChecked { exists, stale_exists }) => {
            if !exists {
                (
                    ReplaceFlow { phase: ReplacePhase::Writing { renamed: false }, ..s },
                    ReplaceAction::WriteEntry,
                )
            } else if stale_exists {
                (
                    ReplaceFlow { phase: ReplacePhase::RemovingStale, ..s },
                    ReplaceAction::RemoveStale,
                )
            } else {
                (ReplaceFlow { phase: ReplacePhase::Renaming, ..s }, ReplaceAction::RenameDest)
            }
        },
        (ReplacePhase::RemovingStale, ReplaceEvent::StaleRemoved) => (
            ReplaceFlow { phase: ReplacePhase::Renaming, ..s },
            ReplaceAction::RenameDest,
        ),
        (ReplacePhase::Renaming, ReplaceEvent::Renamed { ok }) => {
            if ok {
                (
                    ReplaceFlow { phase: ReplacePhase::Writing { renamed: true }, ..s },
                    ReplaceAction::WriteEntry,
                )
            } else {
                (
                    ReplaceFlow { phase: ReplacePhase::Deleting, attempts: 1, ..s },
                    ReplaceAction::DeleteDest { attempt: 1 },
                )
            }
        },
        (ReplacePhase::Deleting, ReplaceEvent::Deleted { ok }) => {
            if ok {
                (
                    ReplaceFlow { phase: ReplacePhase::Writing { renamed: false }, ..s },
                    ReplaceAction::WriteEntry,
                )
            } else if s.attempts < MAX_DELETE_RETRIES {
                (
                    ReplaceFlow {
                        phase: ReplacePhase::Deleting,
                        attempts: (s.attempts + 1) as u32,
                        ..s
                    },
                    ReplaceAction::DeleteDest { attempt: (s.attempts + 1) as u32 },
                )
            } else {
                (
                    ReplaceFlow { phase: ReplacePhase::Failed, ..s },
                    ReplaceAction::Fail { error: ReplaceError::LockedFile },
                )
            }
        },
        (ReplacePhase::Writing { renamed }, ReplaceEvent::Written { ok }) => {
            if ok {
                (
                    ReplaceFlow { phase: ReplacePhase::Complete { renamed }, ..s },
                    ReplaceAction::Done {
                        cleanup_stale: renamed,
                        set_executable: !(s.os is Windows),
                    },
                )
            } else {
                (
                    ReplaceFlow { phase: ReplacePhase::Failed, ..s },
                    ReplaceAction::Fail { error: ReplaceError::WriteFailed },
                )
            }
        },
        _ => (
            ReplaceFlow { phase: ReplacePhase::Failed, ..s },
            ReplaceAction::Fail { error: ReplaceError::UnexpectedOutcome },
        ),
    }
}

impl ReplaceFlow {
    /// Begin replacing the destination file; the first action asks whether
    /// it exists.
    pub fn new(os: Os) -> (r: (ReplaceFlow, ReplaceAction))
        ensures
            r.0.phase is CheckingDest,
            r.0.attempts == 0,
            r.0.os == os,
            r.1 is CheckDest,
    {
        (ReplaceFlow { phase: ReplacePhase::CheckingDest, attempts: 0, os }, ReplaceAction::CheckDest)
    }

    /// Feed the outcome of the last action in and obtain the next action.
    pub fn step(self, ev: ReplaceEvent) -> (r: (ReplaceFlow, ReplaceAction))
        ensures
            r == spec_replace_step(self, ev),
    {
        match (self.phase, ev) {
            (ReplacePhase::CheckingDest, ReplaceEvent::DestChecked { exists, stale_exists }) => {
                if !exists {
                    (
                        ReplaceFlow { phase: ReplacePhase::Writing { renamed: false }, ..self },
                        ReplaceAction::WriteEntry,
                    )
                } else if stale_exists {
                    (
                        ReplaceFlow { phase: ReplacePhase::RemovingStale, ..self },
                        ReplaceAction::RemoveStale,
                    )
                } else {
                    (
                        ReplaceFlow { phase: ReplacePhase::Renaming, ..self },
                        ReplaceAction::RenameDest,
                    )
                }
            },
            (ReplacePhase::RemovingStale, ReplaceEvent::StaleRemoved) => (
                ReplaceFlow { phase: ReplacePhase::Renaming, ..self },
                ReplaceAction::RenameDest,
            ),
            (ReplacePhase::Renaming, ReplaceEvent::Renamed { ok }) => {
                if ok {
                    (
                        ReplaceFlow { phase: ReplacePhase::Writing { renamed: true }, ..self },
                        ReplaceAction::WriteEntry,
                    )
                } else {
                    (
                        ReplaceFlow { phase: ReplacePhase::Deleting, attempts: 1, ..self },
                        ReplaceAction::DeleteDest { attempt: 1 },
                    )
                }
            },
            (ReplacePhase::Deleting, ReplaceEvent::Deleted { ok }) => {
                if ok {
                    (
                        ReplaceFlow { phase: ReplacePhase::Writing { renamed: false }, ..self },
                        ReplaceAction::WriteEntry,
                    )
                } else if self.attempts < MAX_DELETE_RETRIES {
                    (
                        ReplaceFlow {
                            phase: ReplacePhase::Deleting,
                            attempts: self.attempts + 1,
                            ..self
                        },
                        ReplaceAction::DeleteDest { attempt: self.attempts + 1 },
                    )
                } else {
                    (
                        ReplaceFlow { phase: ReplacePhase::Failed, ..self },
                        ReplaceAction::Fail { error: ReplaceError::LockedFile },
                    )
                }
            },
            (ReplacePhase::Writing { renamed }, ReplaceEvent::Written { ok }) => {
                if ok {
                    let windows = match self.os {
                        Os::Windows => true,
                        _ => false,
                    };
                    (
                        ReplaceFlow { phase: ReplacePhase::Complete { renamed }, ..self },
                        ReplaceAction::Done { cleanup_stale: renamed, set_executable: !windows },
                    )
                } else {
                    (
                        ReplaceFlow { phase: ReplacePhase::Failed, ..self },
                        ReplaceAction::Fail { error: ReplaceError::WriteFailed },
                    )
                }
            },
            _ => (
                ReplaceFlow { phase: ReplacePhase::Failed, ..self },
                ReplaceAction::Fail { error: ReplaceError::UnexpectedOutcome },
            ),
        }
    }
}

/// The actionable error each replacement failure surfaces; the locked-file
/// case names the likely cause rather than a raw OS error.
pub fn replace_error(e: ReplaceError, io_message: Option<String>) -> (r: OpencodeError)
    ensures
        e is LockedFile ==> (r matches OpencodeError::ExtractError { message } && message@
            == "could not replace the old version: the file is locked, likely still in use or being scanned; try again shortly or restart the application"@),
        e is WriteFailed ==> (r matches OpencodeError::IoError { message } && message@ == match (
        io_message) {
            Some(m) => m@,
            None => Seq::<char>::empty(),
        }),
        e is UnexpectedOutcome ==> (r matches OpencodeError::ExtractError { message } && message@
            == "replacement interrupted by an unexpected outcome"@),
{
    match e {
        ReplaceError::LockedFile => OpencodeError::ExtractError {
            message: String::from_str(
                "could not replace the old version: the file is locked, likely still in use or being scanned; try again shortly or restart the application",
            ),
        },
        ReplaceError::WriteFailed => {
            let message = match io_message {
                Some(m) => m,
                None => String::new(),
            };
            OpencodeError::IoError { message }
        },
        ReplaceError::UnexpectedOutcome => OpencodeError::ExtractError {
            message: String::from_str("replacement interrupted by an unexpected outcome"),
        },
    }
}

/// A destination that cannot be deleted but can be renamed is replaced all
/// the same: checking finds it present, the rename succeeds, the write
/// succeeds, and the machine completes without a single delete attempt,
/// asking for the leftover to be cleaned up and, away from the platform
/// with locking semantics, for the executable bit to be set.
pub proof fn lemma_replace_rename_path(os: Os)
    ensures
        ({
            let s0 = ReplaceFlow { phase: ReplacePhase::CheckingDest, attempts: 0, os };
            let (s1, a1) = spec_replace_step(
                s0,
                ReplaceEvent::DestChecked { exists: true, stale_exists: false },
            );
            let (s2, a2) = spec_replace_step(s1, ReplaceEvent::Renamed { ok: true });
            let (s3, a3) = spec_replace_step(s2, ReplaceEvent::Written { ok: true });
            &&& a1 is RenameDest
            &&& a2 is WriteEntry
            &&& s3.phase matches ReplacePhase::Complete { renamed } && renamed
            &&& a3 matches ReplaceAction::Done { cleanup_stale, set_executable } && cleanup_stale
                && (set_executable <==> !(os is Windows))
            &&& !(a1 is Fail) && !(a2 is Fail) && !(a3 is Fail)
            &&& !(a1 is DeleteDest) && !(a2 is DeleteDest) && !(a3 is DeleteDest)
        }),
{
}

} // verus!
