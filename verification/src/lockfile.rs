//! File locks.
//!
//! A lock on a shared file is the existence of a marker file beside it: the
//! guarded path with `.lock` appended. Creating the marker atomically
//! ("create, fail if exists") is the one and only acquisition step; deleting
//! it is the release. The filesystem calls themselves are the embedding
//! program's business; this module derives the marker path, renders the
//! marker's contents, classifies the outcomes, and decides every step of the
//! waiting protocol.
use crate::codec::{chars_to_string, push_dec_i128, push_dec_u128, push_lit, string_to_chars};
use crate::timestamp::NsTimestamp;
use crate::worker::WorkerInfo;
use vstd::prelude::*;

verus! {

/// The aspect of an operating-system file error that the lock logic reads.
#[derive(Debug, Clone, Copy, PartialEq, Eq, Structural)]
pub enum IoErrorKind {
    /// The file does not exist.
    NotFound,
    /// The file already exists.
    AlreadyExists,
    /// Any other failure.
    Other,
}

/// Failure of a lock operation.
#[derive(Debug, Clone)]
pub enum Error {
    /// The path has no parent component to put a marker beside.
    NoParentPath(String),
    /// The path names no file.
    NoFilename(String),
    /// The file's name is not valid UTF-8.
    FilenameIsNotUTF8(String),
    /// The marker could not be created; `AlreadyExists` means the file is
    /// locked by someone else.
    CannotCreateLockfile(IoErrorKind, String),
    /// The marker was created but could not be written.
    CannotWriteLockfile(IoErrorKind, String),
    /// The marker could not be removed.
    CannotRemoveLockfile(IoErrorKind, String),
    /// No filesystem watcher could be obtained.
    CannotGetRecommendedWatcher(String),
    /// The marker could not be watched for changes.
    CannotWatchLockfile(String),
    /// Reading or parsing the guarded file failed.
    FileExError(crate::file_ex::Error),
}

impl Error {
    /// Whether this failure means that the file is locked by someone else:
    /// exactly a marker creation that found the marker already there.
    pub fn is_already_locked(&self) -> (r: bool)
        ensures
            r == (self matches Error::CannotCreateLockfile(IoErrorKind::AlreadyExists, _)),
    {
        match self {
            Error::CannotCreateLockfile(kind, _) => *kind == IoErrorKind::AlreadyExists,
            _ => false,
        }
    }
}

/// Whether `result` failed because the file is locked by someone else.
pub fn is_file_locked<T>(result: &Result<T, Error>) -> (r: bool)
    ensures
        r == (result matches Err(e) && e matches Error::CannotCreateLockfile(
            IoErrorKind::AlreadyExists,
            _,
        )),
{
    if let Err(error) = result {
        error.is_already_locked()
    } else {
        false
    }
}

// ---------------------------------------------------------------------------
// The marker path
// ---------------------------------------------------------------------------
/// The position right after the last `/` of `p`; zero where there is none.
pub open spec fn after_last_slash(p: Seq<char>) -> int
    decreases p.len(),
{
    if p.len() == 0 {
        0
    } else if p[p.len() - 1] == '/' {
        p.len() as int
    } else {
        after_last_slash(p.drop_last())
    }
}

/// The file-name component of `p`: everything after the last `/`.
pub open spec fn filename_of(p: Seq<char>) -> Seq<char> {
    p.subrange(after_last_slash(p), p.len() as int)
}

/// Whether a marker path can be derived from `p`: the path is not empty and
/// names a real file, not `.` or `..`.
pub open spec fn markable(p: Seq<char>) -> bool {
    &&& p.len() > 0
    &&& filename_of(p).len() > 0
    &&& filename_of(p) != seq!['.']
    &&& filename_of(p) != seq!['.', '.']
}

/// A handle that stands for exclusive update rights to one file: it exists
/// only while its owner holds the marker. It is never cloned; dropping the
/// marker file releases the lock.
#[derive(Debug)]
pub struct LockfileHandle {
    main_file_path: String,
    lockfile_path: String,
}

impl LockfileHandle {
    /// The marker path for `path`: the path itself with `.lock` appended.
    /// Fails exactly on paths no marker can be derived for.
    pub fn lockfile_path_for(path: &str) -> (r: Result<String, Error>)
        ensures
            match r {
                Ok(l) => markable(path@) && l@ == path@ + ".lock"@,
                Err(e) => !markable(path@) && match e {
                    Error::NoParentPath(p) => p@ == path@ && path@.len() == 0,
                    Error::NoFilename(p) => p@ == path@ && path@.len() > 0,
                    _ => false,
                },
            },
{
        let chars = string_to_chars(path);
        let n = chars.len();
        if n == 0 {
            return Err(Error::NoParentPath(chars_to_string(&chars)));
        }
        // find where the file name starts
        let mut start: usize = 0;
        let mut k: usize = 0;
        while k < n
            invariant
                n == chars@.len(),
                k <= n,
                start == after_last_slash(chars@.subrange(0, k as int)),
                start <= k,
            decreases n - k,
        {
            proof {
                assert(chars@.subrange(0, k + 1 as int).drop_last() =~= chars@.subrange(
                    0,
                    k as int,
                ));
            }
            if chars[k] == '/' {
                start = k + 1;
            }
            k = k + 1;
        }
        assert(chars@.subrange(0, n as int) =~= chars@);
        let flen = n - start;
        let bad: bool = if flen == 0 {
            true
        } else if flen == 1 && chars[start] == '.' {
            proof {
                assert(filename_of(chars@) =~= seq!['.']);
            }
            true
        } else if flen == 2 && chars[start] == '.' && chars[start + 1] == '.' {
            proof {
                assert(filename_of(chars@) =~= seq!['.', '.']);
            }
            true
        } else {
            proof {
                assert(filename_of(chars@).len() == flen);
                assert(filename_of(chars@)[0] == chars@[start as int]);
                if flen == 2 {
                    assert(filename_of(chars@)[1] == chars@[start + 1]);
                }
                assert(markable(chars@));
            }
            false
        };
        if bad {
            return Err(Error::NoFilename(chars_to_string(&chars)));
        }
        let mut out = chars;
        push_lit(&mut out, ".lock");
        Ok(chars_to_string(&out))
    }

    /// The guarded file's path, as a value.
    pub closed spec fn spec_main_file_path(&self) -> Seq<char> {
        self.main_file_path@
    }

    /// The marker file's path, as a value.
    pub closed spec fn spec_lockfile_path(&self) -> Seq<char> {
        self.lockfile_path@
    }

    /// A handle for `path`, to be created by the embedding program right
    /// after it has atomically created the marker file.
    pub fn new(path: String) -> (r: Result<LockfileHandle, Error>)
        ensures
            match r {
                Ok(h) => markable(path@) && h.spec_main_file_path() == path@
                    && h.spec_lockfile_path() == path@ + ".lock"@,
                Err(e) => !markable(path@),
            },
    {
        let lockfile_path = match Self::lockfile_path_for(path.as_str()) {
            Ok(l) => l,
            Err(e) => {
                return Err(e);
            },
        };
        Ok(LockfileHandle { main_file_path: path, lockfile_path })
    }

    /// The guarded file's path.
    pub fn main_file_path(&self) -> (r: &str)
        ensures
            r@ == self.spec_main_file_path(),
    {
        self.main_file_path.as_str()
    }

    /// The marker file's path.
    pub fn lockfile_path(&self) -> (r: &str)
        ensures
            r@ == self.spec_lockfile_path(),
    {
        self.lockfile_path.as_str()
    }

    /// Gives up the handle, handing back the two paths so the embedding
    /// program can remove the marker file.
    pub fn into_paths(self) -> (r: (String, String))
        ensures
            r.0@ == self.spec_main_file_path(),
            r.1@ == self.spec_lockfile_path(),
    {
        (self.main_file_path, self.lockfile_path)
    }
}

// ---------------------------------------------------------------------------
// The marker's contents
// ---------------------------------------------------------------------------
/// The human-readable text written into a marker file. It is never parsed
/// back; it records who took the lock and when, for forensics only.
pub open spec fn lockfile_contents(
    version: Seq<char>,
    pid: u32,
    timestamp: int,
    timestamp_text: Seq<char>,
    worker: Option<(WorkerInfo, Seq<char>)>,
) -> Seq<char> {
    "# File locked by scoretracker.\n# WARNING - Do not edit the locked file. Editing the locked file may result in data loss.\n\nversion: "@
        + version + "\npid: "@ + crate::codec::dec_nat(pid as nat) + "\nlock_timestamp: "@
        + crate::codec::dec_int(timestamp) + "\n# lock_timestamp: "@ + timestamp_text + (
    match worker {
        None => ""@,
        Some((w, birth_text)) => "\nworker_name: "@ + w@.name + "\nworker_birth_timestamp: "@
            + crate::codec::dec_int(w@.birth_timestamp) + "\n# worker_birth_timestamp: "@
            + birth_text + "\nworker_address: "@ + w@.address,
    }) + "\n"@
}

/// Renders the marker file's text: the software version, the process id,
/// the acquisition timestamp in nanoseconds and as text, and the worker's
/// identity block where one is given. The timestamp texts come from the
/// embedding program's clock formatting.
pub fn generate_lockfile_contents(
    version: &str,
    pid: u32,
    timestamp: NsTimestamp,
    timestamp_text: &str,
    worker: Option<(&WorkerInfo, &str)>,
) -> (r: String)
    ensures
        r@ == lockfile_contents(
            version@,
            pid,
            timestamp@,
            timestamp_text@,
            match worker {
                None => None,
                Some((w, b)) => Some((*w, b@)),
            },
        ),
{
    let mut out: Vec<char> = Vec::new();
    push_lit(
        &mut out,
        "# File locked by scoretracker.\n# WARNING - Do not edit the locked file. Editing the locked file may result in data loss.\n\nversion: ",
    );
    push_lit(&mut out, version);
    push_lit(&mut out, "\npid: ");
    push_dec_u128(&mut out, pid as u128);
    push_lit(&mut out, "\nlock_timestamp: ");
    push_dec_i128(&mut out, timestamp.as_nanos());
    push_lit(&mut out, "\n# lock_timestamp: ");
    push_lit(&mut out, timestamp_text);
    match worker {
        None => {
            proof {
                reveal_strlit("");
            }
        },
        Some((w, birth_text)) => {
            push_lit(&mut out, "\nworker_name: ");
            push_lit(&mut out, w.name.as_str());
            push_lit(&mut out, "\nworker_birth_timestamp: ");
            push_dec_i128(&mut out, w.birth_timestamp.as_nanos());
            push_lit(&mut out, "\n# worker_birth_timestamp: ");
            push_lit(&mut out, birth_text);
            push_lit(&mut out, "\nworker_address: ");
            push_lit(&mut out, w.address.as_str());
        },
    }
    push_lit(&mut out, "\n");
    chars_to_string(&out)
}

// ---------------------------------------------------------------------------
// The waiting protocol
// ---------------------------------------------------------------------------
/// What one atomic marker-creation attempt came to.
#[derive(Debug)]
pub enum AttemptOutcome {
    /// The marker was created; the lock is held.
    Acquired,
    /// The marker already exists; someone else holds the lock.
    AlreadyLocked,
    /// The attempt failed for another reason.
    Failed(Error),
}

/// An event the embedding program reports to the waiting protocol.
#[derive(Debug)]
pub enum WaitEvent {
    /// A marker-creation attempt finished with this outcome.
    Attempted(AttemptOutcome),
    /// Setting up or re-arming the marker watch finished; `None` is success.
    Watched(Option<Error>),
    /// The watcher delivered a notification; it is relevant where the marker
    /// was removed or modified.
    Notified { relevant: bool },
}

/// Where the waiting protocol stands. Every phase names the action the
/// embedding program owes next; the two `Done` phases end the wait.
#[derive(Debug)]
pub enum WaitPhase {
    /// Attempt the atomic creation once, before any watch exists.
    FirstAttempt,
    /// Set up the watch on the marker path.
    ArmingWatch,
    /// Attempt again: the marker may have vanished while the watch was set
    /// up.
    SecondAttempt,
    /// Block until the watcher reports a change.
    Waiting,
    /// Attempt again after a relevant notification.
    RetryAttempt,
    /// Drop and re-establish the watch: the marker file may have been
    /// replaced by a new one the old watch does not cover.
    Rearming,
    /// The lock was acquired.
    DoneAcquired,
    /// The wait failed with this error.
    DoneError(Error),
}

/// One step of the waiting protocol: the phase after `event` arrives in
/// `phase`. The protocol finishes with the lock only on an attempt that
/// acquired it; an attempt that found the file still locked always re-arms
/// and waits again, never returns. An event a phase does not expect leaves
/// the phase unchanged.
pub open spec fn sp_wait_step(phase: WaitPhase, event: WaitEvent) -> WaitPhase {
    match (phase, event) {
        (WaitPhase::FirstAttempt, WaitEvent::Attempted(o)) => match o {
            AttemptOutcome::Acquired => WaitPhase::DoneAcquired,
            AttemptOutcome::AlreadyLocked => WaitPhase::ArmingWatch,
            AttemptOutcome::Failed(e) => WaitPhase::DoneError(e),
        },
        (WaitPhase::SecondAttempt, WaitEvent::Attempted(o)) => match o {
            AttemptOutcome::Acquired => WaitPhase::DoneAcquired,
            AttemptOutcome::AlreadyLocked => WaitPhase::Waiting,
            AttemptOutcome::Failed(e) => WaitPhase::DoneError(e),
        },
        (WaitPhase::RetryAttempt, WaitEvent::Attempted(o)) => match o {
            AttemptOutcome::Acquired => WaitPhase::DoneAcquired,
            AttemptOutcome::AlreadyLocked => WaitPhase::Rearming,
            AttemptOutcome::Failed(e) => WaitPhase::DoneError(e),
        },
        (WaitPhase::ArmingWatch, WaitEvent::Watched(o)) => match o {
            None => WaitPhase::SecondAttempt,
            Some(e) => WaitPhase::DoneError(e),
        },
        (WaitPhase::Rearming, WaitEvent::Watched(o)) => match o {
            None => WaitPhase::Waiting,
            Some(e) => WaitPhase::DoneError(e),
        },
        (WaitPhase::Waiting, WaitEvent::Notified { relevant }) => if relevant {
            WaitPhase::RetryAttempt
        } else {
            WaitPhase::Rearming
        },
        (p, _) => p,
    }
}

/// One step of the waiting protocol, as the embedding program drives it.
pub fn wait_step(phase: WaitPhase, event: WaitEvent) -> (r: WaitPhase)
    ensures
        r == sp_wait_step(phase, event),
{
    match (phase, event) {
        (WaitPhase::FirstAttempt, WaitEvent::Attempted(o)) => match o {
            AttemptOutcome::Acquired => WaitPhase::DoneAcquired,
            AttemptOutcome::AlreadyLocked => WaitPhase::ArmingWatch,
            AttemptOutcome::Failed(e) => WaitPhase::DoneError(e),
        },
        (WaitPhase::SecondAttempt, WaitEvent::Attempted(o)) => match o {
            AttemptOutcome::Acquired => WaitPhase::DoneAcquired,
            AttemptOutcome::AlreadyLocked => WaitPhase::Waiting,
            AttemptOutcome::Failed(e) => WaitPhase::DoneError(e),
        },
        (WaitPhase::RetryAttempt, WaitEvent::Attempted(o)) => match o {
            AttemptOutcome::Acquired => WaitPhase::DoneAcquired,
            AttemptOutcome::AlreadyLocked => WaitPhase::Rearming,
            AttemptOutcome::Failed(e) => WaitPhase::DoneError(e),
        },
        (WaitPhase::ArmingWatch, WaitEvent::Watched(o)) => match o {
            None => WaitPhase::SecondAttempt,
            Some(e) => WaitPhase::DoneError(e),
        },
        (WaitPhase::Rearming, WaitEvent::Watched(o)) => match o {
            None => WaitPhase::Waiting,
            Some(e) => WaitPhase::DoneError(e),
        },
        (WaitPhase::Waiting, WaitEvent::Notified { relevant }) => if relevant {
            WaitPhase::RetryAttempt
        } else {
            WaitPhase::Rearming
        },
        (p, _) => p,
    }
}

/// The waiting protocol never hands out the lock while the marker exists:
/// it finishes acquired only on the report of an attempt that created the
/// marker, and a report that the file is still locked never finishes the
/// wait at all — the protocol re-arms and keeps waiting.
pub proof fn lemma_wait_returns_only_acquired(phase: WaitPhase, event: WaitEvent)
    ensures
        sp_wait_step(phase, event) is DoneAcquired ==> !(phase is DoneAcquired) ==> event matches
            WaitEvent::Attempted(AttemptOutcome::Acquired),
        !(phase is DoneAcquired) && !(phase is DoneError) && (event matches WaitEvent::Attempted(
            AttemptOutcome::AlreadyLocked,
        )) ==> !(sp_wait_step(phase, event) is DoneAcquired) && !(sp_wait_step(
            phase,
            event,
        ) is DoneError),
{
}

} // verus!
