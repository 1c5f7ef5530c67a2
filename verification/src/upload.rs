//! Decision logic of the core binary upload: the byte stream is written
//! to a temporary path, validated by a version query, and published to
//! its final path only on success. The caller performs each stage and
//! reports its outcome; on any failure the temporary file is removed and
//! the final path is left untouched.

use vstd::prelude::*;

verus! {

/// The index of the last path separator in `s`, or -1.
pub open spec fn last_sep(s: Seq<char>) -> int
    decreases s.len(),
{
    if s.len() == 0 {
        -1
    } else if s[s.len() - 1] == '/' || s[s.len() - 1] == '\\' {
        s.len() - 1
    } else {
        last_sep(s.drop_last())
    }
}

/// The index of the last dot in `s`, or -1.
pub open spec fn last_dot(s: Seq<char>) -> int
    decreases s.len(),
{
    if s.len() == 0 {
        -1
    } else if s[s.len() - 1] == '.' {
        s.len() - 1
    } else {
        last_dot(s.drop_last())
    }
}

/// The temporary path the stream is first written to: the target path
/// with its file name's extension replaced by `temp`, or with `.temp`
/// appended when the file name has none. A dot that starts the file
/// name does not begin an extension.
pub open spec fn temp_path_spec(s: Seq<char>) -> Seq<char> {
    let d = last_dot(s);
    if d >= 0 && d > last_sep(s) + 1 {
        s.subrange(0, d) + ".temp"@
    } else {
        s + ".temp"@
    }
}

proof fn lemma_last_sep_at(s: Seq<char>, k: int)
    requires
        -1 <= k < s.len(),
        k >= 0 ==> s[k] == '/' || s[k] == '\\',
        forall|j: int| k < j < s.len() ==> s[j] != '/' && s[j] != '\\',
    ensures
        last_sep(s) == k,
    decreases s.len(),
{
    if s.len() > 0 && !(s[s.len() - 1] == '/' || s[s.len() - 1] == '\\') {
        lemma_last_sep_at(s.drop_last(), k);
    }
}

proof fn lemma_last_dot_at(s: Seq<char>, k: int)
    requires
        -1 <= k < s.len(),
        k >= 0 ==> s[k] == '.',
        forall|j: int| k < j < s.len() ==> s[j] != '.',
    ensures
        last_dot(s) == k,
    decreases s.len(),
{
    if s.len() > 0 && s[s.len() - 1] != '.' {
        lemma_last_dot_at(s.drop_last(), k);
    }
}

/// Render the temporary path for a target path.
pub fn temp_path_for(path: &str) -> (r: String)
    ensures
        r@ == temp_path_spec(path@),
{
    let n: usize = path.unicode_len();
    let mut sep: Option<usize> = None;
    let mut dot: Option<usize> = None;
    let mut i: usize = n;
    while i > 0
        invariant
            0 <= i <= n,
            n == path@.len(),
            (match sep {
                Some(k) => i <= k < n && (path@[k as int] == '/' || path@[k as int] == '\\')
                    && forall|j: int| k < j < n ==> path@[j] != '/' && path@[j] != '\\',
                None => forall|j: int| i <= j < n ==> path@[j] != '/' && path@[j] != '\\',
            }),
            (match dot {
                Some(k) => i <= k < n && path@[k as int] == '.' && forall|j: int|
                    k < j < n ==> path@[j] != '.',
                None => forall|j: int| i <= j < n ==> path@[j] != '.',
            }),
        decreases i,
    {
        let c = path.get_char(i - 1);
        if (c == '/' || c == '\\') && sep.is_none() {
            sep = Some(i - 1);
        }
        if c == '.' && dot.is_none() {
            dot = Some(i - 1);
        }
        i = i - 1;
    }
    let sep_idx: Option<usize> = sep;
    let dot_idx: Option<usize> = dot;
    proof {
        lemma_last_sep_at(
            path@,
            match sep_idx {
                Some(k) => k as int,
                None => -1,
            },
        );
        lemma_last_dot_at(
            path@,
            match dot_idx {
                Some(k) => k as int,
                None => -1,
            },
        );
    }
    let replace: bool = match (dot_idx, sep_idx) {
        (Some(d), Some(s)) => d > s + 1,
        (Some(d), None) => d > 0,
        _ => false,
    };
    if replace {
        let d = match dot_idx {
            Some(d) => d,
            None => 0,
        };
        let stem = path.substring_char(0, d);
        let mut r = stem.to_owned();
        r.append(".temp");
        proof {
            assert(r@ =~= temp_path_spec(path@));
        }
        r
    } else {
        let mut r = path.to_owned();
        r.append(".temp");
        proof {
            assert(r@ =~= temp_path_spec(path@));
        }
        r
    }
}

/// Why an upload failed, naming the stage that failed.
pub enum UploadError {
    /// Receiving or writing the byte stream failed.
    WriteFailed(String),
    /// The uploaded file did not answer the version query as a usable
    /// core binary.
    ValidateFailed(String),
    /// Renaming the validated file to its final path failed.
    PublishFailed(String),
}

/// The message text of each upload failure.
pub open spec fn upload_error_message_spec(e: UploadError) -> Seq<char> {
    match e {
        UploadError::WriteFailed(s) => "failed to receive core: "@ + s@,
        UploadError::ValidateFailed(s) => "invalid core: "@ + s@,
        UploadError::PublishFailed(s) => "failed to rename temp file: "@ + s@,
    }
}

impl UploadError {
    /// Render the message a caller reads.
    pub fn message(&self) -> (r: String)
        ensures
            r@ == upload_error_message_spec(*self),
    {
        match self {
            UploadError::WriteFailed(s) => {
                let mut r = String::from_str("failed to receive core: ");
                r.append(s.as_str());
                r
            },
            UploadError::ValidateFailed(s) => {
                let mut r = String::from_str("invalid core: ");
                r.append(s.as_str());
                r
            },
            UploadError::PublishFailed(s) => {
                let mut r = String::from_str("failed to rename temp file: ");
                r.append(s.as_str());
                r
            },
        }
    }
}

/// Where an upload stands.
pub enum UploadState {
    /// Receiving the stream into the temporary file.
    Writing,
    /// Running the version query against the temporary file.
    Validating,
    /// Renaming the temporary file to the final path.
    Publishing,
    /// The binary was published to its final path.
    Done,
    /// A stage failed; the temporary file is to be removed.
    Failed(UploadError),
}

/// The stage transition: success advances write, validate, publish in
/// order; failure ends the upload naming the failing stage; a finished
/// upload stays finished.
pub open spec fn upload_step_spec(s: UploadState, ok: bool, err: String) -> UploadState {
    match s {
        UploadState::Writing => if ok {
            UploadState::Validating
        } else {
            UploadState::Failed(UploadError::WriteFailed(err))
        },
        UploadState::Validating => if ok {
            UploadState::Publishing
        } else {
            UploadState::Failed(UploadError::ValidateFailed(err))
        },
        UploadState::Publishing => if ok {
            UploadState::Done
        } else {
            UploadState::Failed(UploadError::PublishFailed(err))
        },
        _ => s,
    }
}

/// The upload reached its goal: the binary stands at its final path.
pub open spec fn upload_published(s: UploadState) -> bool {
    s is Done
}

/// The upload is over, one way or the other.
pub open spec fn upload_terminal(s: UploadState) -> bool {
    s is Done || s is Failed
}

/// Advance the upload by one stage outcome.
pub fn upload_advance(state: UploadState, ok: bool, err: String) -> (r: UploadState)
    ensures
        r == upload_step_spec(state, ok, err),
{
    match state {
        UploadState::Writing => {
            if ok {
                UploadState::Validating
            } else {
                UploadState::Failed(UploadError::WriteFailed(err))
            }
        },
        UploadState::Validating => {
            if ok {
                UploadState::Publishing
            } else {
                UploadState::Failed(UploadError::ValidateFailed(err))
            }
        },
        UploadState::Publishing => {
            if ok {
                UploadState::Done
            } else {
                UploadState::Failed(UploadError::PublishFailed(err))
            }
        },
        UploadState::Done => UploadState::Done,
        UploadState::Failed(e) => UploadState::Failed(e),
    }
}

/// Whether the temporary file must be removed once the upload is over:
/// exactly on failure — a published upload renamed it away instead.
pub fn upload_cleanup(state: &UploadState) -> (r: bool)
    ensures
        r == (*state is Failed),
{
    match state {
        UploadState::Failed(_) => true,
        _ => false,
    }
}

/// The upload driven through a whole sequence of stage outcomes.
pub open spec fn upload_run(s: UploadState, evs: Seq<(bool, String)>) -> UploadState
    decreases evs.len(),
{
    if evs.len() == 0 {
        s
    } else {
        upload_run(upload_step_spec(s, evs[0].0, evs[0].1), evs.drop_first())
    }
}

/// A finished upload is unaffected by further stage outcomes.
pub proof fn lemma_terminal_absorbs(s: UploadState, evs: Seq<(bool, String)>)
    requires
        upload_terminal(s),
    ensures
        upload_run(s, evs) == s,
    decreases evs.len(),
{
    if evs.len() > 0 {
        lemma_terminal_absorbs(s, evs.drop_first());
    }
}

/// A stream that fails validation leaves the final binary path
/// untouched: the upload ends failed at the validation stage, never
/// reaches publishing — the one stage that writes the final path — and
/// its temporary file is marked for removal, whatever happens afterward.
pub proof fn lemma_failed_validation_never_publishes(err: String, evs: Seq<(bool, String)>)
    ensures
        upload_step_spec(UploadState::Validating, false, err) == UploadState::Failed(
            UploadError::ValidateFailed(err),
        ),
        !upload_published(
            upload_run(upload_step_spec(UploadState::Validating, false, err), evs),
        ),
        upload_run(upload_step_spec(UploadState::Validating, false, err), evs) is Failed,
{
    lemma_terminal_absorbs(UploadState::Failed(UploadError::ValidateFailed(err)), evs);
}

} // verus!
