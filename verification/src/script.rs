//! Lifecycle hook scripts: at most one script per lifecycle point, loaded
//! once per process instance and run synchronously at its transition.
//! Writing the temporary file and spawning it are the caller's work; the
//! library decides names, which script runs, and the reported outcome.

use vstd::prelude::*;

use crate::error::FetchResult;

verus! {

/// The four lifecycle points a script may be attached to, plus the state
/// of a stored script attached to none.
#[derive(Clone, Copy, PartialEq, Eq, Structural, Debug)]
pub enum ScriptRunType {
    Disabled,
    BeforeStart,
    AfterStart,
    BeforeClose,
    AfterClose,
}

impl ScriptRunType {
    /// The stable numeric code a stored script records its run type under.
    pub fn code(&self) -> (r: u8)
        ensures
            *self is Disabled ==> r == 0,
            *self is BeforeStart ==> r == 1,
            *self is AfterStart ==> r == 2,
            *self is BeforeClose ==> r == 3,
            *self is AfterClose ==> r == 4,
    {
        match self {
            ScriptRunType::Disabled => 0,
            ScriptRunType::BeforeStart => 1,
            ScriptRunType::AfterStart => 2,
            ScriptRunType::BeforeClose => 3,
            ScriptRunType::AfterClose => 4,
        }
    }

    /// The label a lifecycle point's script is reported and named under.
    pub fn label(&self) -> (r: String)
        requires
            !(*self is Disabled),
        ensures
            *self is BeforeStart ==> r@ == "before_start_script"@,
            *self is AfterStart ==> r@ == "after_start_script"@,
            *self is BeforeClose ==> r@ == "before_close_script"@,
            *self is AfterClose ==> r@ == "after_close_script"@,
    {
        match self {
            ScriptRunType::BeforeStart => String::from_str("before_start_script"),
            ScriptRunType::AfterStart => String::from_str("after_start_script"),
            ScriptRunType::BeforeClose => String::from_str("before_close_script"),
            ScriptRunType::AfterClose => String::from_str("after_close_script"),
            ScriptRunType::Disabled => {
                proof {
                    assert(false);
                }
                String::new()
            },
        }
    }
}

/// A stored script: its human tag and its text.
#[derive(Clone, Debug)]
pub struct Script {
    pub tag: String,
    pub content: String,
}

/// The scripts one process instance runs, one slot per lifecycle point,
/// immutable for the instance's lifetime.
#[derive(Clone, Debug)]
pub struct ScriptHandler {
    pub before_start: Option<Script>,
    pub after_start: Option<Script>,
    pub before_close: Option<Script>,
    pub after_close: Option<Script>,
}

/// The slot a lifecycle point's read fills: the stored script when one
/// is configured, empty when none is.
pub open spec fn script_slot(f: FetchResult<Script>) -> Option<Script> {
    match f {
        FetchResult::Found(s) => Some(s),
        _ => None,
    }
}

/// The error a failed script read surfaces: the first failing read, in
/// lifecycle order, named by its point.
pub open spec fn script_load_error(
    before_start: FetchResult<Script>,
    after_start: FetchResult<Script>,
    before_close: FetchResult<Script>,
    after_close: FetchResult<Script>,
) -> Option<Seq<char>> {
    match before_start {
        FetchResult::Failed(e) => Some("get before start script failed: "@ + e@),
        _ => match after_start {
            FetchResult::Failed(e) => Some("get after start script failed: "@ + e@),
            _ => match before_close {
                FetchResult::Failed(e) => Some("get before close script failed: "@ + e@),
                _ => match after_close {
                    FetchResult::Failed(e) => Some("get after close script failed: "@ + e@),
                    _ => None,
                },
            },
        },
    }
}

/// The handler the four reads resolve to when none of them failed.
pub open spec fn resolved_scripts(
    before_start: FetchResult<Script>,
    after_start: FetchResult<Script>,
    before_close: FetchResult<Script>,
    after_close: FetchResult<Script>,
) -> ScriptHandler {
    ScriptHandler {
        before_start: script_slot(before_start),
        after_start: script_slot(after_start),
        before_close: script_slot(before_close),
        after_close: script_slot(after_close),
    }
}

impl ScriptHandler {
    /// Resolve the four lifecycle-script reads: each slot holds the
    /// stored script for its point, or nothing where none is
    /// configured; a failed read aborts with an error naming its point.
    pub fn new(
        before_start: FetchResult<Script>,
        after_start: FetchResult<Script>,
        before_close: FetchResult<Script>,
        after_close: FetchResult<Script>,
    ) -> (r: Result<ScriptHandler, String>)
        ensures
            (match r {
                Ok(h) => script_load_error(before_start, after_start, before_close, after_close)
                    is None && h == resolved_scripts(
                    before_start,
                    after_start,
                    before_close,
                    after_close,
                ),
                Err(m) => script_load_error(
                    before_start,
                    after_start,
                    before_close,
                    after_close,
                ) matches Some(t) && m@ == t,
            }),
    {
        let before_start_slot = match before_start {
            FetchResult::Found(s) => Some(s),
            FetchResult::Missing => None,
            FetchResult::Failed(e) => {
                let mut m = String::from_str("get before start script failed: ");
                m.append(e.as_str());
                return Err(m);
            },
        };
        let after_start_slot = match after_start {
            FetchResult::Found(s) => Some(s),
            FetchResult::Missing => None,
            FetchResult::Failed(e) => {
                let mut m = String::from_str("get after start script failed: ");
                m.append(e.as_str());
                return Err(m);
            },
        };
        let before_close_slot = match before_close {
            FetchResult::Found(s) => Some(s),
            FetchResult::Missing => None,
            FetchResult::Failed(e) => {
                let mut m = String::from_str("get before close script failed: ");
                m.append(e.as_str());
                return Err(m);
            },
        };
        let after_close_slot = match after_close {
            FetchResult::Found(s) => Some(s),
            FetchResult::Missing => None,
            FetchResult::Failed(e) => {
                let mut m = String::from_str("get after close script failed: ");
                m.append(e.as_str());
                return Err(m);
            },
        };
        Ok(
            ScriptHandler {
                before_start: before_start_slot,
                after_start: after_start_slot,
                before_close: before_close_slot,
                after_close: after_close_slot,
            },
        )
    }

    /// The slot a lifecycle point owns.
    pub fn script_for(&self, point: ScriptRunType) -> (r: &Option<Script>)
        requires
            !(point is Disabled),
        ensures
            point is BeforeStart ==> r == &self.before_start,
            point is AfterStart ==> r == &self.after_start,
            point is BeforeClose ==> r == &self.before_close,
            point is AfterClose ==> r == &self.after_close,
    {
        match point {
            ScriptRunType::BeforeStart => &self.before_start,
            ScriptRunType::AfterStart => &self.after_start,
            ScriptRunType::BeforeClose => &self.before_close,
            ScriptRunType::AfterClose => &self.after_close,
            ScriptRunType::Disabled => {
                proof {
                    assert(false);
                }
                &self.before_start
            },
        }
    }
}

/// The name of the uniquely-named temporary file a script is written to:
/// the lifecycle label, a separating underscore, the collision-avoiding
/// token, a dot and the platform's script extension.
pub open spec fn temp_script_name_spec(label: Seq<char>, token: Seq<char>, ext: Seq<char>)
    -> Seq<char> {
    label + "_"@ + token + "."@ + ext
}

/// Render the temporary script file name.
pub fn temp_script_name(label: &str, token: &str, ext: &str) -> (r: String)
    ensures
        r@ == temp_script_name_spec(label@, token@, ext@),
{
    let mut r = String::from_str(label);
    r.append("_");
    r.append(token);
    r.append(".");
    r.append(ext);
    proof {
        assert(r@ =~= temp_script_name_spec(label@, token@, ext@));
    }
    r
}

/// The logged report of a finished script: its exit status, then its
/// stdout and stderr verbatim, each only when non-empty.
pub open spec fn script_report_spec(
    status: Seq<char>,
    out: Seq<char>,
    err: Seq<char>,
) -> Seq<char> {
    let base = "exit code: "@ + status;
    let with_out = if out.len() > 0 {
        base + "; stdout: "@ + out
    } else {
        base
    };
    if err.len() > 0 {
        with_out + "; stderr: "@ + err
    } else {
        with_out
    }
}

/// Render the report line for a finished script.
pub fn script_report(status: &str, out: &str, err: &str) -> (r: String)
    ensures
        r@ == script_report_spec(status@, out@, err@),
{
    let mut r = String::from_str("exit code: ");
    r.append(status);
    if out.unicode_len() > 0 {
        r.append("; stdout: ");
        r.append(out);
    }
    if err.unicode_len() > 0 {
        r.append("; stderr: ");
        r.append(err);
    }
    proof {
        assert(r@ =~= script_report_spec(status@, out@, err@));
    }
    r
}

} // verus!
