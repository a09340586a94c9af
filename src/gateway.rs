//! The submission gateway: the grading backend, its health check, the
//! posting of records and the verdicts that come back.
use vstd::prelude::*;
use crate::error::PipelineError;
use crate::json::{json_object_texts, json_quote, json_quoted, object_member_texts};
use crate::names::same_text;

verus! {

/// Health checks made before the backend is given up.
pub const HEALTH_ATTEMPTS: u32 = 30;

/// Address of the grading backend.
pub const BACKEND_BASE: &'static str = "http://127.0.0.1:8000";

/// Path of the backend's health endpoint.
pub const HEALTH_PATH: &'static str = "/docs";

/// The grading backends.
#[derive(Clone, Copy, Debug, PartialEq, Eq)]
pub enum Backend {
    Gpt,
    Gemini,
}

impl Backend {
    /// The backend chosen by its model name: `gemini`, or the default one for
    /// any other name.
    pub fn from_model(model: &str) -> (r: Backend)
        ensures
            r == (if model@ == "gemini"@ { Backend::Gemini } else { Backend::Gpt }),
    {
        if same_text(model, "gemini") {
            Backend::Gemini
        } else {
            Backend::Gpt
        }
    }

    /// Path of the endpoint that grades a record.
    pub open spec fn grade_path_spec(self) -> Seq<char> {
        match self {
            Backend::Gemini => "/imagi_gemini"@,
            Backend::Gpt => "/imagi_gpt"@,
        }
    }

    /// Path of the endpoint that grades a record.
    pub fn grade_path(&self) -> (r: &'static str)
        ensures
            r@ == self.grade_path_spec(),
    {
        match self {
            Backend::Gemini => "/imagi_gemini",
            Backend::Gpt => "/imagi_gpt",
        }
    }

    /// The module that the backend's server runs.
    pub fn server_module(&self) -> (r: &'static str)
        ensures
            r@ == (match self {
                Backend::Gemini => "AI_api.geminiAPI:app"@,
                Backend::Gpt => "AI_api.gptAPI:app"@,
            }),
    {
        match self {
            Backend::Gemini => "AI_api.geminiAPI:app",
            Backend::Gpt => "AI_api.gptAPI:app",
        }
    }

    /// Address of the endpoint that grades a record.
    pub fn grade_url(&self) -> (r: String)
        ensures
            r@ == BACKEND_BASE@ + self.grade_path_spec(),
    {
        let mut r = String::from_str(BACKEND_BASE);
        r.append(self.grade_path());
        r
    }
}

/// Address of the backend's health endpoint.
pub fn health_url() -> (r: String)
    ensures
        r@ == BACKEND_BASE@ + HEALTH_PATH@,
{
    let mut r = String::from_str(BACKEND_BASE);
    r.append(HEALTH_PATH);
    r
}

/// Whether an HTTP status is a success.
pub open spec fn is_success(status: u16) -> bool {
    200 <= status < 300
}

/// What the driver of the submission phase does next.
#[derive(Clone, Copy, Debug, PartialEq, Eq)]
pub enum GatewayAction {
    /// Send the health request.
    Probe,
    /// Wait one second, then send the health request.
    WaitThenProbe,
    /// Post the record of this index.
    Post(usize),
    /// Terminate the backend process.
    StopBackend,
    /// The phase is over.
    Finish,
}

/// Where the submission phase stands.
#[derive(Clone, Copy, Debug, PartialEq, Eq)]
pub enum PhaseStep {
    AwaitingReady,
    Submitting,
    Stopping,
    Finished,
}

/// The decisions of the submission phase: health checks until the backend
/// is ready, one post per record, and the backend stopped on every way out.
pub struct SubmissionPhase {
    pub records: usize,
    pub attempts: u32,
    pub ready: bool,
    pub next: usize,
    pub step: PhaseStep,
    /// Indices of the records that the backend accepted.
    pub accepted: Vec<usize>,
    /// Indices of the records that it did not, with the status it answered.
    pub rejected: Vec<(usize, Option<u16>)>,
}

impl SubmissionPhase {
    /// The invariant of the phase.
    pub open spec fn wf(&self) -> bool {
        &&& self.attempts <= HEALTH_ATTEMPTS
        &&& self.next <= self.records
        &&& self.accepted@.len() + self.rejected@.len() == self.next
        &&& (forall|k: int| 0 <= k < self.accepted@.len() ==> self.accepted@[k] < self.next)
        &&& (forall|k: int| 0 <= k < self.rejected@.len() ==> self.rejected@[k].0 < self.next)
        &&& (!self.ready ==> self.next == 0)
        &&& match self.step {
            PhaseStep::AwaitingReady => !self.ready && self.attempts < HEALTH_ATTEMPTS,
            PhaseStep::Submitting => self.ready && self.next < self.records,
            PhaseStep::Stopping | PhaseStep::Finished => (self.ready && self.next == self.records)
                || (!self.ready && self.attempts == HEALTH_ATTEMPTS),
        }
    }

    /// A phase for the given number of records; its first action is a
    /// health check.
    pub fn new(records: usize) -> (r: SubmissionPhase)
        ensures
            r.wf(),
            r.records == records,
            r.step == PhaseStep::AwaitingReady,
            r.attempts == 0,
            r.next == 0,
    {
        SubmissionPhase {
            records,
            attempts: 0,
            ready: false,
            next: 0,
            step: PhaseStep::AwaitingReady,
            accepted: Vec::new(),
            rejected: Vec::new(),
        }
    }

    /// The backend answered the health check (`healthy`: with a success) or
    /// did not. Ready: the first record is posted, or the backend stopped
    /// where there is none. Not ready after the last attempt: the backend is
    /// stopped before any record is posted. Else: wait and check again.
    pub fn on_probe(&mut self, healthy: bool) -> (r: GatewayAction)
        requires
            old(self).wf(),
            old(self).step == PhaseStep::AwaitingReady,
        ensures
            final(self).wf(),
            final(self).records == old(self).records,
            final(self).next == 0,
            final(self).ready == healthy,
            healthy ==> final(self).attempts == old(self).attempts,
            !healthy ==> final(self).attempts == old(self).attempts + 1,
            r == (if healthy {
                if old(self).records > 0 { GatewayAction::Post(0) } else { GatewayAction::StopBackend }
            } else if old(self).attempts + 1 < HEALTH_ATTEMPTS {
                GatewayAction::WaitThenProbe
            } else {
                GatewayAction::StopBackend
            }),
            final(self).step == (match r {
                GatewayAction::Post(_) => PhaseStep::Submitting,
                GatewayAction::StopBackend => PhaseStep::Stopping,
                _ => PhaseStep::AwaitingReady,
            }),
    {
        if healthy {
            self.ready = true;
            if self.records > 0 {
                self.step = PhaseStep::Submitting;
                GatewayAction::Post(0)
            } else {
                self.step = PhaseStep::Stopping;
                GatewayAction::StopBackend
            }
        } else {
            self.attempts = self.attempts + 1;
            if self.attempts < HEALTH_ATTEMPTS {
                GatewayAction::WaitThenProbe
            } else {
                self.step = PhaseStep::Stopping;
                GatewayAction::StopBackend
            }
        }
    }

    /// The backend answered the post of the current record with `status`
    /// (`None`: no answer came). A success counts the record accepted, any
    /// other answer rejected; either way the next record follows, or the
    /// backend is stopped after the last.
    pub fn on_response(&mut self, status: Option<u16>) -> (r: GatewayAction)
        requires
            old(self).wf(),
            old(self).step == PhaseStep::Submitting,
        ensures
            final(self).wf(),
            final(self).records == old(self).records,
            final(self).ready,
            final(self).next == old(self).next + 1,
            (status matches Some(s) && is_success(s)) ==> final(self).accepted@ == old(
                self,
            ).accepted@.push(old(self).next) && final(self).rejected@ == old(self).rejected@,
            !(status matches Some(s) && is_success(s)) ==> final(self).rejected@ == old(
                self,
            ).rejected@.push((old(self).next, status)) && final(self).accepted@ == old(
                self,
            ).accepted@,
            r == (if final(self).next < final(self).records {
                GatewayAction::Post(final(self).next)
            } else {
                GatewayAction::StopBackend
            }),
            final(self).step == (if final(self).next < final(self).records {
                PhaseStep::Submitting
            } else {
                PhaseStep::Stopping
            }),
    {
        let ok = match status {
            Some(s) => 200 <= s && s < 300,
            None => false,
        };
        if ok {
            self.accepted.push(self.next);
        } else {
            self.rejected.push((self.next, status));
        }
        self.next = self.next + 1;
        if self.next < self.records {
            GatewayAction::Post(self.next)
        } else {
            self.step = PhaseStep::Stopping;
            GatewayAction::StopBackend
        }
    }

    /// The backend process has been stopped: the phase is over.
    pub fn on_stopped(&mut self) -> (r: GatewayAction)
        requires
            old(self).wf(),
            old(self).step == PhaseStep::Stopping,
        ensures
            final(self).wf(),
            r == GatewayAction::Finish,
            final(self).step == PhaseStep::Finished,
            final(self).ready == old(self).ready,
            final(self).next == old(self).next,
            final(self).accepted@ == old(self).accepted@,
            final(self).rejected@ == old(self).rejected@,
    {
        self.step = PhaseStep::Finished;
        GatewayAction::Finish
    }

    /// How the phase ended: an error where the backend never became ready,
    /// else the number of records posted.
    pub fn outcome(&self) -> (r: Result<usize, PipelineError>)
        requires
            self.wf(),
            self.step == PhaseStep::Finished,
        ensures
            self.ready ==> r == Ok::<usize, PipelineError>(self.records),
            !self.ready ==> r == Err::<usize, PipelineError>(PipelineError::ServiceUnavailable),
    {
        if self.ready {
            Ok(self.records)
        } else {
            Err(PipelineError::ServiceUnavailable)
        }
    }
}

/// The verdict of the grading backend on one submission.
pub struct Verdict {
    pub student_id: String,
    pub task: String,
    pub status: String,
    pub feedback: String,
}

/// The text, or the empty text where there is none.
pub open spec fn or_empty(v: Option<Seq<char>>) -> Seq<char> {
    match v {
        Some(s) => s,
        None => Seq::empty(),
    }
}

fn text_or_empty(v: Option<String>) -> (r: String)
    ensures
        r@ == or_empty(v.deep_view()),
{
    match v {
        Some(s) => s,
        None => String::new(),
    }
}

/// The text of the first member named `key` whose value is a string.
pub open spec fn member_text(members: Seq<(Seq<char>, Option<Seq<char>>)>, key: Seq<char>) -> Option<Seq<char>>
    decreases members.len(),
{
    if members.len() == 0 {
        None
    } else if members[0].0 == key {
        members[0].1
    } else {
        member_text(members.drop_first(), key)
    }
}

/// The text of the first member named `key`, where its value is a string.
pub fn find_member_text(members: &Vec<(String, Option<String>)>, key: &str) -> (r: Option<String>)
    ensures
        r.deep_view() == member_text(members.deep_view(), key@),
{
    let ghost all = members.deep_view();
    let mut i: usize = 0;
    assert(all.subrange(0, all.len() as int) =~= all);
    while i < members.len()
        invariant
            all == members.deep_view(),
            i <= members.len(),
            member_text(all, key@) == member_text(all.subrange(i as int, all.len() as int), key@),
        decreases members.len() - i,
    {
        let ghost rest = all.subrange(i as int, all.len() as int);
        assert(rest.drop_first() =~= all.subrange(i + 1, all.len() as int));
        assert(rest[0] == all[i as int]);
        if crate::names::same_text(members[i].0.as_str(), key) {
            return members[i].1.clone();
        }
        i = i + 1;
    }
    None
}

impl Verdict {
    /// A verdict from the fields of the backend's answer; a field that is
    /// missing or not a string reads as empty.
    pub fn from_fields(
        student_id: Option<String>,
        task: Option<String>,
        status: Option<String>,
        feedback: Option<String>,
    ) -> (r: Verdict)
        ensures
            r.student_id@ == or_empty(student_id.deep_view()),
            r.task@ == or_empty(task.deep_view()),
            r.status@ == or_empty(status.deep_view()),
            r.feedback@ == or_empty(feedback.deep_view()),
    {
        Verdict {
            student_id: text_or_empty(student_id),
            task: text_or_empty(task),
            status: text_or_empty(status),
            feedback: text_or_empty(feedback),
        }
    }
}

/// Whether `v` holds the fields that the members of an answer give, a
/// missing field or one that is not a string reading as empty.
pub open spec fn verdict_of(v: Verdict, members: Seq<(Seq<char>, Option<Seq<char>>)>) -> bool {
    &&& v.student_id@ == or_empty(member_text(members, "student_id"@))
    &&& v.task@ == or_empty(member_text(members, "task"@))
    &&& v.status@ == or_empty(member_text(members, "status"@))
    &&& v.feedback@ == or_empty(member_text(members, "feedback"@))
}

/// The verdict that the members of the backend's answer give.
pub fn verdict_from_members(members: &Vec<(String, Option<String>)>) -> (r: Verdict)
    ensures
        verdict_of(r, members.deep_view()),
{
    Verdict::from_fields(
        find_member_text(members, "student_id"),
        find_member_text(members, "task"),
        find_member_text(members, "status"),
        find_member_text(members, "feedback"),
    )
}

/// Reads the verdict out of the body of the backend's answer. A body that is
/// not a JSON object is an answer that cannot be used.
pub fn parse_verdict(body: &str) -> (r: Result<Verdict, PipelineError>)
    ensures
        match json_object_texts(body@) {
            None => r == Err::<Verdict, PipelineError>(PipelineError::Submission(None)),
            Some(ms) => r matches Ok(v) && verdict_of(v, ms),
        },
{
    match object_member_texts(body) {
        Some(ms) => Ok(verdict_from_members(&ms)),
        None => Err(PipelineError::Submission(None)),
    }
}

/// The stored form of a verdict.
pub struct FeedbackEntry {
    pub student_id: String,
    pub status: String,
    pub feedback: String,
}

/// The JSON text of a stored verdict.
pub open spec fn feedback_json(student_id: Seq<char>, status: Seq<char>, feedback: Seq<char>) -> Seq<char> {
    "{\"student_id\":"@ + json_quoted(student_id) + ",\"status\":"@ + json_quoted(status)
        + ",\"feedback\":"@ + json_quoted(feedback) + "}"@
}

impl FeedbackEntry {
    /// The entry as one JSON object.
    pub fn to_json(&self) -> (r: String)
        ensures
            r@ == feedback_json(self.student_id@, self.status@, self.feedback@),
    {
        let mut out = String::from_str("{\"student_id\":");
        out.append(json_quote(self.student_id.as_str()).as_str());
        out.append(",\"status\":");
        out.append(json_quote(self.status.as_str()).as_str());
        out.append(",\"feedback\":");
        out.append(json_quote(self.feedback.as_str()).as_str());
        out.append("}");
        out
    }
}

/// Builds the stored form of a verdict and returns its JSON text.
pub fn create_feedback_json(student_id: String, status: String, feedback: String) -> (r: String)
    ensures
        r@ == feedback_json(student_id@, status@, feedback@),
{
    FeedbackEntry { student_id, status, feedback }.to_json()
}

/// Name of the file that keeps a student's verdict.
pub fn feedback_file_name(student_id: &str) -> (r: String)
    ensures
        r@ == student_id@ + "_feedback.json"@,
{
    let mut r = String::from_str(student_id);
    r.append("_feedback.json");
    r
}

} // verus!
