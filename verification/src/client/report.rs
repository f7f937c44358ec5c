//! Around a job: tell the coordinator that it has begun, what came of it and that
//! it has ended, and leave nothing of it behind.
//!
//! [`JobReport`] names one action at a time and is told when it is done.

use crate::client::error::JobExecErr;
use crate::client::model::{
    ClientMsg, FlowSnake, HttpMethod, HttpRequest, JobResultKind, JobResultMsg, JobResultView,
    NewJob,
};
use crate::text::{copy_option, prefixed};
use std::collections::HashMap;
use vstd::prelude::*;

verus! {

impl JobExecErr {
    /// As what a job counts that ended in this error.
    pub open spec fn result_kind(self) -> JobResultKind {
        match self {
            JobExecErr::NoSuchFile(_) | JobExecErr::NoSuchConfig(_) => JobResultKind::CompileError,
            JobExecErr::Io(_)
            | JobExecErr::Ws(_)
            | JobExecErr::Json(_)
            | JobExecErr::TomlDes(_)
            | JobExecErr::Request(_) => JobResultKind::JudgerError,
            JobExecErr::Cancelled => JobResultKind::Aborted,
            JobExecErr::Exec(_) => JobResultKind::PipelineError,
            JobExecErr::Any(_) => JobResultKind::OtherError,
        }
    }

    /// What the coordinator is told of this error.
    pub open spec fn report_text(self) -> Seq<char> {
        match self {
            JobExecErr::NoSuchFile(f) => "Cannot find file: "@ + f@,
            JobExecErr::NoSuchConfig(f) => "Cannot find config for "@ + f@ + " in `judger.toml`"@,
            JobExecErr::Io(e) => "IO error: "@ + e.text.debug@,
            JobExecErr::Ws(e) => "Websocket error: "@ + e.text.debug@,
            JobExecErr::Cancelled => "Job cancelled by user"@,
            JobExecErr::Json(e) => "JSON error: "@ + e.0.debug@,
            JobExecErr::TomlDes(e) => "TOML deserialization error: "@ + e.0.debug@,
            JobExecErr::Request(e) => "Web request error: "@ + e.0.debug@,
            JobExecErr::Exec(e) => e.0.debug@,
            JobExecErr::Any(e) => e.0.debug@,
        }
    }

    /// As what a job counts that ended in this error, and what the coordinator is
    /// told of it.
    pub fn describe(&self) -> (r: (JobResultKind, String))
        ensures
            r.0 == self.result_kind(),
            r.1@ == self.report_text(),
    {
        match self {
            JobExecErr::NoSuchFile(f) => (
                JobResultKind::CompileError,
                prefixed("Cannot find file: ", f.as_str()),
            ),
            JobExecErr::NoSuchConfig(f) => {
                let mut text = prefixed("Cannot find config for ", f.as_str());
                text.append(" in `judger.toml`");
                (JobResultKind::CompileError, text)
            },
            JobExecErr::Io(e) => (
                JobResultKind::JudgerError,
                prefixed("IO error: ", e.text.debug.as_str()),
            ),
            JobExecErr::Ws(e) => (
                JobResultKind::JudgerError,
                prefixed("Websocket error: ", e.text.debug.as_str()),
            ),
            JobExecErr::Cancelled => (JobResultKind::Aborted, "Job cancelled by user".to_owned()),
            JobExecErr::Json(e) => (
                JobResultKind::JudgerError,
                prefixed("JSON error: ", e.0.debug.as_str()),
            ),
            JobExecErr::TomlDes(e) => (
                JobResultKind::JudgerError,
                prefixed("TOML deserialization error: ", e.0.debug.as_str()),
            ),
            JobExecErr::Request(e) => (
                JobResultKind::JudgerError,
                prefixed("Web request error: ", e.0.debug.as_str()),
            ),
            JobExecErr::Exec(e) => (JobResultKind::PipelineError, e.0.debug.clone()),
            JobExecErr::Any(e) => (JobResultKind::OtherError, e.0.debug.clone()),
        }
    }
}

/// The result that is reported for a job that ended like this.
pub open spec fn reported<T>(
    job_id: FlowSnake,
    outcome: Result<JobResultMsg<T>, JobExecErr>,
) -> JobResultView<T> {
    match outcome {
        Ok(result) => result@,
        Err(e) => JobResultView {
            job_id,
            results: Map::empty(),
            job_result: e.result_kind(),
            message: Some(e.report_text()),
        },
    }
}

/// The result that is reported for a job that ended like this: its own, or one
/// without test results that says what went wrong.
pub fn result_of<T>(job_id: FlowSnake, outcome: Result<JobResultMsg<T>, JobExecErr>) -> (r:
    JobResultMsg<T>)
    ensures
        r@ == reported(job_id, outcome),
        outcome matches Ok(result) ==> r == result,
{
    match outcome {
        Ok(result) => result,
        Err(e) => {
            let (job_result, message) = e.describe();
            JobResultMsg { job_id, results: HashMap::new(), job_result, message: Some(message) }
        },
    }
}

/// What to do next. `M` is the message that reports a result.
#[derive(Debug)]
pub enum ReportAction<M> {
    /// Count the job as begun and tell the coordinator how busy the client is.
    FlagNewJob,
    /// Carry the job out.
    HandleJob(NewJob),
    /// Post the result; that it could not be posted is only logged.
    PostResult { request: HttpRequest, msg: M },
    /// Count the job as ended and tell the coordinator how busy the client is.
    FlagFinishedJob,
    /// Drop the handle of the job.
    ForgetJob(FlowSnake),
    /// Remove the folder of the job; that it could not be removed is only logged.
    RemoveJobDir(FlowSnake),
    /// Nothing is left to do.
    Stop,
}

/// How an action went.
#[derive(Debug)]
pub enum ReportEvent<T> {
    Done,
    Handled(Result<JobResultMsg<T>, JobExecErr>),
}

/// How far it has got: which action was named last.
#[derive(Debug)]
pub enum ReportStep {
    FlagNewJob { job: NewJob },
    HandleJob,
    PostResult,
    FlagFinishedJob,
    ForgetJob,
    RemoveJobDir,
    Finished,
}

/// One job and what is done around it.
#[derive(Debug)]
pub struct JobReport {
    pub job_id: FlowSnake,
    pub result_endpoint: String,
    pub access_token: Option<String>,
    pub step: ReportStep,
}

/// What a message that is posted says: of a result, what the result says.
pub enum PostedView<T> {
    Result(JobResultView<T>),
    Other(ClientMsg<T>),
}

impl<T> View for ReportAction<ClientMsg<T>> {
    type V = ReportAction<PostedView<T>>;

    /// The action with what its message says in the place of the message.
    open spec fn view(&self) -> ReportAction<PostedView<T>> {
        match *self {
            ReportAction::FlagNewJob => ReportAction::FlagNewJob,
            ReportAction::HandleJob(job) => ReportAction::HandleJob(job),
            ReportAction::PostResult { request, msg } => ReportAction::PostResult {
                request,
                msg: match msg {
                    ClientMsg::JobResult(result) => PostedView::Result(result@),
                    _ => PostedView::Other(msg),
                },
            },
            ReportAction::FlagFinishedJob => ReportAction::FlagFinishedJob,
            ReportAction::ForgetJob(job_id) => ReportAction::ForgetJob(job_id),
            ReportAction::RemoveJobDir(job_id) => ReportAction::RemoveJobDir(job_id),
            ReportAction::Stop => ReportAction::Stop,
        }
    }
}

impl JobReport {
    /// Whether `event` can be the answer to the action named last.
    pub open spec fn awaits<T>(self, event: ReportEvent<T>) -> bool {
        match self.step {
            ReportStep::HandleJob => event is Handled,
            ReportStep::Finished => false,
            _ => event is Done,
        }
    }

    /// How many steps are left.
    pub open spec fn rank(self) -> nat {
        match self.step {
            ReportStep::FlagNewJob { .. } => 6,
            ReportStep::HandleJob => 5,
            ReportStep::PostResult => 4,
            ReportStep::FlagFinishedJob => 3,
            ReportStep::ForgetJob => 2,
            ReportStep::RemoveJobDir => 1,
            ReportStep::Finished => 0,
        }
    }

    /// The same report at another step.
    pub open spec fn at(self, step: ReportStep) -> Self {
        JobReport { step, ..self }
    }

    /// The request that posts the result.
    pub open spec fn request(self) -> HttpRequest {
        HttpRequest {
            method: HttpMethod::Post,
            endpoint: self.result_endpoint,
            authorization: self.access_token,
        }
    }

    /// What follows when the action named last went as `event` says.
    pub open spec fn after<T>(self, event: ReportEvent<T>) -> (
        Self,
        ReportAction<PostedView<T>>,
    ) {
        match self.step {
            ReportStep::FlagNewJob { job } => (
                self.at(ReportStep::HandleJob),
                ReportAction::HandleJob(job),
            ),
            ReportStep::HandleJob => (
                self.at(ReportStep::PostResult),
                ReportAction::PostResult {
                    request: self.request(),
                    msg: PostedView::Result(reported(self.job_id, event->Handled_0)),
                },
            ),
            ReportStep::PostResult => (
                self.at(ReportStep::FlagFinishedJob),
                ReportAction::FlagFinishedJob,
            ),
            ReportStep::FlagFinishedJob => (
                self.at(ReportStep::ForgetJob),
                ReportAction::ForgetJob(self.job_id),
            ),
            ReportStep::ForgetJob => (
                self.at(ReportStep::RemoveJobDir),
                ReportAction::RemoveJobDir(self.job_id),
            ),
            _ => (self.at(ReportStep::Finished), ReportAction::Stop),
        }
    }

    /// Whether `event` can be the answer to the action named last.
    pub fn check_awaits<T>(&self, event: &ReportEvent<T>) -> (r: bool)
        ensures
            r == self.awaits(*event),
    {
        match (&self.step, event) {
            (ReportStep::HandleJob, ReportEvent::Handled(_)) => true,
            (ReportStep::HandleJob, ReportEvent::Done) => false,
            (ReportStep::Finished, _) => false,
            (_, ReportEvent::Done) => true,
            _ => false,
        }
    }

    fn move_to(self, step: ReportStep) -> (r: Self)
        ensures
            r == self.at(step),
    {
        JobReport { step, ..self }
    }

    /// Takes in how the action named last went, and names the next one.
    pub fn next<T>(self, event: ReportEvent<T>) -> (r: (Self, ReportAction<ClientMsg<T>>))
        requires
            self.awaits(event),
        ensures
            (r.0, r.1@) == self.after(event),
            r.0.rank() < self.rank(),
            r.1 is Stop <==> r.0.step is Finished,
    {
        let JobReport { job_id, result_endpoint, access_token, step } = self;
        let report = JobReport {
            job_id,
            result_endpoint,
            access_token,
            step: ReportStep::Finished,
        };
        match (step, event) {
            (ReportStep::FlagNewJob { job }, _) => (
                report.move_to(ReportStep::HandleJob),
                ReportAction::HandleJob(job),
            ),
            (ReportStep::HandleJob, ReportEvent::Handled(outcome)) => {
                let request = HttpRequest {
                    method: HttpMethod::Post,
                    endpoint: report.result_endpoint.clone(),
                    authorization: copy_option(&report.access_token),
                };
                let msg = ClientMsg::JobResult(result_of(job_id, outcome));
                (
                    report.move_to(ReportStep::PostResult),
                    ReportAction::PostResult { request, msg },
                )
            },
            (ReportStep::PostResult, _) => (
                report.move_to(ReportStep::FlagFinishedJob),
                ReportAction::FlagFinishedJob,
            ),
            (ReportStep::FlagFinishedJob, _) => (
                report.move_to(ReportStep::ForgetJob),
                ReportAction::ForgetJob(job_id),
            ),
            (ReportStep::ForgetJob, _) => (
                report.move_to(ReportStep::RemoveJobDir),
                ReportAction::RemoveJobDir(job_id),
            ),
            (ReportStep::RemoveJobDir, _) => (report, ReportAction::Stop),
            _ => unreached(),
        }
    }
}

/// A job and what is done around it, before the first step.
pub open spec fn begun(
    job: NewJob,
    result_endpoint: String,
    access_token: Option<String>,
) -> JobReport {
    JobReport {
        job_id: job.job.id,
        result_endpoint,
        access_token,
        step: ReportStep::FlagNewJob { job },
    }
}

/// Begins a job and what is done around it.
pub fn handle_job_wrapper<T>(
    job: NewJob,
    result_endpoint: String,
    access_token: Option<String>,
) -> (r: (JobReport, ReportAction<ClientMsg<T>>))
    ensures
        r.0 == (JobReport {
            job_id: job.job.id,
            result_endpoint,
            access_token,
            step: ReportStep::FlagNewJob { job },
        }),
        r.0 == begun(job, result_endpoint, access_token),
        r.1 is FlagNewJob,
{
    let job_id = job.job.id;
    let report = JobReport {
        job_id,
        result_endpoint,
        access_token,
        step: ReportStep::FlagNewJob { job },
    };
    (report, ReportAction::FlagNewJob)
}

/// The actions that are performed from here on, in order, where the job ends with
/// `outcome`.
pub open spec fn run<T>(
    report: JobReport,
    action: ReportAction<PostedView<T>>,
    outcome: Result<JobResultMsg<T>, JobExecErr>,
) -> Seq<ReportAction<PostedView<T>>>
    decreases report.rank(),
{
    let event = if report.step is HandleJob {
        ReportEvent::Handled(outcome)
    } else {
        ReportEvent::Done
    };
    if action is Stop || !report.awaits(event) {
        seq![action]
    } else {
        let (rest, then_action) = report.after(event);
        seq![action] + run(rest, then_action, outcome)
    }
}

/// However a job ends, it is counted once as begun and once as ended, exactly one
/// result is posted for it, its handle is dropped and its folder removed, in this
/// order.
pub proof fn law_every_job_is_reported<T>(
    job: NewJob,
    result_endpoint: String,
    access_token: Option<String>,
    outcome: Result<JobResultMsg<T>, JobExecErr>,
)
    ensures
        ({
            let begin = JobReport {
                job_id: job.job.id,
                result_endpoint,
                access_token,
                step: ReportStep::FlagNewJob { job },
            };
            run(begin, ReportAction::FlagNewJob, outcome) == seq![
                ReportAction::FlagNewJob,
                ReportAction::HandleJob(job),
                ReportAction::PostResult {
                    request: begin.request(),
                    msg: PostedView::Result(reported(job.job.id, outcome)),
                },
                ReportAction::FlagFinishedJob,
                ReportAction::ForgetJob(job.job.id),
                ReportAction::RemoveJobDir(job.job.id),
                ReportAction::Stop,
            ]
        }),
{
    reveal_with_fuel(run, 7);
    let begin = JobReport {
        job_id: job.job.id,
        result_endpoint,
        access_token,
        step: ReportStep::FlagNewJob { job },
    };
    assert(run(begin, ReportAction::FlagNewJob, outcome) =~= seq![
        ReportAction::FlagNewJob,
        ReportAction::HandleJob(job),
        ReportAction::PostResult {
            request: begin.request(),
            msg: PostedView::Result(reported(job.job.id, outcome)),
        },
        ReportAction::FlagFinishedJob,
        ReportAction::ForgetJob(job.job.id),
        ReportAction::RemoveJobDir(job.job.id),
        ReportAction::Stop,
    ]);
}

/// A job that ends in an error is never reported as accepted and always with a
/// message. It counts as a compile error exactly where a file or a configuration
/// is missing, as aborted exactly where it was cancelled, as a failed pipeline exactly
/// where the tests could not be built and run, as a failure of the judger exactly where
/// its own files, connections or formats failed, and as another error exactly where
/// none of these holds.
pub proof fn law_errors_are_told_apart<T>(job_id: FlowSnake, error: JobExecErr)
    ensures
        ({
            let result = reported::<T>(job_id, Err(error));
            &&& result.job_id == job_id
            &&& result.job_result == error.result_kind()
            &&& result.job_result != JobResultKind::Accepted
            &&& result.message == Some(error.report_text())
            &&& result.results.dom() == Set::<String>::empty()
            &&& result.job_result == JobResultKind::CompileError <==> error is NoSuchFile
                || error is NoSuchConfig
            &&& result.job_result == JobResultKind::Aborted <==> error is Cancelled
            &&& result.job_result == JobResultKind::PipelineError <==> error is Exec
            &&& result.job_result == JobResultKind::JudgerError <==> error is Io || error is Ws
                || error is Json || error is TomlDes || error is Request
            &&& result.job_result == JobResultKind::OtherError <==> error is Any
        }),
{
    assert(reported::<T>(job_id, Err(error)).results.dom() =~= Set::<String>::empty());
}

/// What the coordinator is told of an error says what went wrong, and then all that the
/// error itself says; of a failed pipeline and of any other error, just that.
pub proof fn law_report_text(e: JobExecErr)
    ensures
        e matches JobExecErr::NoSuchFile(f) ==> e.report_text() == "Cannot find file: "@ + f@,
        e matches JobExecErr::NoSuchConfig(f) ==> e.report_text() == "Cannot find config for "@ + f@
            + " in `judger.toml`"@,
        e matches JobExecErr::Io(x) ==> e.report_text() == "IO error: "@ + x.text.debug@,
        e matches JobExecErr::Ws(x) ==> e.report_text() == "Websocket error: "@ + x.text.debug@,
        e is Cancelled ==> e.report_text() == "Job cancelled by user"@,
        e matches JobExecErr::Json(x) ==> e.report_text() == "JSON error: "@ + x.0.debug@,
        e matches JobExecErr::TomlDes(x) ==> e.report_text() == "TOML deserialization error: "@
            + x.0.debug@,
        e matches JobExecErr::Request(x) ==> e.report_text() == "Web request error: "@
            + x.0.debug@,
        e matches JobExecErr::Exec(x) ==> e.report_text() == x.0.debug@,
        e matches JobExecErr::Any(x) ==> e.report_text() == x.0.debug@,
{
}

/// The result of a job that succeeded is reported as it is.
pub proof fn law_success_is_reported_as_it_is<T>(job_id: FlowSnake, result: JobResultMsg<T>)
    ensures
        ({
            let told = reported(job_id, Ok(result));
            &&& told.job_id == result.job_id
            &&& told.results == result.results@
            &&& told.job_result == result.job_result
            &&& told.message is Some <==> result.message is Some
            &&& result.message matches Some(text) ==> told.message == Some(text@)
        }),
{
}

/// The result of a job is posted to the endpoint for results, with the client's access
/// token where it has one. What is posted is the job's own result, or says under the
/// job's identifier and without test results what went wrong.
pub proof fn law_posted<T>(
    job: NewJob,
    result_endpoint: String,
    access_token: Option<String>,
    outcome: Result<JobResultMsg<T>, JobExecErr>,
    i: int,
)
    requires
        ({
            let begin = JobReport {
                job_id: job.job.id,
                result_endpoint,
                access_token,
                step: ReportStep::FlagNewJob { job },
            };
            let all = run(begin, ReportAction::FlagNewJob, outcome);
            0 <= i < all.len() && all[i] is PostResult
        }),
    ensures
        ({
            let begin = JobReport {
                job_id: job.job.id,
                result_endpoint,
                access_token,
                step: ReportStep::FlagNewJob { job },
            };
            let post = run(begin, ReportAction::FlagNewJob, outcome)[i];
            &&& i == 2
            &&& post->request.method == HttpMethod::Post
            &&& post->request.endpoint == result_endpoint
            &&& post->request.authorization == access_token
            &&& post->msg is Result
            &&& match outcome {
                Ok(result) => {
                    &&& post->msg->Result_0.job_id == result.job_id
                    &&& post->msg->Result_0.results == result.results@
                    &&& post->msg->Result_0.job_result == result.job_result
                    &&& post->msg->Result_0.message is Some <==> result.message is Some
                    &&& result.message matches Some(text) ==> post->msg->Result_0.message == Some(
                        text@,
                    )
                },
                Err(e) => {
                    &&& post->msg->Result_0.job_id == job.job.id
                    &&& post->msg->Result_0.results.dom() == Set::<String>::empty()
                    &&& post->msg->Result_0.job_result == e.result_kind()
                    &&& post->msg->Result_0.message == Some(e.report_text())
                },
            }
        }),
{
    law_every_job_is_reported(job, result_endpoint, access_token, outcome);
    if let Err(e) = outcome {
        law_errors_are_told_apart::<T>(job.job.id, e);
    }
}

/// An action and what it says are the same action with the same operands; a message
/// that reports a result says what the result says.
pub proof fn law_action_says<T>(action: ReportAction<ClientMsg<T>>)
    ensures
        action is FlagNewJob <==> action@ is FlagNewJob,
        action is FlagFinishedJob <==> action@ is FlagFinishedJob,
        action is Stop <==> action@ is Stop,
        action is HandleJob <==> action@ is HandleJob,
        action matches ReportAction::HandleJob(job) ==> action@->HandleJob_0 == job,
        action is ForgetJob <==> action@ is ForgetJob,
        action matches ReportAction::ForgetJob(id) ==> action@->ForgetJob_0 == id,
        action is RemoveJobDir <==> action@ is RemoveJobDir,
        action matches ReportAction::RemoveJobDir(id) ==> action@->RemoveJobDir_0 == id,
        action is PostResult <==> action@ is PostResult,
        action matches ReportAction::PostResult { request, msg } ==> action@->request == request && (
        msg is JobResult <==> action@->msg is Result),
        action matches ReportAction::PostResult {
            msg: ClientMsg::JobResult(result),
            ..
        } ==> action@->msg->Result_0 == result@,
        action matches ReportAction::PostResult { msg, .. } ==> (!(msg is JobResult)
            ==> action@->msg->Other_0 == msg),
{
}

/// While the job is carried out, its outcome can be told and nothing else; at every other
/// step but the last, that the action is done.
pub proof fn law_answers<T>(report: JobReport, event: ReportEvent<T>)
    ensures
        report.step is HandleJob ==> (report.awaits(event) <==> event is Handled),
        report.step is Finished ==> !report.awaits(event),
        !(report.step is HandleJob) && !(report.step is Finished) ==> (report.awaits(event)
            <==> event is Done),
{
}

/// What is begun for a job is begun under the job's own identifier, for that very job,
/// and for the endpoint and the token that were given.
pub proof fn law_begun(job: NewJob, result_endpoint: String, access_token: Option<String>)
    ensures
        begun(job, result_endpoint, access_token).job_id == job.job.id,
        begun(job, result_endpoint, access_token).result_endpoint == result_endpoint,
        begun(job, result_endpoint, access_token).access_token == access_token,
        begun(job, result_endpoint, access_token).step == (ReportStep::FlagNewJob { job }),
{
}

} // verus!
