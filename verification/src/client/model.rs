//! The messages that judger and coordinator exchange, and what they speak of.

use std::collections::HashMap;
use vstd::prelude::*;

verus! {

/// The identifier of a job or of a test suite.
#[derive(Debug, Clone, Copy, PartialEq, Eq, Structural, Hash)]
pub struct FlowSnake(pub u64);

/// A job: which repository to fetch at which revision, and which tests of which
/// suite to run on it.
#[derive(Debug, Clone)]
pub struct Job {
    pub id: FlowSnake,
    pub repo: String,
    pub revision: String,
    pub test_suite: FlowSnake,
    pub tests: Vec<String>,
}

/// The coordinator hands out a job.
#[derive(Debug, Clone)]
pub struct NewJob {
    pub job: Job,
}

/// The coordinator withdraws a job.
#[derive(Debug, Clone)]
pub struct AbortJob {
    pub job_id: FlowSnake,
}

/// What the coordinator says.
#[derive(Debug, Clone)]
pub enum ServerMsg {
    NewJob(NewJob),
    AbortJob(AbortJob),
}

/// How far a job has got, as far as the client reports it.
#[derive(Debug, Clone, Copy, PartialEq, Eq, Structural)]
pub enum JobStage {
    Fetching,
    Running,
}

/// How a job ended.
#[derive(Debug, Clone, Copy, PartialEq, Eq, Structural)]
pub enum JobResultKind {
    Accepted,
    CompileError,
    PipelineError,
    JudgerError,
    Aborted,
    OtherError,
}

/// A job has reached a stage.
#[derive(Debug, Clone, Copy, PartialEq, Eq, Structural)]
pub struct JobProgressMsg {
    pub job_id: FlowSnake,
    pub stage: JobStage,
}

/// One test of a job has a result.
#[derive(Debug, Clone)]
pub struct PartialResultMsg<T> {
    pub job_id: FlowSnake,
    pub test_id: String,
    pub test_result: T,
}

/// The image of a job's build has said something.
#[derive(Debug, Clone)]
pub struct JobOutputMsg {
    pub job_id: FlowSnake,
    pub stream: Option<String>,
    pub error: Option<String>,
}

/// A job has ended.
#[derive(Debug, Clone)]
pub struct JobResultMsg<T> {
    pub job_id: FlowSnake,
    pub results: HashMap<String, T>,
    pub job_result: JobResultKind,
    pub message: Option<String>,
}

/// How busy the client is, and how much more it asks for.
#[derive(Debug, Clone, Copy, PartialEq, Eq, Structural)]
pub struct ClientStatusMsg {
    pub active_task_count: i32,
    pub request_for_new_task: u32,
    pub can_accept_new_task: bool,
}

/// What the client says. `T` is the result of one test.
#[derive(Debug, Clone)]
pub enum ClientMsg<T> {
    JobResult(JobResultMsg<T>),
    JobProgress(JobProgressMsg),
    PartialResult(PartialResultMsg<T>),
    JobOutput(JobOutputMsg),
    ClientStatus(ClientStatusMsg),
}

/// What a [`JobResultMsg`] says.
pub struct JobResultView<T> {
    pub job_id: FlowSnake,
    pub results: Map<String, T>,
    pub job_result: JobResultKind,
    pub message: Option<Seq<char>>,
}

impl<T> View for JobResultMsg<T> {
    type V = JobResultView<T>;

    open spec fn view(&self) -> JobResultView<T> {
        JobResultView {
            job_id: self.job_id,
            results: self.results@,
            job_result: self.job_result,
            message: match self.message {
                Some(message) => Some(message@),
                None => None,
            },
        }
    }
}

/// What a judger registers with.
#[derive(Debug, Clone)]
pub struct JudgerRegisterMessage {
    pub token: String,
    pub alternate_name: Option<String>,
    pub tags: Option<Vec<String>>,
}

/// What is known of a test suite: the file that its package was uploaded as, and
/// whatever else `X` the coordinator tells, which is carried along as it is.
#[derive(Debug, Clone)]
pub struct TestSuite<X> {
    pub package_file_id: String,
    pub rest: X,
}

/// The verbs that the client uses.
#[derive(Debug, Clone, Copy, PartialEq, Eq, Structural)]
pub enum HttpMethod {
    Get,
    Post,
}

/// A web request, without its body: where it goes and the value of its
/// `authorization` header, where it has one.
#[derive(Debug, Clone)]
pub struct HttpRequest {
    pub method: HttpMethod,
    pub endpoint: String,
    pub authorization: Option<String>,
}

/// The message for one finished test of a job.
pub fn partial_result<T>(job_id: FlowSnake, test_id: String, test_result: T) -> (r: ClientMsg<T>)
    ensures
        r == ClientMsg::PartialResult(PartialResultMsg { job_id, test_id, test_result }),
{
    ClientMsg::PartialResult(PartialResultMsg { job_id, test_id, test_result })
}

/// The message for one piece of output of a job's image build.
pub fn job_output<T>(job_id: FlowSnake, stream: Option<String>, error: Option<String>) -> (r:
    ClientMsg<T>)
    ensures
        r == ClientMsg::<T>::JobOutput(JobOutputMsg { job_id, stream, error }),
{
    ClientMsg::JobOutput(JobOutputMsg { job_id, stream, error })
}

/// Nothing of a job's result is left out of what it says, and nothing is added.
pub proof fn law_result_says<T>(msg: JobResultMsg<T>)
    ensures
        msg@.job_id == msg.job_id,
        msg@.results == msg.results@,
        msg@.job_result == msg.job_result,
        msg@.message is Some <==> msg.message is Some,
        msg.message matches Some(text) ==> msg@.message == Some(text@),
{
}

} // verus!
