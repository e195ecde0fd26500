//! The one outbound call to the generation backend: what is sent, and what
//! the caller is told once the exchange is over.

use vstd::prelude::*;
use vstd::string::*;
use crate::banner::occurs_in;
use crate::json::{json_pair_text, print_pair};

verus! {

/// A generation job as the caller gives it.
#[derive(Debug)]
pub struct ProxyRequest {
    pub city: String,
    pub date_offset: i32,
}

/// The request that goes out for a job: a `POST` of `body` to `url`, under
/// the header `Content-Type: content_type`.
#[derive(Debug)]
pub struct OutboundRequest {
    pub url: String,
    pub content_type: String,
    pub body: String,
}

/// How the one attempt ended.
#[derive(Debug)]
pub enum Exchange {
    /// The request could not be delivered; the text is the cause.
    SendFailed(String),
    /// An answer came, but its body could not be read; the text is the cause.
    ReadFailed(String),
    /// An answer came and was read, whatever its status.
    Completed { status: String, body: String },
}

/// The mathematical value of an `Exchange`.
pub enum ExchangeModel {
    SendFailed(Seq<char>),
    ReadFailed(Seq<char>),
    Completed { status: Seq<char>, body: Seq<char> },
}

impl View for Exchange {
    type V = ExchangeModel;

    open spec fn view(&self) -> ExchangeModel {
        match self {
            Exchange::SendFailed(cause) => ExchangeModel::SendFailed(cause@),
            Exchange::ReadFailed(cause) => ExchangeModel::ReadFailed(cause@),
            Exchange::Completed { status, body } => ExchangeModel::Completed {
                status: status@,
                body: body@,
            },
        }
    }
}

/// The backend's endpoint.
pub open spec fn endpoint_text() -> Seq<char> {
    "http://localhost:8888/generate"@
}

/// The content type of the job description.
pub open spec fn json_content_type() -> Seq<char> {
    "application/json"@
}

/// The job description: the JSON object of the members `city` and `date`.
pub open spec fn request_body_text(city: Seq<char>, date_offset: int) -> Seq<char> {
    json_pair_text("city"@, city, "date"@, date_offset)
}

/// What the caller gets for an answer of status `status` and body `body`.
pub open spec fn result_text(status: Seq<char>, body: Seq<char>) -> Seq<char> {
    "Status: "@ + status + "\nResponse: "@ + body
}

/// What stands before the cause where the request could not be delivered.
pub open spec fn send_failure_prefix() -> Seq<char> {
    "连接 Python backend 失败: "@
}

/// What stands before the cause where the answer could not be read.
pub open spec fn read_failure_prefix() -> Seq<char> {
    "读取响应失败: "@
}

/// What the caller is told after the exchange.
pub open spec fn conclusion(exchange: ExchangeModel) -> Result<Seq<char>, Seq<char>> {
    match exchange {
        ExchangeModel::SendFailed(cause) => Err(send_failure_prefix() + cause),
        ExchangeModel::ReadFailed(cause) => Err(read_failure_prefix() + cause),
        ExchangeModel::Completed { status, body } => Ok(result_text(status, body)),
    }
}

/// Whether a result has the value `model`.
pub open spec fn result_is(result: Result<String, String>, model: Result<Seq<char>, Seq<char>>) -> bool {
    match result {
        Ok(text) => model == Ok::<Seq<char>, Seq<char>>(text@),
        Err(text) => model == Err::<Seq<char>, Seq<char>>(text@),
    }
}

impl ProxyRequest {
    /// A job for `city`, `date_offset` days from today.
    pub fn new(city: String, date_offset: i32) -> (job: Self)
        ensures
            job.city@ == city@,
            job.date_offset == date_offset,
    {
        ProxyRequest { city, date_offset }
    }

    /// The request that goes out for this job.
    pub fn outbound(&self) -> (request: OutboundRequest)
        ensures
            request.url@ == endpoint_text(),
            request.content_type@ == json_content_type(),
            request.body@ == request_body_text(self.city@, self.date_offset as int),
    {
        plan_call(self.city.as_str(), self.date_offset)
    }
}

/// Says what is sent for a job: one `POST` to the backend's endpoint, with
/// the job description as JSON.
pub fn plan_call(city: &str, date_offset: i32) -> (request: OutboundRequest)
    ensures
        request.url@ == endpoint_text(),
        request.content_type@ == json_content_type(),
        request.body@ == request_body_text(city@, date_offset as int),
{
    OutboundRequest {
        url: "http://localhost:8888/generate".to_owned(),
        content_type: "application/json".to_owned(),
        body: print_pair("city", city, "date", date_offset),
    }
}

/// Composes what the caller gets for an answer.
pub fn compose_result(status: &str, body: &str) -> (text: String)
    ensures
        text@ == result_text(status@, body@),
{
    let mut text = "Status: ".to_owned();
    text.append(status);
    text.append("\nResponse: ");
    text.append(body);
    text
}

/// Says what the caller is told after the exchange. The status of an answer
/// is reported, never judged.
pub fn conclude(exchange: Exchange) -> (result: Result<String, String>)
    ensures
        result_is(result, conclusion(exchange@)),
{
    match exchange {
        Exchange::SendFailed(cause) => {
            let mut text = "连接 Python backend 失败: ".to_owned();
            text.append(cause.as_str());
            Err(text)
        },
        Exchange::ReadFailed(cause) => {
            let mut text = "读取响应失败: ".to_owned();
            text.append(cause.as_str());
            Err(text)
        },
        Exchange::Completed { status, body } => Ok(compose_result(status.as_str(), body.as_str())),
    }
}

/// A failed exchange is reported as an error that holds the cause; the two
/// kinds of failure are told apart by what stands before it.
pub proof fn lemma_failure_names_cause(cause: Seq<char>)
    ensures
        conclusion(ExchangeModel::SendFailed(cause)) == Err::<Seq<char>, Seq<char>>(
            send_failure_prefix() + cause,
        ),
        conclusion(ExchangeModel::ReadFailed(cause)) == Err::<Seq<char>, Seq<char>>(
            read_failure_prefix() + cause,
        ),
        occurs_in(cause, send_failure_prefix() + cause),
        occurs_in(cause, read_failure_prefix() + cause),
{
    let sent = send_failure_prefix() + cause;
    let read = read_failure_prefix() + cause;
    assert(sent.subrange(send_failure_prefix().len() as int, sent.len() as int) =~= cause);
    assert(read.subrange(read_failure_prefix().len() as int, read.len() as int) =~= cause);
    assert(sent.len() == send_failure_prefix().len() + cause.len());
    assert(read.len() == read_failure_prefix().len() + cause.len());
}

/// An answer is reported with its status and its body, each as one unbroken
/// run of the result.
pub proof fn lemma_result_holds_status_and_body(status: Seq<char>, body: Seq<char>)
    ensures
        conclusion(ExchangeModel::Completed { status, body }) == Ok::<Seq<char>, Seq<char>>(
            result_text(status, body),
        ),
        occurs_in(status, result_text(status, body)),
        occurs_in(body, result_text(status, body)),
{
    let text = result_text(status, body);
    let at_status = "Status: "@.len() as int;
    let at_body = at_status + status.len() + "\nResponse: "@.len();
    assert(text.len() == at_body + body.len());
    assert(text.subrange(at_status, at_status + status.len()) =~= status);
    assert(text.subrange(at_body, at_body + body.len()) =~= body);
}

} // verus!
