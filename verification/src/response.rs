//! The responses that the handlers produce, and the step a handler takes
//! when it is not yet done.

use vstd::prelude::*;
use vstd::string::StringExecFns;
use crate::model::{ClientModel, ClientView, DeviceModel, DeviceView, client_views, device_views};
use crate::query::{Query, QueryView};

verus! {

pub const OK: u16 = 200;

pub const NO_CONTENT: u16 = 204;

pub const BAD_REQUEST: u16 = 400;

pub const NOT_FOUND: u16 = 404;

pub const INTERNAL_SERVER_ERROR: u16 = 500;

/// What an envelope carries beside its status. A list comes with the number
/// of its rows.
#[derive(Clone, Debug, PartialEq, Eq)]
pub enum Payload {
    Message(String),
    Client(ClientModel),
    Clients { result: usize, clients: Vec<ClientModel> },
    Device(DeviceModel),
    Devices { result: usize, devices: Vec<DeviceModel> },
}

pub enum PayloadView {
    Message(Seq<char>),
    Client(ClientView),
    Clients { result: int, clients: Seq<ClientView> },
    Device(DeviceView),
    Devices { result: int, devices: Seq<DeviceView> },
}

impl View for Payload {
    type V = PayloadView;

    open spec fn view(&self) -> PayloadView {
        match *self {
            Payload::Message(text) => PayloadView::Message(text@),
            Payload::Client(client) => PayloadView::Client(client@),
            Payload::Clients { result, clients } => PayloadView::Clients {
                result: result as int,
                clients: client_views(clients@),
            },
            Payload::Device(device) => PayloadView::Device(device@),
            Payload::Devices { result, devices } => PayloadView::Devices {
                result: result as int,
                devices: device_views(devices@),
            },
        }
    }
}

/// The key under which an envelope holds its payload.
pub open spec fn payload_key(payload: PayloadView) -> Seq<char> {
    match payload {
        PayloadView::Message(_) => "message"@,
        PayloadView::Client(_) => "client"@,
        PayloadView::Clients { .. } => "clients"@,
        PayloadView::Device(_) => "device"@,
        PayloadView::Devices { .. } => "devices"@,
    }
}

impl Payload {
    /// The key under which the body holds this payload, beside `status`
    /// and, for a list, `result`.
    pub fn key(&self) -> (key: &'static str)
        ensures
            key@ == payload_key(self@),
    {
        match self {
            Payload::Message(_) => "message",
            Payload::Client(_) => "client",
            Payload::Clients { .. } => "clients",
            Payload::Device(_) => "device",
            Payload::Devices { .. } => "devices",
        }
    }
}

/// The wrapping of every body: a status word and what it comes with.
#[derive(Clone, Debug, PartialEq, Eq)]
pub struct Envelope {
    pub status: String,
    pub payload: Payload,
}

pub struct EnvelopeView {
    pub status: Seq<char>,
    pub payload: PayloadView,
}

impl View for Envelope {
    type V = EnvelopeView;

    open spec fn view(&self) -> EnvelopeView {
        EnvelopeView { status: self.status@, payload: self.payload@ }
    }
}

/// A response: the HTTP status code and the body, if it has one.
#[derive(Clone, Debug, PartialEq, Eq)]
pub struct Response {
    pub code: u16,
    pub body: Option<Envelope>,
}

pub struct ResponseView {
    pub code: u16,
    pub body: Option<EnvelopeView>,
}

impl View for Response {
    type V = ResponseView;

    open spec fn view(&self) -> ResponseView {
        ResponseView {
            code: self.code,
            body: match self.body {
                Some(envelope) => Some(envelope@),
                None => None,
            },
        }
    }
}

/// The response 200 whose envelope says "success" and carries `payload`.
pub open spec fn success(payload: PayloadView) -> ResponseView {
    ResponseView { code: OK, body: Some(EnvelopeView { status: "success"@, payload }) }
}

/// The response with the given code whose envelope carries a status word
/// and a message.
pub open spec fn notice(code: u16, status: Seq<char>, message: Seq<char>) -> ResponseView {
    ResponseView {
        code,
        body: Some(EnvelopeView { status, payload: PayloadView::Message(message) }),
    }
}

/// The response 400 with the given message.
pub open spec fn bad_request(message: Seq<char>) -> ResponseView {
    notice(BAD_REQUEST, "error"@, message)
}

/// The response 404 with the given message.
pub open spec fn not_found(message: Seq<char>) -> ResponseView {
    notice(NOT_FOUND, "not found"@, message)
}

/// The response 500 with the given message.
pub open spec fn server_error(message: Seq<char>) -> ResponseView {
    notice(INTERNAL_SERVER_ERROR, "error"@, message)
}

/// The response 204, which has no body.
pub open spec fn no_content() -> ResponseView {
    ResponseView { code: NO_CONTENT, body: None }
}

impl Response {
    /// 200 with `payload` under the status "success".
    pub fn success(payload: Payload) -> (response: Response)
        ensures
            response@ == success(payload@),
    {
        Response {
            code: OK,
            body: Some(Envelope { status: String::from_str("success"), payload }),
        }
    }

    /// 400 with a message under the status "error".
    pub fn bad_request(message: &str) -> (response: Response)
        ensures
            response@ == bad_request(message@),
    {
        Response {
            code: BAD_REQUEST,
            body: Some(
                Envelope {
                    status: String::from_str("error"),
                    payload: Payload::Message(String::from_str(message)),
                },
            ),
        }
    }

    /// 404 with a message under the status "not found".
    pub fn not_found(message: &str) -> (response: Response)
        ensures
            response@ == not_found(message@),
    {
        Response {
            code: NOT_FOUND,
            body: Some(
                Envelope {
                    status: String::from_str("not found"),
                    payload: Payload::Message(String::from_str(message)),
                },
            ),
        }
    }

    /// 500 with a message under the status "error".
    pub fn server_error(message: String) -> (response: Response)
        ensures
            response@ == server_error(message@),
    {
        Response {
            code: INTERNAL_SERVER_ERROR,
            body: Some(
                Envelope { status: String::from_str("error"), payload: Payload::Message(message) },
            ),
        }
    }

    /// 204 without a body.
    pub fn no_content() -> (response: Response)
        ensures
            response@ == no_content(),
    {
        Response { code: NO_CONTENT, body: None }
    }
}

/// What a handler does next: it has a statement run, or it answers.
#[derive(Clone, Debug, PartialEq, Eq)]
pub enum Step {
    Ask(Query),
    Reply(Response),
}

pub enum StepView {
    Ask(QueryView),
    Reply(ResponseView),
}

impl View for Step {
    type V = StepView;

    open spec fn view(&self) -> StepView {
        match *self {
            Step::Ask(query) => StepView::Ask(query@),
            Step::Reply(response) => StepView::Reply(response@),
        }
    }
}

} // verus!
