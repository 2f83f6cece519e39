//! Querying a message from an API over HTTP.
//!
//! The request is sent by the caller. The capability says which request to
//! send, and makes the message, or the failure, of what came back.

use vstd::prelude::*;
use crate::component::{DelegateComponent, HasProvider, IsProviderFor};
use crate::failure::{outcome, Cause, CauseView, Failure, FailureView, SourceError};

verus! {

/// The tag of the field that holds the base URL of the API.
pub struct ApiBaseUrl;

/// The tag of the field that holds the auth token sent to the API.
pub struct ApiAuthToken;

/// A `GET` request: where to, and what the `Authorization` header holds.
#[derive(Clone, Debug, PartialEq, Eq)]
pub struct MessageRequest {
    pub url: String,
    pub authorization: String,
}

/// A [`MessageRequest`] as a mathematical value.
pub ghost struct MessageRequestView {
    pub url: Seq<char>,
    pub authorization: Seq<char>,
}

impl View for MessageRequest {
    type V = MessageRequestView;

    open spec fn view(&self) -> MessageRequestView {
        MessageRequestView { url: self.url@, authorization: self.authorization@ }
    }
}

/// What the server answered: the status and the body.
#[derive(Clone, Debug, PartialEq, Eq)]
pub struct HttpResponse {
    pub status: u16,
    pub body: Vec<u8>,
}

/// The request did not reach the server, or its answer did not arrive.
#[derive(Clone, Debug, PartialEq, Eq)]
pub struct TransportError {
    pub message: String,
}

/// The server answered with a status outside the successful ones.
#[derive(Clone, Copy, Debug, PartialEq, Eq, Structural)]
pub struct ErrStatusCode {
    pub status_code: u16,
}

impl SourceError for TransportError {
    open spec fn cause(&self) -> CauseView {
        CauseView::Http { message: self.message@ }
    }

    fn into_cause(self) -> (cause: Cause) {
        Cause::Http { message: self.message }
    }
}

impl SourceError for ErrStatusCode {
    open spec fn cause(&self) -> CauseView {
        CauseView::Status { status_code: self.status_code }
    }

    fn into_cause(self) -> (cause: Cause) {
        Cause::Status { status_code: self.status_code }
    }
}

/// What sending the request gave, as a mathematical value: the status and the
/// body, or the line of the failure.
pub open spec fn answer_view(answer: Result<HttpResponse, TransportError>) -> Result<
    (u16, Seq<u8>),
    Seq<char>,
> {
    match answer {
        Ok(response) => Ok((response.status, response.body@)),
        Err(error) => Err(error.message@),
    }
}

/// The successful statuses: 200 to 299.
pub open spec fn is_success(status: u16) -> bool {
    200 <= status < 300
}

/// The name of the capability to query a message.
pub struct MessageQuerierComponent;

/// A context that queries messages by their number.
pub trait CanQueryMessage {
    /// The request that asks for the message `message_id`.
    spec fn request(&self, message_id: u64) -> MessageRequestView;

    /// What the answer to that request gives: the message, or the failure.
    spec fn message(&self, answer: Result<(u16, Seq<u8>), Seq<char>>) -> Result<
        Seq<char>,
        FailureView,
    >;

    /// Makes the request that asks for the message `message_id`.
    fn message_request(&self, message_id: &u64) -> (request: MessageRequest)
        ensures
            request@ == self.request(*message_id),
    ;

    /// Makes the message of what sending the request gave.
    fn read_message(&self, answer: Result<HttpResponse, TransportError>) -> (out: Result<
        String,
        Failure,
    >)
        ensures
            outcome(out) == self.message(answer_view(answer)),
    ;
}

/// A provider that queries messages for contexts.
pub trait MessageQuerier<Context>: IsProviderFor<MessageQuerierComponent, Context> {
    /// The request that asks for the message `message_id`.
    spec fn request(context: &Context, message_id: u64) -> MessageRequestView;

    /// What the answer to that request gives: the message, or the failure.
    spec fn message(context: &Context, answer: Result<(u16, Seq<u8>), Seq<char>>) -> Result<
        Seq<char>,
        FailureView,
    >;

    /// Makes the request that asks for the message `message_id`.
    fn message_request(context: &Context, message_id: &u64) -> (request: MessageRequest)
        ensures
            request@ == Self::request(context, *message_id),
    ;

    /// Makes the message of what sending the request gave.
    fn read_message(context: &Context, answer: Result<HttpResponse, TransportError>) -> (out:
        Result<String, Failure>)
        ensures
            outcome(out) == Self::message(context, answer_view(answer)),
    ;
}

/// A context has the capability that its registry provides for it.
impl<Context> CanQueryMessage for Context where
    Context: HasProvider,
    Context::Provider: MessageQuerier<Context>,
 {
    open spec fn request(&self, message_id: u64) -> MessageRequestView {
        <Context::Provider as MessageQuerier<Context>>::request(self, message_id)
    }

    open spec fn message(&self, answer: Result<(u16, Seq<u8>), Seq<char>>) -> Result<
        Seq<char>,
        FailureView,
    > {
        <Context::Provider as MessageQuerier<Context>>::message(self, answer)
    }

    fn message_request(&self, message_id: &u64) -> (request: MessageRequest) {
        Context::Provider::message_request(self, message_id)
    }

    fn read_message(&self, answer: Result<HttpResponse, TransportError>) -> (out: Result<
        String,
        Failure,
    >) {
        Context::Provider::read_message(self, answer)
    }
}

/// A registry that delegates the capability provides what its delegate provides.
impl<Context, Component> MessageQuerier<Context> for Component where
    Component: DelegateComponent<MessageQuerierComponent> + IsProviderFor<
        MessageQuerierComponent,
        Context,
    >,
    Component::Delegate: MessageQuerier<Context>,
 {
    open spec fn request(context: &Context, message_id: u64) -> MessageRequestView {
        <Component::Delegate as MessageQuerier<Context>>::request(context, message_id)
    }

    open spec fn message(context: &Context, answer: Result<(u16, Seq<u8>), Seq<char>>) -> Result<
        Seq<char>,
        FailureView,
    > {
        <Component::Delegate as MessageQuerier<Context>>::message(context, answer)
    }

    fn message_request(context: &Context, message_id: &u64) -> (request: MessageRequest) {
        Component::Delegate::message_request(context, message_id)
    }

    fn read_message(context: &Context, answer: Result<HttpResponse, TransportError>) -> (out:
        Result<String, Failure>) {
        Component::Delegate::read_message(context, answer)
    }
}

} // verus!
