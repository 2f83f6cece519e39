//! The provider that queries a message from the API.

use vstd::prelude::*;
use std::marker::PhantomData;
use serde_json::Value;
use crate::component::{HasField, IsProviderFor};
use crate::failure::{raised, CauseView, Failure, FailureView};
use crate::json::{json_from_bytes, parse_bytes, Json};
use crate::schema::{string_member, FromJson, SchemaMismatch};
use crate::text::{decimal, joined, to_decimal, ToText};
use crate::traits::api::{
    is_success, ApiAuthToken, ApiBaseUrl, ErrStatusCode, HttpResponse, MessageQuerier,
    MessageQuerierComponent, MessageRequest, MessageRequestView, TransportError,
};
use crate::traits::auth::HasAuthTokenType;
use crate::traits::error::CanRaiseError;

verus! {

/// The body of a successful answer: the message.
#[derive(Clone, Debug, PartialEq, Eq)]
pub struct ApiMessageResponse {
    pub message: String,
}

/// An [`ApiMessageResponse`] as a mathematical value.
pub ghost struct ApiMessageResponseView {
    pub message: Seq<char>,
}

impl View for ApiMessageResponse {
    type V = ApiMessageResponseView;

    open spec fn view(&self) -> ApiMessageResponseView {
        ApiMessageResponseView { message: self.message@ }
    }
}

impl FromJson for ApiMessageResponse {
    /// The answer whose message is the string at `message`. Other members are
    /// passed over.
    open spec fn decoded(doc: Json) -> Result<ApiMessageResponseView, Seq<char>> {
        match doc.text_member("message"@) {
            Some(message) => Ok(ApiMessageResponseView { message }),
            None => Err("message"@),
        }
    }

    fn from_json(value: &Value) -> (out: Result<ApiMessageResponse, SchemaMismatch>) {
        match string_member(value, "message") {
            Ok(message) => Ok(ApiMessageResponse { message }),
            Err(mismatch) => Err(mismatch),
        }
    }
}

/// The URL of the message `message_id` below `base_url`.
pub open spec fn message_url(base_url: Seq<char>, message_id: u64) -> Seq<char> {
    base_url + "/api/messages/"@ + decimal(message_id as nat)
}

/// The `Authorization` header that sends `token` as a bearer credential.
pub open spec fn bearer(token: Seq<char>) -> Seq<char> {
    "Bearer "@ + token
}

/// What an answer gives. A failure to reach the server is raised as it is. An
/// answer with an unsuccessful status is a failure that carries the status,
/// whatever the body holds. A successful answer gives the string at `message`
/// of the JSON in its body; a body that is no JSON, or has no such string,
/// is a failure.
pub open spec fn message_of(answer: Result<(u16, Seq<u8>), Seq<char>>) -> Result<
    Seq<char>,
    FailureView,
> {
    match answer {
        Ok((status, body)) => if !is_success(status) {
            Err(raised(CauseView::Status { status_code: status }))
        } else {
            match json_from_bytes(body) {
                Ok(doc) => match ApiMessageResponse::decoded(doc) {
                    Ok(response) => Ok(response.message),
                    Err(field) => Err(raised(CauseView::Schema { field })),
                },
                Err(message) => Err(raised(CauseView::Json { message })),
            }
        },
        Err(message) => Err(raised(CauseView::Http { message })),
    }
}

/// Queries a message with one `GET` request, with the token of the context as
/// a bearer credential.
pub struct ReadMessageFromApi;

impl<Context> MessageQuerier<Context> for ReadMessageFromApi where
    Context: HasAuthTokenType + HasField<ApiBaseUrl, Field = String> + HasField<
        ApiAuthToken,
        Field = <Context as HasAuthTokenType>::AuthToken,
    > + CanRaiseError<TransportError> + CanRaiseError<ErrStatusCode> + CanRaiseError<
        serde_json::Error,
    > + CanRaiseError<SchemaMismatch>,
 {
    open spec fn request(context: &Context, message_id: u64) -> MessageRequestView {
        MessageRequestView {
            url: message_url(<Context as HasField<ApiBaseUrl>>::field(context)@, message_id),
            authorization: bearer(<Context as HasField<ApiAuthToken>>::field(context).text()),
        }
    }

    open spec fn message(context: &Context, answer: Result<(u16, Seq<u8>), Seq<char>>) -> Result<
        Seq<char>,
        FailureView,
    > {
        message_of(answer)
    }

    fn message_request(context: &Context, message_id: &u64) -> (request: MessageRequest) {
        let base_url = <Context as HasField<ApiBaseUrl>>::get_field(context, PhantomData);
        let auth_token = <Context as HasField<ApiAuthToken>>::get_field(context, PhantomData);
        let collection = joined(base_url.as_str(), "/api/messages/");
        let number = to_decimal(*message_id);
        let token = auth_token.to_text();
        MessageRequest {
            url: joined(collection.as_str(), number.as_str()),
            authorization: joined("Bearer ", token.as_str()),
        }
    }

    fn read_message(context: &Context, answer: Result<HttpResponse, TransportError>) -> (out:
        Result<String, Failure>) {
        let response = match answer {
            Ok(response) => response,
            Err(error) => return Err(Context::raise_error(error)),
        };
        if response.status < 200 || response.status >= 300 {
            return Err(Context::raise_error(ErrStatusCode { status_code: response.status }));
        }
        let value = match parse_bytes(response.body.as_slice()) {
            Ok(value) => value,
            Err(error) => return Err(Context::raise_error(error)),
        };
        match ApiMessageResponse::from_json(&value) {
            Ok(message_response) => Ok(message_response.message),
            Err(mismatch) => Err(Context::raise_error(mismatch)),
        }
    }
}

impl<Context> IsProviderFor<MessageQuerierComponent, Context> for ReadMessageFromApi where
    Context: HasAuthTokenType + HasField<ApiBaseUrl, Field = String> + HasField<
        ApiAuthToken,
        Field = <Context as HasAuthTokenType>::AuthToken,
    > + CanRaiseError<TransportError> + CanRaiseError<ErrStatusCode> + CanRaiseError<
        serde_json::Error,
    > + CanRaiseError<SchemaMismatch>,
 {
}

} // verus!
