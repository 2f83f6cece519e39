//! The client of the message API.

use vstd::prelude::*;
use std::marker::PhantomData;
use crate::component::{
    CanUseComponent, DelegateComponent, HasField, HasProvider, IsProviderFor, UseDelegate,
};
use crate::failure::{raised, CauseView, FailureKind, FailureView};
use crate::json::json_from_bytes;
use crate::providers::api::{bearer, message_of, message_url, ReadMessageFromApi};
use crate::providers::error::RaiseFrom;
use crate::schema::SchemaMismatch;
use crate::traits::api::{
    is_success, ApiAuthToken, ApiBaseUrl, CanQueryMessage, ErrStatusCode,
    MessageQuerierComponent, MessageRequestView, TransportError,
};
use crate::traits::auth::HasAuthTokenType;
use crate::traits::error::ErrorRaiserComponent;

verus! {

/// The client: where the API is, and the token it presents there.
pub struct ApiClient {
    pub api_base_url: String,
    pub auth_token: String,
}

impl HasField<ApiBaseUrl> for ApiClient {
    type Field = String;

    open spec fn field(&self) -> String {
        self.api_base_url
    }

    fn get_field(&self, tag: PhantomData<ApiBaseUrl>) -> (field: &String) {
        &self.api_base_url
    }
}

impl HasField<ApiAuthToken> for ApiClient {
    type Field = String;

    open spec fn field(&self) -> String {
        self.auth_token
    }

    fn get_field(&self, tag: PhantomData<ApiAuthToken>) -> (field: &String) {
        &self.auth_token
    }
}

impl HasAuthTokenType for ApiClient {
    type AuthToken = String;
}

/// The registry of [`ApiClient`].
pub struct ApiClientComponents;

/// The source errors that [`ApiClient`] raises, each with its raiser.
pub struct ApiClientRaisers;

impl HasProvider for ApiClient {
    type Provider = ApiClientComponents;
}

impl DelegateComponent<MessageQuerierComponent> for ApiClientComponents {
    type Delegate = ReadMessageFromApi;
}

impl<Context> IsProviderFor<MessageQuerierComponent, Context> for ApiClientComponents where
    ReadMessageFromApi: IsProviderFor<MessageQuerierComponent, Context>,
 {
}

impl DelegateComponent<ErrorRaiserComponent> for ApiClientComponents {
    type Delegate = UseDelegate<ApiClientRaisers>;
}

impl<Context, Source> IsProviderFor<ErrorRaiserComponent, Context, Source> for ApiClientComponents where
    UseDelegate<ApiClientRaisers>: IsProviderFor<ErrorRaiserComponent, Context, Source>,
 {
}

impl DelegateComponent<TransportError> for ApiClientRaisers {
    type Delegate = RaiseFrom;
}

impl DelegateComponent<ErrStatusCode> for ApiClientRaisers {
    type Delegate = RaiseFrom;
}

impl DelegateComponent<serde_json::Error> for ApiClientRaisers {
    type Delegate = RaiseFrom;
}

impl DelegateComponent<SchemaMismatch> for ApiClientRaisers {
    type Delegate = RaiseFrom;
}

/// Holds where the registry of [`ApiClient`] is wired as it is meant to be.
pub trait CanUseApiClient: CanUseComponent<MessageQuerierComponent> + CanUseComponent<
    ErrorRaiserComponent,
    TransportError,
> + CanUseComponent<ErrorRaiserComponent, ErrStatusCode> + CanUseComponent<
    ErrorRaiserComponent,
    serde_json::Error,
> + CanUseComponent<ErrorRaiserComponent, SchemaMismatch> {
}

impl CanUseApiClient for ApiClient {
}

/// The request of the client: the message below the base URL, and the token
/// as a bearer credential.
pub proof fn client_request(client: ApiClient, message_id: u64)
    ensures
        client.request(message_id) == (MessageRequestView {
            url: message_url(client.api_base_url@, message_id),
            authorization: bearer(client.auth_token@),
        }),
{
}

/// An answer with a status outside 200 to 299 is a protocol failure that
/// carries that status, whatever the body holds.
pub proof fn unsuccessful_status_is_protocol_failure(client: ApiClient, status: u16, body: Seq<u8>)
    requires
        !is_success(status),
    ensures
        client.message(Ok((status, body))) == Err::<Seq<char>, FailureView>(
            raised(CauseView::Status { status_code: status }),
        ),
        client.message(Ok((status, body)))->Err_0.kind() == FailureKind::Protocol,
{
}

/// A failure to reach the server is a transport failure, never a protocol
/// failure, and keeps the line of what failed.
pub proof fn connection_failure_is_transport_failure(client: ApiClient, message: Seq<char>)
    ensures
        client.message(Err(message)) == Err::<Seq<char>, FailureView>(
            raised(CauseView::Http { message }),
        ),
        client.message(Err(message))->Err_0.kind() == FailureKind::Transport,
{
}

/// A successful answer whose body is a JSON object with a string at `message`
/// gives that string.
pub proof fn successful_answer_gives_message(
    client: ApiClient,
    status: u16,
    body: Seq<u8>,
    message: Seq<char>,
)
    requires
        is_success(status),
    ensures
        json_from_bytes(body) matches Ok(doc) && doc.text_member("message"@) == Some(message)
            ==> client.message(Ok((status, body))) == Ok::<Seq<char>, FailureView>(message),
{
}

/// The status of an answer is a successful one.
pub open spec fn answered_with_success(answer: Result<(u16, Seq<u8>), Seq<char>>) -> bool {
    match answer {
        Ok((status, _)) => is_success(status),
        Err(_) => false,
    }
}

/// Querying is total: it gives a message, or a failure of transport, of
/// protocol or of format, without annotation, and nothing else. The family
/// says which step failed: reaching the server, the status of the answer, or
/// the body of the answer.
pub proof fn querying_is_total(client: ApiClient, answer: Result<(u16, Seq<u8>), Seq<char>>)
    ensures
        client.message(answer) == message_of(answer),
        match client.message(answer) {
            Ok(message) => {
                &&& answered_with_success(answer)
                &&& json_from_bytes(answer->Ok_0.1) is Ok
                &&& json_from_bytes(answer->Ok_0.1)->Ok_0.text_member("message"@) == Some(message)
            },
            Err(failure) => {
                &&& failure.annotations.len() == 0
                &&& failure.kind() == FailureKind::Transport <==> answer is Err
                &&& failure.kind() == FailureKind::Protocol <==> answer is Ok
                    && !answered_with_success(answer)
                &&& failure.kind() == FailureKind::Format <==> answered_with_success(answer)
            },
        },
{
}

} // verus!
