//! An application that validates auth tokens against a store in memory.

use vstd::prelude::*;
use std::marker::PhantomData;
use crate::component::{
    CanUseComponent, DelegateComponent, HasField, HasProvider, IsProviderFor, UseDelegate,
    UseField,
};
use crate::failure::{raised, CauseView, FailureKind, FailureView};
use crate::providers::auth::ValidateTokenIsNotExpired;
use crate::providers::error::RaiseFrom;
use crate::store::TokenStore;
use crate::traits::auth::{
    AuthTokenExpiryFetcherComponent, AuthTokenValidatorComponent, CanValidateAuthToken,
    CurrentTimeGetterComponent, ErrAuthTokenHasExpired, ErrAuthTokenInvalid, HasAuthTokenType,
    HasTimeType, Moment,
};
use crate::traits::error::ErrorRaiserComponent;

verus! {

/// The application: the tokens it knows, each with its expiry, and the time
/// it takes for now. `Time` is what it takes for time: a count of
/// milliseconds, a calendar time, or any other [`Moment`].
pub struct MockApp<Time> {
    pub auth_tokens_store: TokenStore<Time>,
    pub current_time: Time,
}

/// The tag of the field `auth_tokens_store`.
pub struct AuthTokensStore;

/// The tag of the field `current_time`.
pub struct CurrentTime;

impl<Time> HasField<AuthTokensStore> for MockApp<Time> {
    type Field = TokenStore<Time>;

    open spec fn field(&self) -> TokenStore<Time> {
        self.auth_tokens_store
    }

    fn get_field(&self, tag: PhantomData<AuthTokensStore>) -> (field: &TokenStore<Time>) {
        &self.auth_tokens_store
    }
}

impl<Time> HasField<CurrentTime> for MockApp<Time> {
    type Field = Time;

    open spec fn field(&self) -> Time {
        self.current_time
    }

    fn get_field(&self, tag: PhantomData<CurrentTime>) -> (field: &Time) {
        &self.current_time
    }
}

impl<Time: Moment> HasTimeType for MockApp<Time> {
    type Time = Time;
}

impl<Time> HasAuthTokenType for MockApp<Time> {
    type AuthToken = String;
}

/// The registry of [`MockApp`].
pub struct MockAppComponents;

/// The source errors that [`MockApp`] raises, each with its raiser.
pub struct MockAppRaisers;

impl<Time> HasProvider for MockApp<Time> {
    type Provider = MockAppComponents;
}

impl DelegateComponent<CurrentTimeGetterComponent> for MockAppComponents {
    type Delegate = UseField<CurrentTime>;
}

impl<Context> IsProviderFor<CurrentTimeGetterComponent, Context> for MockAppComponents where
    UseField<CurrentTime>: IsProviderFor<CurrentTimeGetterComponent, Context>,
 {
}

impl DelegateComponent<AuthTokenExpiryFetcherComponent> for MockAppComponents {
    type Delegate = UseField<AuthTokensStore>;
}

impl<Context> IsProviderFor<AuthTokenExpiryFetcherComponent, Context> for MockAppComponents where
    UseField<AuthTokensStore>: IsProviderFor<AuthTokenExpiryFetcherComponent, Context>,
 {
}

impl DelegateComponent<AuthTokenValidatorComponent> for MockAppComponents {
    type Delegate = ValidateTokenIsNotExpired;
}

impl<Context> IsProviderFor<AuthTokenValidatorComponent, Context> for MockAppComponents where
    ValidateTokenIsNotExpired: IsProviderFor<AuthTokenValidatorComponent, Context>,
 {
}

impl DelegateComponent<ErrorRaiserComponent> for MockAppComponents {
    type Delegate = UseDelegate<MockAppRaisers>;
}

impl<Context, Source> IsProviderFor<ErrorRaiserComponent, Context, Source> for MockAppComponents where
    UseDelegate<MockAppRaisers>: IsProviderFor<ErrorRaiserComponent, Context, Source>,
 {
}

impl DelegateComponent<ErrAuthTokenHasExpired> for MockAppRaisers {
    type Delegate = RaiseFrom;
}

impl DelegateComponent<ErrAuthTokenInvalid> for MockAppRaisers {
    type Delegate = RaiseFrom;
}

/// Holds where the registry of [`MockApp`] is wired as it is meant to be.
pub trait CanUseMockApp: CanUseComponent<CurrentTimeGetterComponent> + CanUseComponent<
    AuthTokenExpiryFetcherComponent,
> + CanUseComponent<AuthTokenValidatorComponent> + CanUseComponent<
    ErrorRaiserComponent,
    ErrAuthTokenHasExpired,
> + CanUseComponent<ErrorRaiserComponent, ErrAuthTokenInvalid> {
}

impl<Time: Moment> CanUseMockApp for MockApp<Time> {
}

/// What validating `token` gives, said of the store and the time alone.
pub open spec fn token_verdict<Time: Moment>(
    store: Map<Seq<char>, Time>,
    now: Time,
    token: Seq<char>,
) -> Result<(), FailureView> {
    if !store.contains_key(token) {
        Err(raised(CauseView::TokenInvalid { token }))
    } else if store[token].instant() > now.instant() {
        Ok(())
    } else {
        Err(raised(CauseView::TokenExpired { token }))
    }
}

/// Token validity. A token is good if and only if the store knows it and its
/// expiry lies after now. It has expired if and only if the store knows it and
/// its expiry is now or earlier. It is invalid, which is another failure than
/// expired, if and only if the store does not know it. Either failure is of
/// the domain, names the token, and carries no annotation.
pub proof fn token_validity<Time: Moment>(app: MockApp<Time>, token: Seq<char>)
    ensures
        app.validated(token) == token_verdict(app.auth_tokens_store@, app.current_time, token),
        app.validated(token) is Ok <==> app.auth_tokens_store@.contains_key(token)
            && app.auth_tokens_store@[token].instant() > app.current_time.instant(),
        app.validated(token) == Err::<(), FailureView>(
            raised(CauseView::TokenExpired { token }),
        ) <==> app.auth_tokens_store@.contains_key(token)
            && app.auth_tokens_store@[token].instant() <= app.current_time.instant(),
        app.validated(token) == Err::<(), FailureView>(
            raised(CauseView::TokenInvalid { token }),
        ) <==> !app.auth_tokens_store@.contains_key(token),
        app.validated(token) matches Err(failure) ==> failure.kind() == FailureKind::Domain
            && failure.annotations.len() == 0,
{
}

/// With time in milliseconds, a known token is good exactly while its expiry
/// is the greater number.
pub proof fn token_validity_in_milliseconds(app: MockApp<u64>, token: Seq<char>)
    ensures
        app.validated(token) is Ok <==> app.auth_tokens_store@.contains_key(token)
            && app.auth_tokens_store@[token] > app.current_time,
{
    token_validity(app, token);
}

} // verus!
