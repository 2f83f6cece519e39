//! The providers of the auth capabilities.

use vstd::prelude::*;
use std::marker::PhantomData;
use crate::component::{HasField, IsProviderFor, UseField};
use crate::failure::{raised, CauseView, Failure, FailureView};
use crate::store::TokenStore;
use crate::text::ToText;
use crate::traits::auth::{
    AuthTokenExpiryFetcher, AuthTokenExpiryFetcherComponent, AuthTokenValidator,
    AuthTokenValidatorComponent, CanFetchAuthTokenExpiry, CurrentTimeGetter,
    CurrentTimeGetterComponent, ErrAuthTokenHasExpired, ErrAuthTokenInvalid, HasAuthTokenType,
    HasCurrentTime, HasTimeType, Moment,
};
use crate::traits::error::CanRaiseError;

verus! {

/// The time is what the field under `Tag` holds. This never fails.
impl<Context, Tag> CurrentTimeGetter<Context> for UseField<Tag> where
    Context: HasTimeType + HasField<Tag, Field = <Context as HasTimeType>::Time>,
 {
    open spec fn now(context: &Context) -> Result<int, FailureView> {
        Ok(context.field().instant())
    }

    fn current_time(context: &Context) -> (out: Result<Context::Time, Failure>) {
        Ok(*context.get_field(PhantomData))
    }
}

impl<Context, Tag> IsProviderFor<CurrentTimeGetterComponent, Context> for UseField<Tag> where
    Context: HasTimeType + HasField<Tag, Field = <Context as HasTimeType>::Time>,
 {
}

/// The expiry of a token is what the token store under `Tag` holds for it. A
/// token that the store does not know is invalid.
impl<Context, Tag> AuthTokenExpiryFetcher<Context> for UseField<Tag> where
    Context: HasAuthTokenType + HasTimeType + HasField<
        Tag,
        Field = TokenStore<<Context as HasTimeType>::Time>,
    > + CanRaiseError<ErrAuthTokenInvalid>,
 {
    open spec fn expiry(context: &Context, token: Seq<char>) -> Result<int, FailureView> {
        if context.field()@.contains_key(token) {
            Ok(context.field()@[token].instant())
        } else {
            Err(raised(CauseView::TokenInvalid { token }))
        }
    }

    fn fetch_auth_token_expiry(context: &Context, auth_token: &Context::AuthToken) -> (out: Result<
        Context::Time,
        Failure,
    >) {
        let token = auth_token.to_text();
        match context.get_field(PhantomData).get(&token) {
            Some(expiry) => Ok(expiry),
            None => Err(Context::raise_error(ErrAuthTokenInvalid { token })),
        }
    }
}

impl<Context, Tag> IsProviderFor<AuthTokenExpiryFetcherComponent, Context> for UseField<Tag> where
    Context: HasAuthTokenType + HasTimeType + HasField<
        Tag,
        Field = TokenStore<<Context as HasTimeType>::Time>,
    > + CanRaiseError<ErrAuthTokenInvalid>,
 {
}

/// Validates a token by its expiry: the token is good where its expiry lies
/// after now, and has expired where it does not.
pub struct ValidateTokenIsNotExpired;

impl<Context> AuthTokenValidator<Context> for ValidateTokenIsNotExpired where
    Context: HasCurrentTime + CanFetchAuthTokenExpiry + CanRaiseError<ErrAuthTokenHasExpired>,
 {
    /// The time is asked for first, then the expiry: a failure of either is
    /// the outcome, that of the time before that of the expiry.
    open spec fn validated(context: &Context, token: Seq<char>) -> Result<(), FailureView> {
        match context.now() {
            Ok(now) => match context.expiry(token) {
                Ok(expiry) => if expiry > now {
                    Ok(())
                } else {
                    Err(raised(CauseView::TokenExpired { token }))
                },
                Err(failure) => Err(failure),
            },
            Err(failure) => Err(failure),
        }
    }

    fn validate_auth_token(context: &Context, auth_token: &Context::AuthToken) -> (out: Result<
        (),
        Failure,
    >) {
        let now = match context.current_time() {
            Ok(now) => now,
            Err(failure) => return Err(failure),
        };
        let token_expiry = match context.fetch_auth_token_expiry(auth_token) {
            Ok(expiry) => expiry,
            Err(failure) => return Err(failure),
        };
        if token_expiry.is_after(&now) {
            Ok(())
        } else {
            Err(Context::raise_error(ErrAuthTokenHasExpired { token: auth_token.to_text() }))
        }
    }
}

impl<Context> IsProviderFor<AuthTokenValidatorComponent, Context> for ValidateTokenIsNotExpired where
    Context: HasCurrentTime + CanFetchAuthTokenExpiry + CanRaiseError<ErrAuthTokenHasExpired>,
 {
}

} // verus!
