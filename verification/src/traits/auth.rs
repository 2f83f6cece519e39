//! Validating an auth token: a token is good while its expiry lies after now.

use vstd::prelude::*;
use crate::component::{DelegateComponent, HasProvider, IsProviderFor};
use crate::failure::{outcome, Cause, CauseView, Failure, FailureView, SourceError};
use crate::text::ToText;

verus! {

/// A point in time. Whatever a context takes for its time, its values lie on
/// one line, and that is all a capability asks of it.
pub trait Moment: Copy {
    /// Where the moment lies on the line of time.
    spec fn instant(&self) -> int;

    /// Whether this moment lies after `other`.
    fn is_after(&self, other: &Self) -> (after: bool)
        ensures
            after == (self.instant() > other.instant()),
    ;
}

/// Time as a count of milliseconds.
impl Moment for u64 {
    open spec fn instant(&self) -> int {
        *self as int
    }

    fn is_after(&self, other: &u64) -> (after: bool) {
        *self > *other
    }
}

/// Time as the fields of a calendar and a clock, from the year down to the
/// second. Two such times are ordered field by field, the year first.
#[derive(Clone, Copy, Debug, PartialEq, Eq, Structural)]
pub struct CalendarTime {
    pub year: u16,
    pub month: u8,
    pub day: u8,
    pub hour: u8,
    pub minute: u8,
    pub second: u8,
}

impl CalendarTime {
    /// The fields as the digits of one number, the year the most significant.
    fn key(&self) -> (key: u64)
        ensures
            key == self.instant(),
    {
        let year: u64 = self.year as u64;
        let month: u64 = self.month as u64;
        let day: u64 = self.day as u64;
        let hour: u64 = self.hour as u64;
        let minute: u64 = self.minute as u64;
        let second: u64 = self.second as u64;
        ((((year * 256 + month) * 256 + day) * 256 + hour) * 256 + minute) * 256 + second
    }
}

impl Moment for CalendarTime {
    /// The fields as the digits of one number to the base 256, the year the
    /// most significant: numbers in the order of the times.
    open spec fn instant(&self) -> int {
        ((((self.year * 256 + self.month) * 256 + self.day) * 256 + self.hour) * 256
            + self.minute) * 256 + self.second
    }

    fn is_after(&self, other: &CalendarTime) -> (after: bool) {
        self.key() > other.key()
    }
}

/// Calendar times are ordered field by field: the first field in which two
/// times differ decides, the year before the month, and so on to the second.
pub proof fn calendar_order_is_field_by_field(a: CalendarTime, b: CalendarTime)
    ensures
        a.instant() > b.instant() <==> (a.year, a.month, a.day, a.hour, a.minute, a.second)
            != (b.year, b.month, b.day, b.hour, b.minute, b.second) && (a.year > b.year || (a.year
            == b.year && (a.month > b.month || (a.month == b.month && (a.day > b.day || (a.day
            == b.day && (a.hour > b.hour || (a.hour == b.hour && (a.minute > b.minute || (a.minute
            == b.minute && a.second > b.second)))))))))),
        a.instant() == b.instant() <==> a == b,
{
}

/// The context fixes what it takes for time.
pub trait HasTimeType {
    type Time: Moment;
}

/// The context fixes what it takes for an auth token.
pub trait HasAuthTokenType {
    type AuthToken: ToText;
}

/// The token is known and its expiry does not lie after now.
#[derive(Clone, Debug, PartialEq, Eq)]
pub struct ErrAuthTokenHasExpired {
    pub token: String,
}

/// The token is not known.
#[derive(Clone, Debug, PartialEq, Eq)]
pub struct ErrAuthTokenInvalid {
    pub token: String,
}

impl SourceError for ErrAuthTokenHasExpired {
    open spec fn cause(&self) -> CauseView {
        CauseView::TokenExpired { token: self.token@ }
    }

    fn into_cause(self) -> (cause: Cause) {
        Cause::TokenExpired { token: self.token }
    }
}

impl SourceError for ErrAuthTokenInvalid {
    open spec fn cause(&self) -> CauseView {
        CauseView::TokenInvalid { token: self.token@ }
    }

    fn into_cause(self) -> (cause: Cause) {
        Cause::TokenInvalid { token: self.token }
    }
}

/// The outcome of a capability that gives a moment: where the moment lies, or
/// the view of the failure.
pub open spec fn moment_outcome<Time: Moment>(out: Result<Time, Failure>) -> Result<
    int,
    FailureView,
> {
    match out {
        Ok(moment) => Ok(moment.instant()),
        Err(failure) => Err(failure@),
    }
}

/// The name of the capability to tell the time.
pub struct CurrentTimeGetterComponent;

/// The name of the capability to look up when a token runs out.
pub struct AuthTokenExpiryFetcherComponent;

/// The name of the capability to validate a token.
pub struct AuthTokenValidatorComponent;

/// A context that tells the time.
pub trait HasCurrentTime: HasTimeType {
    /// What asking for the time gives.
    spec fn now(&self) -> Result<int, FailureView>;

    /// The time now.
    fn current_time(&self) -> (out: Result<Self::Time, Failure>)
        ensures
            moment_outcome(out) == self.now(),
    ;
}

/// A provider that tells the time for contexts.
pub trait CurrentTimeGetter<Context: HasTimeType>: IsProviderFor<
    CurrentTimeGetterComponent,
    Context,
> {
    /// What asking for the time gives.
    spec fn now(context: &Context) -> Result<int, FailureView>;

    /// The time now.
    fn current_time(context: &Context) -> (out: Result<Context::Time, Failure>)
        ensures
            moment_outcome(out) == Self::now(context),
    ;
}

/// A context that knows when a token runs out.
pub trait CanFetchAuthTokenExpiry: HasAuthTokenType + HasTimeType {
    /// What looking `token` up gives.
    spec fn expiry(&self, token: Seq<char>) -> Result<int, FailureView>;

    /// Looks up when `auth_token` runs out.
    fn fetch_auth_token_expiry(&self, auth_token: &Self::AuthToken) -> (out: Result<
        Self::Time,
        Failure,
    >)
        ensures
            moment_outcome(out) == self.expiry(auth_token.text()),
    ;
}

/// A provider that looks up when a token runs out.
pub trait AuthTokenExpiryFetcher<Context: HasAuthTokenType + HasTimeType>: IsProviderFor<
    AuthTokenExpiryFetcherComponent,
    Context,
> {
    /// What looking `token` up gives.
    spec fn expiry(context: &Context, token: Seq<char>) -> Result<int, FailureView>;

    /// Looks up when `auth_token` runs out.
    fn fetch_auth_token_expiry(context: &Context, auth_token: &Context::AuthToken) -> (out: Result<
        Context::Time,
        Failure,
    >)
        ensures
            moment_outcome(out) == Self::expiry(context, auth_token.text()),
    ;
}

/// A context that validates auth tokens.
pub trait CanValidateAuthToken: HasAuthTokenType {
    /// What validating `token` gives.
    spec fn validated(&self, token: Seq<char>) -> Result<(), FailureView>;

    /// Validates `auth_token`.
    fn validate_auth_token(&self, auth_token: &Self::AuthToken) -> (out: Result<(), Failure>)
        ensures
            outcome(out) == self.validated(auth_token.text()),
    ;
}

/// A provider that validates auth tokens.
pub trait AuthTokenValidator<Context: HasAuthTokenType>: IsProviderFor<
    AuthTokenValidatorComponent,
    Context,
> {
    /// What validating `token` gives.
    spec fn validated(context: &Context, token: Seq<char>) -> Result<(), FailureView>;

    /// Validates `auth_token`.
    fn validate_auth_token(context: &Context, auth_token: &Context::AuthToken) -> (out: Result<
        (),
        Failure,
    >)
        ensures
            outcome(out) == Self::validated(context, auth_token.text()),
    ;
}

/// A context has the capability that its registry provides for it.
impl<Context> HasCurrentTime for Context where
    Context: HasProvider + HasTimeType,
    Context::Provider: CurrentTimeGetter<Context>,
 {
    open spec fn now(&self) -> Result<int, FailureView> {
        <Context::Provider as CurrentTimeGetter<Context>>::now(self)
    }

    fn current_time(&self) -> (out: Result<Context::Time, Failure>) {
        Context::Provider::current_time(self)
    }
}

/// A context has the capability that its registry provides for it.
impl<Context> CanFetchAuthTokenExpiry for Context where
    Context: HasProvider + HasAuthTokenType + HasTimeType,
    Context::Provider: AuthTokenExpiryFetcher<Context>,
 {
    open spec fn expiry(&self, token: Seq<char>) -> Result<int, FailureView> {
        <Context::Provider as AuthTokenExpiryFetcher<Context>>::expiry(self, token)
    }

    fn fetch_auth_token_expiry(&self, auth_token: &Context::AuthToken) -> (out: Result<
        Context::Time,
        Failure,
    >) {
        Context::Provider::fetch_auth_token_expiry(self, auth_token)
    }
}

/// A context has the capability that its registry provides for it.
impl<Context> CanValidateAuthToken for Context where
    Context: HasProvider + HasAuthTokenType,
    Context::Provider: AuthTokenValidator<Context>,
 {
    open spec fn validated(&self, token: Seq<char>) -> Result<(), FailureView> {
        <Context::Provider as AuthTokenValidator<Context>>::validated(self, token)
    }

    fn validate_auth_token(&self, auth_token: &Context::AuthToken) -> (out: Result<(), Failure>) {
        Context::Provider::validate_auth_token(self, auth_token)
    }
}

/// A registry that delegates the capability provides what its delegate provides.
impl<Context, Component> CurrentTimeGetter<Context> for Component where
    Context: HasTimeType,
    Component: DelegateComponent<CurrentTimeGetterComponent> + IsProviderFor<
        CurrentTimeGetterComponent,
        Context,
    >,
    Component::Delegate: CurrentTimeGetter<Context>,
 {
    open spec fn now(context: &Context) -> Result<int, FailureView> {
        <Component::Delegate as CurrentTimeGetter<Context>>::now(context)
    }

    fn current_time(context: &Context) -> (out: Result<Context::Time, Failure>) {
        Component::Delegate::current_time(context)
    }
}

/// A registry that delegates the capability provides what its delegate provides.
impl<Context, Component> AuthTokenExpiryFetcher<Context> for Component where
    Context: HasAuthTokenType + HasTimeType,
    Component: DelegateComponent<AuthTokenExpiryFetcherComponent> + IsProviderFor<
        AuthTokenExpiryFetcherComponent,
        Context,
    >,
    Component::Delegate: AuthTokenExpiryFetcher<Context>,
 {
    open spec fn expiry(context: &Context, token: Seq<char>) -> Result<int, FailureView> {
        <Component::Delegate as AuthTokenExpiryFetcher<Context>>::expiry(context, token)
    }

    fn fetch_auth_token_expiry(context: &Context, auth_token: &Context::AuthToken) -> (out: Result<
        Context::Time,
        Failure,
    >) {
        Component::Delegate::fetch_auth_token_expiry(context, auth_token)
    }
}

/// A registry that delegates the capability provides what its delegate provides.
impl<Context, Component> AuthTokenValidator<Context> for Component where
    Context: HasAuthTokenType,
    Component: DelegateComponent<AuthTokenValidatorComponent> + IsProviderFor<
        AuthTokenValidatorComponent,
        Context,
    >,
    Component::Delegate: AuthTokenValidator<Context>,
 {
    open spec fn validated(context: &Context, token: Seq<char>) -> Result<(), FailureView> {
        <Component::Delegate as AuthTokenValidator<Context>>::validated(context, token)
    }

    fn validate_auth_token(context: &Context, auth_token: &Context::AuthToken) -> (out: Result<
        (),
        Failure,
    >) {
        Component::Delegate::validate_auth_token(context, auth_token)
    }
}

} // verus!
