//! Raising a source error into the unified error, and wrapping the unified
//! error with a detail. Both are looked up by type: raising by the type of the
//! source error, wrapping by the type of the detail.

use vstd::prelude::*;
use crate::component::{DelegateComponent, HasProvider, IsProviderFor, UseDelegate};
use crate::failure::{raised, wrapped, Failure, SourceError};
use crate::text::ToText;

verus! {

/// The name of the capability to raise source errors.
pub struct ErrorRaiserComponent;

/// The name of the capability to wrap errors with details.
pub struct ErrorWrapperComponent;

/// A context that can raise source errors of the type `Source`.
pub trait CanRaiseError<Source: SourceError> {
    /// Raises `source` into the unified error, which keeps all of it.
    fn raise_error(source: Source) -> (failure: Failure)
        ensures
            failure@ == raised(source.cause()),
    ;
}

/// A context that can wrap errors with details of the type `Detail`.
pub trait CanWrapError<Detail: ToText> {
    /// Attaches `detail` to `failure`, outside of what was attached before.
    fn wrap_error(failure: Failure, detail: Detail) -> (wrapped_failure: Failure)
        ensures
            wrapped_failure@ == wrapped(failure@, detail.text()),
    ;
}

/// A provider that raises source errors of the type `Source` for contexts.
pub trait ErrorRaiser<Context, Source: SourceError>: IsProviderFor<
    ErrorRaiserComponent,
    Context,
    Source,
> {
    /// Raises `source` into the unified error, which keeps all of it.
    fn raise_error(source: Source) -> (failure: Failure)
        ensures
            failure@ == raised(source.cause()),
    ;
}

/// A provider that wraps errors with details of the type `Detail` for contexts.
pub trait ErrorWrapper<Context, Detail: ToText>: IsProviderFor<
    ErrorWrapperComponent,
    Context,
    Detail,
> {
    /// Attaches `detail` to `failure`, outside of what was attached before.
    fn wrap_error(failure: Failure, detail: Detail) -> (wrapped_failure: Failure)
        ensures
            wrapped_failure@ == wrapped(failure@, detail.text()),
    ;
}

/// A context has the capability that its registry provides for it.
impl<Context, Source> CanRaiseError<Source> for Context where
    Source: SourceError,
    Context: HasProvider,
    Context::Provider: ErrorRaiser<Context, Source>,
 {
    fn raise_error(source: Source) -> (failure: Failure) {
        Context::Provider::raise_error(source)
    }
}

/// A context has the capability that its registry provides for it.
impl<Context, Detail> CanWrapError<Detail> for Context where
    Detail: ToText,
    Context: HasProvider,
    Context::Provider: ErrorWrapper<Context, Detail>,
 {
    fn wrap_error(failure: Failure, detail: Detail) -> (wrapped_failure: Failure) {
        Context::Provider::wrap_error(failure, detail)
    }
}

/// A registry that delegates the capability provides what its delegate provides.
impl<Context, Component, Source> ErrorRaiser<Context, Source> for Component where
    Source: SourceError,
    Component: DelegateComponent<ErrorRaiserComponent> + IsProviderFor<
        ErrorRaiserComponent,
        Context,
        Source,
    >,
    Component::Delegate: ErrorRaiser<Context, Source>,
 {
    fn raise_error(source: Source) -> (failure: Failure) {
        Component::Delegate::raise_error(source)
    }
}

/// A registry that delegates the capability provides what its delegate provides.
impl<Context, Component, Detail> ErrorWrapper<Context, Detail> for Component where
    Detail: ToText,
    Component: DelegateComponent<ErrorWrapperComponent> + IsProviderFor<
        ErrorWrapperComponent,
        Context,
        Detail,
    >,
    Component::Delegate: ErrorWrapper<Context, Detail>,
 {
    fn wrap_error(failure: Failure, detail: Detail) -> (wrapped_failure: Failure) {
        Component::Delegate::wrap_error(failure, detail)
    }
}

/// Raising by table: the raiser for `Source` is the entry of `Table` under
/// `Source`.
impl<Context, Source, Table> ErrorRaiser<Context, Source> for UseDelegate<Table> where
    Source: SourceError,
    Table: DelegateComponent<Source>,
    Table::Delegate: ErrorRaiser<Context, Source>,
 {
    fn raise_error(source: Source) -> (failure: Failure) {
        Table::Delegate::raise_error(source)
    }
}

impl<Context, Source, Table> IsProviderFor<ErrorRaiserComponent, Context, Source> for UseDelegate<
    Table,
> where
    Source: SourceError,
    Table: DelegateComponent<Source>,
    Table::Delegate: ErrorRaiser<Context, Source>,
 {
}

/// Wrapping by table: the wrapper for `Detail` is the entry of `Table` under
/// `Detail`.
impl<Context, Detail, Table> ErrorWrapper<Context, Detail> for UseDelegate<Table> where
    Detail: ToText,
    Table: DelegateComponent<Detail>,
    Table::Delegate: ErrorWrapper<Context, Detail>,
 {
    fn wrap_error(failure: Failure, detail: Detail) -> (wrapped_failure: Failure) {
        Table::Delegate::wrap_error(failure, detail)
    }
}

impl<Context, Detail, Table> IsProviderFor<ErrorWrapperComponent, Context, Detail> for UseDelegate<
    Table,
> where
    Detail: ToText,
    Table: DelegateComponent<Detail>,
    Table::Delegate: ErrorWrapper<Context, Detail>,
 {
}

} // verus!
