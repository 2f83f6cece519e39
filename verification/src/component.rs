//! How a context finds the provider of a capability.
//!
//! A context names one registry, its provider. For each capability the
//! registry is either the provider itself or delegates to another one, and so
//! on until a provider answers. All of it is decided by the types, before the
//! program runs: a capability that no provider answers for a context is a
//! capability that the context has not, and a call of it does not compile.

use vstd::prelude::*;
use std::marker::PhantomData;

verus! {

/// A context: it has one registry of providers.
pub trait HasProvider {
    /// The registry.
    type Provider;
}

/// Marks `Self` as a provider of `Component` for `Context`. `Params` is the
/// key, for a capability that is looked up by a further type.
///
/// Every provider trait has this one as its supertrait, so that an entry of a
/// registry whose prerequisites the context does not meet is refused where the
/// entry is declared.
pub trait IsProviderFor<Component, Context, Params = ()> {
}

/// An entry of a registry: for the capability, or the key, `Name` the
/// registry delegates to `Delegate`.
pub trait DelegateComponent<Name> {
    /// The provider, or the next registry, that answers for `Name`.
    type Delegate;
}

/// Holds of a context whose registry provides `Component` for it.
pub trait CanUseComponent<Component, Params = ()> {
}

impl<Context, Component, Params> CanUseComponent<Component, Params> for Context where
    Context: HasProvider,
    Context::Provider: IsProviderFor<Component, Context, Params>,
 {
}

/// A provider that looks the answer up in `Table` by the key of the
/// capability: the type of the source error for raising, the type of the
/// detail for wrapping.
pub struct UseDelegate<Table>(pub PhantomData<Table>);

/// A context that has a field under the tag `Tag`.
pub trait HasField<Tag> {
    /// The type of what the field holds.
    type Field;

    /// What the field holds.
    spec fn field(&self) -> Self::Field;

    /// Reads the field.
    fn get_field(&self, tag: PhantomData<Tag>) -> (field: &Self::Field)
        ensures
            *field == self.field(),
    ;
}

/// A provider that answers by reading the field under the tag `Tag`.
pub struct UseField<Tag>(pub PhantomData<Tag>);

} // verus!
