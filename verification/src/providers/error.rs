//! The providers that raise and wrap.

use vstd::prelude::*;
use crate::component::IsProviderFor;
use crate::failure::{Failure, SourceError};
use crate::text::ToText;
use crate::traits::error::{ErrorRaiser, ErrorRaiserComponent, ErrorWrapper, ErrorWrapperComponent};

verus! {

/// Raises a source error by making it the cause of a new error.
pub struct RaiseFrom;

impl<Context, Source: SourceError> ErrorRaiser<Context, Source> for RaiseFrom {
    fn raise_error(source: Source) -> (failure: Failure) {
        Failure::raise(source.into_cause())
    }
}

impl<Context, Source: SourceError> IsProviderFor<ErrorRaiserComponent, Context, Source> for RaiseFrom {
}

/// Wraps an error with the line that a detail is written as.
pub struct WrapWithText;

impl<Context, Detail: ToText> ErrorWrapper<Context, Detail> for WrapWithText {
    fn wrap_error(failure: Failure, detail: Detail) -> (wrapped_failure: Failure) {
        failure.wrap(detail.to_text())
    }
}

impl<Context, Detail: ToText> IsProviderFor<ErrorWrapperComponent, Context, Detail> for WrapWithText {
}

} // verus!
