//! The result-extension contract: annotating a failure fluently at the call
//! site, with or without folding back into the failure's own type.

use vstd::prelude::*;

use crate::annotatable::Annotatable;
use crate::annotate::annotate;
use crate::ea::ErrorAnnotation;
use crate::render::Render;
use crate::render::annotation_text;

verus! {

/// A trait to extend `Result` with convenient annotation methods. This is the
/// recommended interface for annotating errors directly on `Result` values.
///
/// Both methods leave a success untouched and never invoke the deferred info
/// producer on the success path: the producer's precondition is only required
/// of callers that may hold a failure.
pub trait AnnotateResult<T, E>: Sized {
    /// Whether this value is a success.
    spec fn is_success(&self) -> bool;

    /// The success value, when this value is a success.
    spec fn success(&self) -> T;

    /// The failure value, when this value is a failure.
    spec fn failure(&self) -> E;

    /// Extend an `Err` source error with labeled diagnostics into an
    /// [`ErrorAnnotation`]; return an `Ok` unchanged.
    ///
    /// The deferred producer `mkinfo` is invoked exactly once, and only when
    /// the value is a failure: the wrapper's `source` is the original failure
    /// and its `info` is the producer's output.
    fn annotate_err<F, I>(self, label: &'static str, mkinfo: F) -> (r: Result<
        T,
        ErrorAnnotation<E, I>,
    >) where F: FnOnce() -> I
        requires
            !self.is_success() ==> call_requires(mkinfo, ()),
        ensures
            self.is_success() ==> r == Result::<T, ErrorAnnotation<E, I>>::Ok(self.success()),
            !self.is_success() ==> r is Err && r->Err_0.source == self.failure()
                && r->Err_0.label == label && call_ensures(mkinfo, (), r->Err_0.info),
    ;

    /// Extend an `Err` source error with labeled diagnostics and fold the
    /// annotation straight back into the same error type, provided it
    /// implements [`Annotatable`]; return an `Ok` unchanged.
    ///
    /// The failure that comes back keeps the original failure's category, and
    /// its text is the original failure's text followed by one labeled
    /// annotation line holding the producer's output.
    fn annotate_err_into<F, I>(self, label: &'static str, mkinfo: F) -> (r: Result<T, E>) where
        E: Annotatable,
        F: FnOnce() -> I,
        I: Render,

        requires
            !self.is_success() ==> call_requires(mkinfo, ()),
        ensures
            self.is_success() ==> r == Result::<T, E>::Ok(self.success()),
            !self.is_success() ==> r is Err && r->Err_0.category() == self.failure().category()
                && exists|i: I|
                call_ensures(mkinfo, (), i) && r->Err_0.text() == annotation_text(
                    self.failure().text(),
                    label@,
                    i.text(),
                ),
    ;
}

impl<T, E> AnnotateResult<T, E> for Result<T, E> {
    open spec fn is_success(&self) -> bool {
        self is Ok
    }

    open spec fn success(&self) -> T {
        self->Ok_0
    }

    open spec fn failure(&self) -> E {
        self->Err_0
    }

    fn annotate_err<F, I>(self, label: &'static str, mkinfo: F) -> (r: Result<
        T,
        ErrorAnnotation<E, I>,
    >) where F: FnOnce() -> I {
        self.map_err(annotate(label, mkinfo))
    }

    fn annotate_err_into<F, I>(self, label: &'static str, mkinfo: F) -> (r: Result<T, E>) where
        E: Annotatable,
        F: FnOnce() -> I,
        I: Render,
     {
        match self.annotate_err(label, mkinfo) {
            Ok(t) => Ok(t),
            Err(ea) => Err(E::merge_annotation(ea)),
        }
    }
}

} // verus!
