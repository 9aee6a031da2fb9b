//! Fold-back support: collapsing an annotation wrapper into the source
//! failure's own type.

use vstd::prelude::*;

use crate::ea::ErrorAnnotation;
use crate::render::Render;
use crate::render::annotation_text;

verus! {

/// An `Annotatable` error type can convert an [`ErrorAnnotation`] with `Self`
/// as the source type back into `Self`, provided the annotated `info` can be
/// rendered.
///
/// Errors which implement `Annotatable` allow code to introduce annotations
/// without the various diagnostic payloads resulting in a plethora of uniquely
/// parameterized `ErrorAnnotation` types. This can be convenient, for example,
/// to prevent `ErrorAnnotation` types from leaking out into a crate's
/// interface, so that consumers need only handle common base error types.
///
/// The conversion keeps the failure's category and replaces its text with the
/// wrapper's full rendering, so repeated annotation accumulates one labeled
/// line per annotation while the failure's type stays fixed. It is typically
/// reached via `AnnotateResult::annotate_err_into`.
pub trait Annotatable: Render + Sized {
    /// The failure-category metadata that fold-back preserves, as a code.
    spec fn category(&self) -> int;

    /// Fold an annotation on `Self` back into `Self`: the result keeps the
    /// source's category, and its text is the wrapper's full rendering.
    fn merge_annotation<I: Render>(ea: ErrorAnnotation<Self, I>) -> (r: Self)
        ensures
            r.category() == ea.source.category(),
            r.text() == annotation_text(ea.source.text(), ea.label@, ea.info.text()),
    ;
}

/// The category of an I/O-style failure, mirroring the common platform
/// error kinds the library's users care about.
#[derive(Clone, Copy, Debug, PartialEq, Eq, Structural)]
pub enum IoErrorKind {
    NotFound,
    PermissionDenied,
    AlreadyExists,
    InvalidInput,
    Other,
}

impl IoErrorKind {
    /// A distinct code for each category, so that category preservation can
    /// be stated uniformly through [`Annotatable::category`].
    pub open spec fn code(self) -> int {
        match self {
            IoErrorKind::NotFound => 1,
            IoErrorKind::PermissionDenied => 2,
            IoErrorKind::AlreadyExists => 3,
            IoErrorKind::InvalidInput => 4,
            IoErrorKind::Other => 5,
        }
    }
}

/// An I/O-style failure: a category plus a display message. It stands for
/// the platform I/O error in verified code, which reads exactly these two
/// things of one; unverified callers convert at the boundary.
#[derive(Debug)]
pub struct IoError {
    pub kind: IoErrorKind,
    pub message: String,
}

impl IoError {
    /// Build a failure from a category and a display message.
    pub fn new(kind: IoErrorKind, message: String) -> (r: IoError)
        ensures
            r.kind == kind,
            r.message == message,
    {
        IoError { kind, message }
    }

    /// The failure's category.
    pub fn kind(&self) -> (k: IoErrorKind)
        ensures
            k == self.kind,
    {
        self.kind
    }
}

impl Render for IoError {
    /// An I/O-style failure renders as its message.
    open spec fn text(&self) -> Seq<char> {
        self.message@
    }

    fn render(&self) -> (s: String)
        ensures
            s@ == self.text(),
    {
        self.message.clone()
    }
}

impl Annotatable for IoError {
    open spec fn category(&self) -> int {
        self.kind.code()
    }

    /// Folding keeps the category and replaces the message with the
    /// wrapper's full rendering.
    fn merge_annotation<I: Render>(ea: ErrorAnnotation<Self, I>) -> (r: Self)
        ensures
            r.category() == ea.source.category(),
            r.text() == annotation_text(ea.source.text(), ea.label@, ea.info.text()),
    {
        let kind = ea.source.kind;
        let message = ea.render();
        IoError { kind, message }
    }
}

} // verus!
