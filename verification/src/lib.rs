//! Attach labeled diagnostic context to failure values as they propagate,
//! without changing the failure's structural type at every call site.
//!
//! The pieces compose in dependency order: [`ErrorAnnotation`] wraps a source
//! failure together with one labeled piece of diagnostic info; [`annotate`]
//! builds such a wrapper from a deferred info producer that runs only when a
//! failure is actually observed; [`AnnotateResult`] extends `Result` so the
//! annotation can be applied fluently at the call site; and [`Annotatable`]
//! lets a failure type fold each annotation straight back into itself, so the
//! propagated type never changes while its rendered text accumulates one
//! labeled line per annotation, in application order.
//!
//! Every operation carries a contract: a success is returned unchanged, a
//! failure keeps its identity (and, under fold-back, its category), and the
//! rendered text is pinned down exactly as
//! `"{source}\n-with {label}: {info}"` — or `"{source}\nInfo: {info}"` for
//! the label-less [`Annotate`] variant.

mod annotatable;
mod annotate;
mod annres;
mod ea;
mod laws;
mod render;

pub use crate::annotatable::Annotatable;
pub use crate::annotatable::IoError;
pub use crate::annotatable::IoErrorKind;
pub use crate::annotate::Annotate;
pub use crate::annotate::annotate;
pub use crate::annres::AnnotateResult;
pub use crate::ea::ErrorAnnotation;
pub use crate::laws::lemma_annotation_order;
pub use crate::laws::lemma_annotation_stacks;
pub use crate::laws::lemma_text_begins_with_source;
pub use crate::render::Render;
pub use crate::render::annotation_line;
pub use crate::render::annotation_text;
pub use crate::render::info_text;
pub use crate::render::u64_to_decimal;
