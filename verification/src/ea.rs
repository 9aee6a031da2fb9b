//! The annotation wrapper: a source failure enriched with one labeled
//! piece of diagnostic information.

use vstd::prelude::*;

use crate::render::Render;
use crate::render::annotation_text;

verus! {

/// Combine a source error with labeled diagnostic information.
///
/// `ErrorAnnotation` combines a `source` error of type `S` with diagnostic
/// `info` of type `I` which is labeled with `label` when rendered as text.
#[derive(Debug)]
pub struct ErrorAnnotation<S, I> {
    pub source: S,
    pub label: &'static str,
    pub info: I,
}

impl<S, I> ErrorAnnotation<S, I> {
    /// Transform the source while leaving the annotated info untouched.
    pub fn map_source<F, T>(self, f: F) -> (r: ErrorAnnotation<T, I>) where
        F: FnOnce(S) -> T,
        requires
            call_requires(f, (self.source,)),
        ensures
            call_ensures(f, (self.source,), r.source),
            r.label == self.label,
            r.info == self.info,
    {
        ErrorAnnotation { source: f(self.source), label: self.label, info: self.info }
    }

    /// Transform the info with a new label, leaving the original source untouched.
    pub fn map_info<F, J>(self, f: F) -> (r: ErrorAnnotation<S, J>) where
        F: FnOnce(I) -> (&'static str, J),

        requires
            call_requires(f, (self.info,)),
        ensures
            call_ensures(f, (self.info,), (r.label, r.info)),
            r.source == self.source,
    {
        let (label, info) = f(self.info);
        ErrorAnnotation { source: self.source, label, info }
    }
}

impl<S: Render, I: Render> Render for ErrorAnnotation<S, I> {
    /// A wrapper renders as its source's text followed by one labeled
    /// annotation line: `"{source}\n-with {label}: {info}"`.
    open spec fn text(&self) -> Seq<char> {
        annotation_text(self.source.text(), self.label@, self.info.text())
    }

    fn render(&self) -> (s: String)
        ensures
            s@ == self.text(),
    {
        let mut s = self.source.render();
        s.append("\n-with ");
        s.append(self.label);
        s.append(": ");
        let info = self.info.render();
        s.append(info.as_str());
        proof {
            assert(s@ =~= self.text());
        }
        s
    }
}

} // verus!
