//! The deferred annotation constructor, and the label-less wrapper variant.

use vstd::prelude::*;

use crate::ea::ErrorAnnotation;
use crate::render::Render;
use crate::render::info_text;

verus! {

/// Capture diagnostic information in a closure that extends a source error
/// type into a wrapping [`ErrorAnnotation`].
///
/// `annotate` captures a `label` and a diagnostic `info` construction closure,
/// `mkinfo`, returning a closure that creates an [`ErrorAnnotation`] given a
/// source error of type `S`. This makes it ergonomic as the parameter to
/// `Result::map_err`.
///
/// `mkinfo` defers the construction of the diagnostic `info` until the error
/// case is encountered: the returned closure invokes it exactly once, and only
/// when it is itself applied to an actual failure value.
pub fn annotate<S, F, I>(label: &'static str, mkinfo: F) -> (g: impl FnOnce(S) -> ErrorAnnotation<
    S,
    I,
>) where F: FnOnce() -> I
    ensures
        call_requires(mkinfo, ()) ==> forall|s: S| call_requires(g, (s,)),
        forall|s: S, r: ErrorAnnotation<S, I>|
            #[trigger] call_ensures(g, (s,), r) ==> (r.source == s && r.label == label
                && call_ensures(mkinfo, (), r.info)),
{
    move |source: S| -> (r: ErrorAnnotation<S, I>)
        requires
            call_requires(mkinfo, ()),
        ensures
            r.source == source && r.label == label && call_ensures(mkinfo, (), r.info),
        {
            ErrorAnnotation { source, label, info: mkinfo() }
        }
}

/// A label-less annotation wrapper: a source error together with one piece
/// of diagnostic info, rendered as `"{source}\nInfo: {info}"`.
#[derive(Debug)]
pub struct Annotate<S, I> {
    pub source: S,
    pub info: I,
}

impl<S, I> Annotate<S, I> {
    /// Run a fallible computation on `info`; on failure, wrap the failure
    /// together with that same `info`.
    pub fn within<T, F>(info: I, f: F) -> (r: Result<T, Annotate<S, I>>) where
        I: Copy,
        F: FnOnce(I) -> Result<T, S>,

        requires
            call_requires(f, (info,)),
        ensures
            r is Ok ==> call_ensures(f, (info,), Ok(r->Ok_0)),
            r is Err ==> r->Err_0.info == info && call_ensures(
                f,
                (info,),
                Err(r->Err_0.source),
            ),
    {
        match f(info) {
            Ok(t) => Ok(t),
            Err(source) => Err(Annotate { source, info }),
        }
    }
}

impl<S: Render, I: Render> Render for Annotate<S, I> {
    /// A label-less wrapper renders as its source's text followed by one
    /// `"Info: "` line: `"{source}\nInfo: {info}"`.
    open spec fn text(&self) -> Seq<char> {
        info_text(self.source.text(), self.info.text())
    }

    fn render(&self) -> (s: String)
        ensures
            s@ == self.text(),
    {
        let mut s = self.source.render();
        s.append("\nInfo: ");
        let info = self.info.render();
        s.append(info.as_str());
        proof {
            assert(s@ =~= self.text());
        }
        s
    }
}

} // verus!
