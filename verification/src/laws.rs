//! Laws of the annotation text layout, proved once for every source, label
//! and info.

use vstd::prelude::*;

use crate::render::annotation_line;
use crate::render::annotation_text;
use crate::render::info_text;

verus! {

/// A wrapper only adds context: its rendering always begins with the
/// rendering of its source, in both the labeled and the label-less layout.
pub proof fn lemma_text_begins_with_source(source: Seq<char>, label: Seq<char>, info: Seq<char>)
    ensures
        annotation_text(source, label, info).len() >= source.len(),
        annotation_text(source, label, info).subrange(0, source.len() as int) =~= source,
        info_text(source, info).len() >= source.len(),
        info_text(source, info).subrange(0, source.len() as int) =~= source,
{
}

/// Chained annotation accumulates in call order: annotating an already
/// annotated text appends the new line below the prior rendering, so the
/// source text keeps its lines in the order the annotations were applied.
pub proof fn lemma_annotation_order(
    source: Seq<char>,
    label1: Seq<char>,
    info1: Seq<char>,
    label2: Seq<char>,
    info2: Seq<char>,
)
    ensures
        annotation_text(annotation_text(source, label1, info1), label2, info2) =~= source
            + annotation_line(label1, info1) + annotation_line(label2, info2),
{
}

/// Annotation is not idempotent: annotating twice with the same label and
/// info stacks two annotation lines, and never equals annotating once.
pub proof fn lemma_annotation_stacks(source: Seq<char>, label: Seq<char>, info: Seq<char>)
    ensures
        annotation_text(annotation_text(source, label, info), label, info) =~= source
            + annotation_line(label, info) + annotation_line(label, info),
        annotation_text(annotation_text(source, label, info), label, info) != annotation_text(
            source,
            label,
            info,
        ),
{
    lemma_annotation_order(source, label, info, label, info);
    reveal_strlit("\n-with ");
    reveal_strlit(": ");
    assert(annotation_line(label, info).len() > 0);
}

} // verus!
