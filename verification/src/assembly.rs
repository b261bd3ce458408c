//! Symbolic assembly: the instructions of one function body before their
//! jumps are resolved.

use vstd::prelude::*;
use crate::error::{ErrorKind, ErrorKindView};
use crate::inst::{lowered_raw, Inst, UnitFn};
use crate::span::{Location, SourceId, Span};
use crate::text::{decimal, push_decimal, push_text};
use crate::debug::{DebugInstView, DebugLabel};
use std::collections::HashMap;

verus! {

/// A jump label. Its number is unique in the unit it belongs to.
#[derive(Clone, Copy, Debug, PartialEq, Eq)]
pub struct Label {
    /// The name of the label.
    pub name: &'static str,
    /// The number of the label.
    pub index: usize,
}

/// A symbolic instruction: a jump to a label, or an instruction that needs
/// no label.
#[derive(Clone, Copy, Debug, PartialEq, Eq)]
pub enum AssemblyInst {
    Jump { label: Label },
    JumpIf { label: Label },
    JumpIfOrPop { label: Label },
    JumpIfNotOrPop { label: Label },
    JumpIfBranch { branch: i64, label: Label },
    PopAndJumpIfNot { count: usize, label: Label },
    IterNext { offset: usize, label: Label },
    Raw { raw: Inst },
}

/// The label that a symbolic instruction jumps to, if it jumps.
pub open spec fn target_label(inst: AssemblyInst) -> Option<Label> {
    match inst {
        AssemblyInst::Jump { label } => Some(label),
        AssemblyInst::JumpIf { label } => Some(label),
        AssemblyInst::JumpIfOrPop { label } => Some(label),
        AssemblyInst::JumpIfNotOrPop { label } => Some(label),
        AssemblyInst::JumpIfBranch { branch, label } => Some(label),
        AssemblyInst::PopAndJumpIfNot { count, label } => Some(label),
        AssemblyInst::IterNext { offset, label } => Some(label),
        AssemblyInst::Raw { raw } => None,
    }
}

/// The final instruction for a symbolic one: a jump gets the target `jump`;
/// a call to a function that the table holds at an offset becomes a call by
/// offset; anything else stays as it is.
pub open spec fn resolved_inst(functions: Map<u64, UnitFn>, inst: AssemblyInst, jump: usize) -> Inst {
    match inst {
        AssemblyInst::Jump { label } => Inst::Jump { jump },
        AssemblyInst::JumpIf { label } => Inst::JumpIf { jump },
        AssemblyInst::JumpIfOrPop { label } => Inst::JumpIfOrPop { jump },
        AssemblyInst::JumpIfNotOrPop { label } => Inst::JumpIfNotOrPop { jump },
        AssemblyInst::JumpIfBranch { branch, label } => Inst::JumpIfBranch { branch, jump },
        AssemblyInst::PopAndJumpIfNot { count, label } => Inst::PopAndJumpIfNot { count, jump },
        AssemblyInst::IterNext { offset, label } => Inst::IterNext { offset, jump },
        AssemblyInst::Raw { raw } => lowered_raw(functions, raw),
    }
}

/// The text of a label: its name, an underscore and its number.
pub open spec fn label_text(label: Label) -> Seq<char> {
    label.name@ + seq!['_'] + decimal(label.index as nat)
}

/// A symbolic instruction with its span and an optional comment.
#[derive(Debug, PartialEq, Eq)]
pub struct AssemblyEntry {
    /// The instruction.
    pub inst: AssemblyInst,
    /// The span it was generated for.
    pub span: Span,
    /// A comment on it.
    pub comment: Option<String>,
}

/// A label bound to a position of the assembly.
#[derive(Clone, Copy, Debug, PartialEq, Eq)]
pub struct BoundLabel {
    /// The position: the number of instructions before the label.
    pub position: usize,
    /// The label.
    pub label: Label,
}

/// The position that the label with the given number is bound to: that of
/// its first binding.
pub open spec fn bound_at(labels: Seq<BoundLabel>, index: usize) -> Option<usize>
    decreases labels.len(),
{
    if labels.len() == 0 {
        None
    } else if labels[0].label.index == index {
        Some(labels[0].position)
    } else {
        bound_at(labels.drop_first(), index)
    }
}

/// The labels bound at `position`, each as its name and its number, in
/// the order of their binding.
pub open spec fn labels_at(labels: Seq<BoundLabel>, position: usize) -> Seq<(Seq<char>, usize)>
    decreases labels.len(),
{
    if labels.len() == 0 {
        Seq::empty()
    } else {
        let rest = labels_at(labels.drop_last(), position);
        if labels.last().position == position {
            rest.push((labels.last().label.name@, labels.last().label.index))
        } else {
            rest
        }
    }
}

/// The comment that the debug record of an instruction gets: for a jump
/// the word `label:` and the text of its label; then the comment of the
/// instruction itself, after `; ` where both are there; nothing where
/// that text is empty.
pub open spec fn debug_comment(entry: AssemblyEntry) -> Option<Seq<char>> {
    let label_part = match target_label(entry.inst) {
        Some(label) => "label:"@ + label_text(label),
        None => Seq::empty(),
    };
    let text = match entry.comment {
        Some(c) => if label_part.len() > 0 {
            label_part + "; "@ + c@
        } else {
            c@
        },
        None => label_part,
    };
    if text.len() == 0 {
        None
    } else {
        Some(text)
    }
}

/// The instructions of one function body with their labels.
#[derive(Debug, PartialEq, Eq)]
pub struct Assembly {
    /// Where the function body is.
    pub location: Location,
    /// The labels that are bound, in the order of their binding.
    pub labels: Vec<BoundLabel>,
    /// The instructions in source order.
    pub instructions: Vec<AssemblyEntry>,
    /// The number of the next label.
    pub label_count: usize,
}

impl Assembly {
    /// Whether the instruction at `i` jumps to a label that is bound
    /// nowhere.
    pub open spec fn is_unbound(&self, i: int) -> bool {
        target_label(self.instructions@[i].inst) matches Some(label) && bound_at(
            self.labels@,
            label.index,
        ) is None
    }

    /// The first instruction from `from` on that jumps to a label which is
    /// bound nowhere.
    pub open spec fn first_unbound(&self, from: int) -> Option<int>
        decreases self.instructions@.len() - from,
    {
        if from < 0 || from >= self.instructions@.len() {
            None
        } else if self.is_unbound(from) {
            Some(from)
        } else {
            self.first_unbound(from + 1)
        }
    }

    /// The absolute target of the jump at `i`, where the assembly starts
    /// at the offset `base`: the base and the position of the label.
    pub open spec fn jump_target(&self, base: usize, i: int) -> usize {
        match target_label(self.instructions@[i].inst) {
            Some(label) => match bound_at(self.labels@, label.index) {
                Some(position) => (base + position) as usize,
                None => 0,
            },
            None => 0,
        }
    }

    /// The final instruction for the one at `i`.
    pub open spec fn lowered_inst(&self, functions: Map<u64, UnitFn>, base: usize, i: int) -> Inst {
        resolved_inst(functions, self.instructions@[i].inst, self.jump_target(base, i))
    }

    /// The final instructions of the assembly, where it starts at the
    /// offset `base`.
    pub open spec fn lowered(&self, functions: Map<u64, UnitFn>, base: usize) -> Seq<Inst> {
        Seq::new(self.instructions@.len(), |i: int| self.lowered_inst(functions, base, i))
    }

    /// The debug record of the instruction at `i`.
    pub open spec fn debug_record(&self, source_id: SourceId, i: int) -> DebugInstView {
        DebugInstView {
            source_id,
            span: self.instructions@[i].span,
            comment: debug_comment(self.instructions@[i]),
            labels: labels_at(self.labels@, i as usize),
        }
    }

    /// No label is bound behind the last instruction's end, and no label
    /// is bound twice.
    pub open spec fn wf(&self) -> bool {
        &&& forall|i: int|
            0 <= i < self.labels@.len() ==> (#[trigger] self.labels@[i]).position
                <= self.instructions@.len()
        &&& forall|i: int, j: int|
            0 <= i < j < self.labels@.len() ==> (#[trigger] self.labels@[i]).label.index != (
            #[trigger] self.labels@[j]).label.index
    }

    /// An empty assembly whose labels are numbered from `label_count`.
    pub fn new(location: Location, label_count: usize) -> (assembly: Assembly)
        ensures
            assembly.wf(),
            assembly.location == location,
            assembly.labels@ == Seq::<BoundLabel>::empty(),
            assembly.instructions@ == Seq::<AssemblyEntry>::empty(),
            assembly.label_count == label_count,
    {
        Assembly { location, labels: Vec::new(), instructions: Vec::new(), label_count }
    }

    /// A new label that is not bound yet.
    pub fn new_label(&mut self, name: &'static str) -> (label: Label)
        requires
            old(self).label_count < usize::MAX,
        ensures
            label == (Label { name, index: old(self).label_count }),
            *final(self) == (Assembly { label_count: (old(self).label_count + 1) as usize, ..*old(self) }),
    {
        let label = Label { name, index: self.label_count };
        self.label_count = self.label_count + 1;
        label
    }

    /// The position that a label is bound to.
    pub fn jump_of(&self, label: Label) -> (r: Option<usize>)
        ensures
            r == bound_at(self.labels@, label.index),
    {
        let mut i: usize = 0;
        assert(self.labels@.skip(0) =~= self.labels@);
        while i < self.labels.len()
            invariant
                i <= self.labels.len(),
                bound_at(self.labels@, label.index) == bound_at(self.labels@.skip(i as int), label.index),
            decreases self.labels.len() - i,
        {
            if self.labels[i].label.index == label.index {
                return Some(self.labels[i].position);
            }
            proof {
                assert(self.labels@.skip(i as int).drop_first() =~= self.labels@.skip(i + 1));
            }
            i += 1;
        }
        None
    }

    /// Binds a label to the place behind the last instruction pushed so
    /// far. A label that is bound already is refused, and nothing changes.
    pub fn label(&mut self, label: Label) -> (r: Result<(), ErrorKind>)
        requires
            old(self).wf(),
        ensures
            final(self).wf(),
            bound_at(old(self).labels@, label.index) is Some ==> ({
                &&& r matches Err(e)
                &&& e@ == (ErrorKindView::DuplicateLabel { name: label.name@, index: label.index })
                &&& *final(self) == *old(self)
            }),
            bound_at(old(self).labels@, label.index) is None ==> ({
                &&& r is Ok
                &&& *final(self) == (Assembly { labels: final(self).labels, ..*old(self) })
                &&& final(self).labels@ == old(self).labels@.push(
                    BoundLabel { position: old(self).instructions@.len() as usize, label },
                )
            }),
    {
        if self.jump_of(label).is_some() {
            return Err(ErrorKind::DuplicateLabel { name: label.name, index: label.index });
        }
        proof {
            lemma_unbound_is_absent(self.labels@, label.index);
        }
        self.labels.push(BoundLabel { position: self.instructions.len(), label });
        Ok(())
    }

    /// Appends a symbolic instruction.
    pub fn push_entry(&mut self, inst: AssemblyInst, span: Span, comment: Option<String>)
        requires
            old(self).wf(),
        ensures
            final(self).wf(),
            *final(self) == (Assembly { instructions: final(self).instructions, ..*old(self) }),
            final(self).instructions@ == old(self).instructions@.push(AssemblyEntry { inst, span, comment }),
    {
        self.instructions.push(AssemblyEntry { inst, span, comment });
    }

    /// Appends a jump to `label`.
    pub fn jump(&mut self, label: Label, span: Span)
        requires
            old(self).wf(),
        ensures
            final(self).wf(),
            *final(self) == (Assembly { instructions: final(self).instructions, ..*old(self) }),
            final(self).instructions@ == old(self).instructions@.push(
                AssemblyEntry { inst: AssemblyInst::Jump { label }, span, comment: None },
            ),
    {
        self.push_entry(AssemblyInst::Jump { label }, span, None);
    }

    /// Appends a jump to `label` that is taken if the top of the stack is
    /// true.
    pub fn jump_if(&mut self, label: Label, span: Span)
        requires
            old(self).wf(),
        ensures
            final(self).wf(),
            *final(self) == (Assembly { instructions: final(self).instructions, ..*old(self) }),
            final(self).instructions@ == old(self).instructions@.push(
                AssemblyEntry { inst: AssemblyInst::JumpIf { label }, span, comment: None },
            ),
    {
        self.push_entry(AssemblyInst::JumpIf { label }, span, None);
    }

    /// Appends a jump to `label` that is taken if the top of the stack is
    /// true, and pops it otherwise.
    pub fn jump_if_or_pop(&mut self, label: Label, span: Span)
        requires
            old(self).wf(),
        ensures
            final(self).wf(),
            *final(self) == (Assembly { instructions: final(self).instructions, ..*old(self) }),
            final(self).instructions@ == old(self).instructions@.push(
                AssemblyEntry { inst: AssemblyInst::JumpIfOrPop { label }, span, comment: None },
            ),
    {
        self.push_entry(AssemblyInst::JumpIfOrPop { label }, span, None);
    }

    /// Appends a jump to `label` that is taken if the top of the stack is
    /// false, and pops it otherwise.
    pub fn jump_if_not_or_pop(&mut self, label: Label, span: Span)
        requires
            old(self).wf(),
        ensures
            final(self).wf(),
            *final(self) == (Assembly { instructions: final(self).instructions, ..*old(self) }),
            final(self).instructions@ == old(self).instructions@.push(
                AssemblyEntry { inst: AssemblyInst::JumpIfNotOrPop { label }, span, comment: None },
            ),
    {
        self.push_entry(AssemblyInst::JumpIfNotOrPop { label }, span, None);
    }

    /// Appends a jump to `label` that is taken if the top of the stack is
    /// the given branch.
    pub fn jump_if_branch(&mut self, branch: i64, label: Label, span: Span)
        requires
            old(self).wf(),
        ensures
            final(self).wf(),
            *final(self) == (Assembly { instructions: final(self).instructions, ..*old(self) }),
            final(self).instructions@ == old(self).instructions@.push(
                AssemblyEntry { inst: AssemblyInst::JumpIfBranch { branch, label }, span, comment: None },
            ),
    {
        self.push_entry(AssemblyInst::JumpIfBranch { branch, label }, span, None);
    }

    /// Appends an instruction that pops `count` values and jumps to `label`
    /// if the condition is false.
    pub fn pop_and_jump_if_not(&mut self, count: usize, label: Label, span: Span)
        requires
            old(self).wf(),
        ensures
            final(self).wf(),
            *final(self) == (Assembly { instructions: final(self).instructions, ..*old(self) }),
            final(self).instructions@ == old(self).instructions@.push(
                AssemblyEntry { inst: AssemblyInst::PopAndJumpIfNot { count, label }, span, comment: None },
            ),
    {
        self.push_entry(AssemblyInst::PopAndJumpIfNot { count, label }, span, None);
    }

    /// Appends an instruction that advances the iterator at `offset` and
    /// jumps to `label` when it is exhausted.
    pub fn iter_next(&mut self, offset: usize, label: Label, span: Span)
        requires
            old(self).wf(),
        ensures
            final(self).wf(),
            *final(self) == (Assembly { instructions: final(self).instructions, ..*old(self) }),
            final(self).instructions@ == old(self).instructions@.push(
                AssemblyEntry { inst: AssemblyInst::IterNext { offset, label }, span, comment: None },
            ),
    {
        self.push_entry(AssemblyInst::IterNext { offset, label }, span, None);
    }

    /// Appends an instruction that needs no label.
    pub fn push(&mut self, raw: Inst, span: Span)
        requires
            old(self).wf(),
        ensures
            final(self).wf(),
            *final(self) == (Assembly { instructions: final(self).instructions, ..*old(self) }),
            final(self).instructions@ == old(self).instructions@.push(
                AssemblyEntry { inst: AssemblyInst::Raw { raw }, span, comment: None },
            ),
    {
        self.push_entry(AssemblyInst::Raw { raw }, span, None);
    }

    /// Appends an instruction that needs no label, with a comment.
    pub fn push_with_comment(&mut self, raw: Inst, span: Span, comment: String)
        requires
            old(self).wf(),
        ensures
            final(self).wf(),
            *final(self) == (Assembly { instructions: final(self).instructions, ..*old(self) }),
            final(self).instructions@ == old(self).instructions@.push(
                AssemblyEntry { inst: AssemblyInst::Raw { raw }, span, comment: Some(comment) },
            ),
    {
        self.push_entry(AssemblyInst::Raw { raw }, span, Some(comment));
    }
}

/// A label that is bound nowhere has no binding in the list.
pub proof fn lemma_unbound_is_absent(labels: Seq<BoundLabel>, index: usize)
    requires
        bound_at(labels, index) is None,
    ensures
        forall|i: int| 0 <= i < labels.len() ==> (#[trigger] labels[i]).label.index != index,
    decreases labels.len(),
{
    if labels.len() > 0 {
        lemma_unbound_is_absent(labels.drop_first(), index);
        assert forall|i: int| 0 <= i < labels.len() implies (#[trigger] labels[i]).label.index
            != index by {
            if i > 0 {
                assert(labels[i] == labels.drop_first()[i - 1]);
            }
        }
    }
}

/// The label that a symbolic instruction jumps to, if it jumps.
pub fn label_of(inst: &AssemblyInst) -> (r: Option<Label>)
    ensures
        r == target_label(*inst),
{
    match inst {
        AssemblyInst::Jump { label } => Some(*label),
        AssemblyInst::JumpIf { label } => Some(*label),
        AssemblyInst::JumpIfOrPop { label } => Some(*label),
        AssemblyInst::JumpIfNotOrPop { label } => Some(*label),
        AssemblyInst::JumpIfBranch { branch, label } => Some(*label),
        AssemblyInst::PopAndJumpIfNot { count, label } => Some(*label),
        AssemblyInst::IterNext { offset, label } => Some(*label),
        AssemblyInst::Raw { raw } => None,
    }
}

/// The final instruction for a symbolic one.
pub fn resolve(functions: &HashMap<u64, UnitFn>, inst: &AssemblyInst, jump: usize) -> (r: Inst)
    ensures
        r == resolved_inst(functions@, *inst, jump),
{
    match inst {
        AssemblyInst::Jump { label } => Inst::Jump { jump },
        AssemblyInst::JumpIf { label } => Inst::JumpIf { jump },
        AssemblyInst::JumpIfOrPop { label } => Inst::JumpIfOrPop { jump },
        AssemblyInst::JumpIfNotOrPop { label } => Inst::JumpIfNotOrPop { jump },
        AssemblyInst::JumpIfBranch { branch, label } => Inst::JumpIfBranch { branch: *branch, jump },
        AssemblyInst::PopAndJumpIfNot { count, label } => Inst::PopAndJumpIfNot { count: *count, jump },
        AssemblyInst::IterNext { offset, label } => Inst::IterNext { offset: *offset, jump },
        AssemblyInst::Raw { raw } => match raw {
            Inst::Call { hash, args } => match functions.get(&hash.0) {
                Some(UnitFn::Offset { offset, call, args: _ }) => Inst::CallOffset {
                    offset: *offset,
                    call: *call,
                    args: *args,
                },
                _ => *raw,
            },
            _ => *raw,
        },
    }
}

/// The comment for the debug record of an instruction.
pub fn comment_of(entry: &AssemblyEntry) -> (r: Option<String>)
    ensures
        match debug_comment(*entry) {
            Some(text) => r matches Some(c) && c@ == text,
            None => r is None,
        },
{
    let mut comment = String::new();
    if let Some(label) = label_of(&entry.inst) {
        push_text(&mut comment, "label:");
        push_text(&mut comment, label.name);
        push_text(&mut comment, "_");
        push_decimal(&mut comment, label.index as u64);
        proof {
            reveal_strlit("_");
            reveal_strlit("label:");
            assert(comment@ =~= "label:"@ + label_text(label));
            assert(comment@.len() > 0);
        }
    }
    if let Some(c) = &entry.comment {
        if !comment.as_str().is_empty() {
            let ghost before = comment@;
            push_text(&mut comment, "; ");
            push_text(&mut comment, c.as_str());
            assert(comment@ =~= before + "; "@ + c@);
        } else {
            push_text(&mut comment, c.as_str());
            assert(comment@ =~= c@);
        }
    }
    if comment.as_str().is_empty() {
        None
    } else {
        Some(comment)
    }
}

/// The labels bound at a position, for the debug record.
pub fn debug_labels(labels: &Vec<BoundLabel>, position: usize) -> (r: Vec<DebugLabel>)
    ensures
        r@.map_values(|l: DebugLabel| l@) == labels_at(labels@, position),
{
    let mut out: Vec<DebugLabel> = Vec::new();
    let mut i: usize = 0;
    assert(out@.map_values(|l: DebugLabel| l@) =~= labels_at(labels@.take(0), position));
    while i < labels.len()
        invariant
            i <= labels.len(),
            out@.map_values(|l: DebugLabel| l@) == labels_at(labels@.take(i as int), position),
        decreases labels.len() - i,
    {
        proof {
            assert(labels@.take(i + 1).drop_last() =~= labels@.take(i as int));
        }
        let ghost before = out@;
        if labels[i].position == position {
            out.push(DebugLabel { name: labels[i].label.name, index: labels[i].label.index });
            assert(out@.map_values(|l: DebugLabel| l@) =~= before.map_values(|l: DebugLabel| l@).push(
                (labels@[i as int].label.name@, labels@[i as int].label.index),
            ));
        }
        i += 1;
    }
    assert(labels@.take(labels.len() as int) =~= labels@);
    out
}

} // verus!
