//! What holds of the assembler.

use vstd::prelude::*;
use crate::assemble::assembler::define;
use crate::assemble::assembler::initial_labels;
use crate::assemble::assembler::pass_start;
use crate::assemble::assembler::spec_assemble;
use crate::assemble::assembler::spec_line;
use crate::assemble::assembler::spec_pass_prefix;
use crate::assemble::assembler::spec_resolve;
use crate::assemble::assembler::spec_single_pass;
use crate::assemble::assembler::PassState;
use crate::assemble::assembler::MAX_PASSES;
use crate::assemble::error_on;
use crate::assemble::heal::HealStrategy;
use crate::assemble::AssemblerErrorView;
use crate::assemble::LineErrorView;
use crate::assemble::syntax::AsmLineView;
use crate::assemble::syntax::AsmLineContentsView;

verus! {

/// The name that a line defines, as a label or by `EQU`, if it defines one.
pub open spec fn defined_name(line: AsmLineView) -> Option<Seq<char>> {
    match line.contents {
        AsmLineContentsView::Label(name) => Some(name),
        AsmLineContentsView::Equ(name, _) => Some(name),
        _ => None,
    }
}

/// Whether one of the first `count` lines defines `name`.
pub open spec fn defines(lines: Seq<AsmLineView>, count: nat, name: Seq<char>) -> bool {
    exists|i: int| 0 <= i < count && #[trigger] defined_name(lines[i]) == Some(name)
}

/// The names that the lines define.
pub open spec fn defined_names(lines: Seq<AsmLineView>) -> Set<Seq<char>> {
    Set::new(|name: Seq<char>| defines(lines, lines.len(), name))
}

/// The initial table holds exactly the names that the lines define.
pub proof fn lemma_initial_labels(lines: Seq<AsmLineView>, count: nat, name: Seq<char>)
    requires
        count <= lines.len(),
    ensures
        initial_labels(lines, count).contains_key(name) <==> defines(lines, count, name),
    decreases count,
{
    if count > 0 {
        let fewer = (count - 1) as nat;
        lemma_initial_labels(lines, fewer, name);
        if initial_labels(lines, count).contains_key(name) {
            if initial_labels(lines, fewer).contains_key(name) {
                let i = choose|i: int|
                    0 <= i < fewer && #[trigger] defined_name(lines[i]) == Some(name);
                assert(defined_name(lines[i]) == Some(name));
            } else {
                assert(defined_name(lines[count - 1]) == Some(name));
            }
        }
        if defines(lines, count, name) {
            let i = choose|i: int| 0 <= i < count && #[trigger] defined_name(lines[i]) == Some(name);
            if i < count - 1 {
                assert(defined_name(lines[i]) == Some(name));
                assert(defines(lines, fewer, name));
            } else {
                assert(defined_name(lines[count - 1]) == Some(name));
            }
        }
    }
}

/// A pass over lines whose names the table holds leaves the domain of the
/// table as it is; and if it notes no change, it leaves the table as it is.
pub proof fn lemma_pass_keeps_labels(
    lines: Seq<AsmLineView>,
    heal: HealStrategy,
    start: PassState,
    count: nat,
)
    requires
        count <= lines.len(),
        forall|i: int|
            0 <= i < count && defined_name(#[trigger] lines[i]) is Some
                ==> start.labels.contains_key(defined_name(lines[i])->Some_0),
        spec_pass_prefix(lines, heal, start, count) is Ok,
    ensures
        spec_pass_prefix(lines, heal, start, count)->Ok_0.labels.dom() == start.labels.dom(),
        start.changed ==> spec_pass_prefix(lines, heal, start, count)->Ok_0.changed,
        !spec_pass_prefix(lines, heal, start, count)->Ok_0.changed ==> spec_pass_prefix(
            lines,
            heal,
            start,
            count,
        )->Ok_0.labels == start.labels,
    decreases count,
{
    if count > 0 {
        lemma_pass_keeps_labels(lines, heal, start, (count - 1) as nat);
        let before = spec_pass_prefix(lines, heal, start, (count - 1) as nat)->Ok_0;
        let after = spec_pass_prefix(lines, heal, start, count)->Ok_0;
        let line = lines[count - 1];
        assert(spec_line(before, heal, line) == Ok::<PassState, crate::assemble::AssemblerErrorView>(after));
        match defined_name(line) {
            Some(name) => {
                assert(start.labels.contains_key(name));
                assert(before.labels.dom().contains(name));
                assert(after.labels.dom() =~= before.labels.dom());
                if !after.changed {
                    assert(after.labels =~= before.labels);
                }
            },
            None => {},
        }
    }
}

/// Whether an error is that of a pass under some table of labels.
pub open spec fn is_pass_error(lines: Seq<AsmLineView>, heal: HealStrategy, error: AssemblerErrorView)
    -> bool {
    exists|labels: Map<Seq<char>, u32>|
        (#[trigger] spec_single_pass(lines, heal, labels)) is Err && spec_single_pass(
            lines,
            heal,
            labels,
        )->Err_0 == error
}

/// The assembler converges or gives up: where it succeeds, it has made at
/// least one pass and at most ten; where it fails, a pass has failed with
/// that error, or ten passes have not been enough, and the error is
/// `TooManyPasses`.
pub proof fn lemma_assemble_passes(lines: Seq<AsmLineView>, heal: HealStrategy)
    ensures
        spec_assemble(lines, heal) is Ok ==> 1 <= spec_assemble(lines, heal)->Ok_0.passes
            <= MAX_PASSES,
        spec_assemble(lines, heal) is Err ==> spec_assemble(lines, heal)->Err_0 == error_on(
            0,
            LineErrorView::TooManyPasses,
        ) || is_pass_error(lines, heal, spec_assemble(lines, heal)->Err_0),
{
    lemma_resolve_passes(lines, heal, initial_labels(lines, lines.len()), 0);
}

proof fn lemma_resolve_passes(
    lines: Seq<AsmLineView>,
    heal: HealStrategy,
    labels: Map<Seq<char>, u32>,
    done: nat,
)
    ensures
        spec_resolve(lines, heal, labels, done) is Ok ==> done < spec_resolve(
            lines,
            heal,
            labels,
            done,
        )->Ok_0.passes <= MAX_PASSES,
        spec_resolve(lines, heal, labels, done) is Err ==> spec_resolve(
            lines,
            heal,
            labels,
            done,
        )->Err_0 == error_on(0, LineErrorView::TooManyPasses) || is_pass_error(
            lines,
            heal,
            spec_resolve(lines, heal, labels, done)->Err_0,
        ),
    decreases MAX_PASSES - done,
{
    if done < MAX_PASSES {
        match spec_single_pass(lines, heal, labels) {
            Ok(state) => {
                if state.changed {
                    lemma_resolve_passes(lines, heal, state.labels, done + 1);
                }
            },
            Err(error) => {
                assert(spec_single_pass(lines, heal, labels) is Err);
                assert(is_pass_error(lines, heal, error));
            },
        }
    }
}

/// In the output of a successful assembly every name that the source
/// defines has one value, and the table holds no other name.
/// The output is also a fixed point: one more pass under its labels moves
/// no label and puts out the same words.
pub proof fn lemma_assemble_output(lines: Seq<AsmLineView>, heal: HealStrategy)
    requires
        spec_assemble(lines, heal) is Ok,
    ensures
        spec_assemble(lines, heal)->Ok_0.labels.dom() == defined_names(lines),
        spec_single_pass(lines, heal, spec_assemble(lines, heal)->Ok_0.labels) matches Ok(state)
            && !state.changed && state.labels == spec_assemble(lines, heal)->Ok_0.labels
            && state.words == spec_assemble(lines, heal)->Ok_0.instrs,
{
    let initial = initial_labels(lines, lines.len());
    assert forall|name: Seq<char>| initial.dom().contains(name) == defined_names(lines).contains(
        name,
    ) by {
        lemma_initial_labels(lines, lines.len(), name);
    }
    assert(initial.dom() =~= defined_names(lines));
    lemma_resolve_output(lines, heal, initial, 0);
}

proof fn lemma_resolve_output(
    lines: Seq<AsmLineView>,
    heal: HealStrategy,
    labels: Map<Seq<char>, u32>,
    done: nat,
)
    requires
        spec_resolve(lines, heal, labels, done) is Ok,
        labels.dom() == defined_names(lines),
    ensures
        spec_resolve(lines, heal, labels, done)->Ok_0.labels.dom() == defined_names(lines),
        spec_single_pass(lines, heal, spec_resolve(lines, heal, labels, done)->Ok_0.labels)
            matches Ok(state) && !state.changed && state.labels == spec_resolve(
            lines,
            heal,
            labels,
            done,
        )->Ok_0.labels && state.words == spec_resolve(lines, heal, labels, done)->Ok_0.instrs,
    decreases MAX_PASSES - done,
{
    let state = spec_single_pass(lines, heal, labels)->Ok_0;
    assert forall|i: int|
        0 <= i < lines.len() && defined_name(#[trigger] lines[i]) is Some implies pass_start(
        labels,
    ).labels.contains_key(defined_name(lines[i])->Some_0) by {
        assert(defined_names(lines).contains(defined_name(lines[i])->Some_0));
    }
    lemma_pass_keeps_labels(lines, heal, pass_start(labels), lines.len());
    if state.changed {
        lemma_resolve_output(lines, heal, state.labels, done + 1);
    }
}

} // verus!
