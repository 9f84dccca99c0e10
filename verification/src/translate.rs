//! The translation pass: fold the ordered instruction document into one
//! finalized build configuration, or fail when no valid copy is present.
use vstd::prelude::*;
use crate::config::{apply_ins, init_config, BuildConfig, BuildConfigBuilder, ConfigV};
use crate::instruction::{classify, parse_ins, InsError, InsErrorV, Instruction, InstructionV,
    RawInstruction, RawInstructionV};

verus! {

/// The document-level failure: translation is fatal only when the whole
/// document holds no valid copy instruction.
#[derive(Clone, Copy, Debug, PartialEq, Eq, Structural)]
pub enum TranslateError {
    MissingCopy,
}

/// One raw instruction folded into the accumulator: an accepted
/// instruction is applied, a rejected one leaves the state unchanged.
pub open spec fn step_doc(c: ConfigV, r: RawInstructionV) -> ConfigV {
    match classify(r) {
        Ok(i) => apply_ins(c, i),
        Err(_) => c,
    }
}

/// The accumulator after the whole document, instruction by instruction in
/// document order, starting from the empty accumulator.
pub open spec fn fold_doc(doc: Seq<RawInstructionV>) -> ConfigV
    decreases doc.len(),
{
    if doc.len() == 0 {
        init_config()
    } else {
        step_doc(fold_doc(doc.drop_last()), doc.last())
    }
}

/// The per-instruction failures of `doc`, in document order: what the
/// diagnostics report while the pass goes on.
pub open spec fn rejected_errors(doc: Seq<RawInstructionV>) -> Seq<InsErrorV>
    decreases doc.len(),
{
    if doc.len() == 0 {
        Seq::empty()
    } else {
        let rest = rejected_errors(doc.drop_last());
        match classify(doc.last()) {
            Ok(_) => rest,
            Err(e) => rest.push(e),
        }
    }
}

/// Fold a full ordered instruction document into one finalized
/// configuration.  Rejected instructions are skipped, each leaving its
/// diagnostic in the returned list; the pass fails if and only if no
/// valid copy instruction was accepted.
pub fn parse(doc: &Vec<RawInstruction>) -> (r: (
    Result<BuildConfig, TranslateError>,
    Vec<InsError>,
))
    ensures
        r.0 is Err <==> fold_doc(doc.deep_view()).copys.len() == 0,
        r.0 matches Ok(c) ==> c.deep_view() == fold_doc(doc.deep_view()),
        r.0 matches Err(e) ==> e == TranslateError::MissingCopy,
        r.1.deep_view() == rejected_errors(doc.deep_view()),
{
    let mut builder = BuildConfigBuilder::default();
    let mut warnings: Vec<InsError> = Vec::new();
    let n = doc.len();
    let mut idx: usize = 0;
    proof {
        assert(warnings.deep_view() =~= rejected_errors(doc.deep_view().take(0)));
    }
    while idx < n
        invariant
            idx <= n,
            n == doc@.len(),
            builder.deep_view() == fold_doc(doc.deep_view().take(idx as int)),
            warnings.deep_view() == rejected_errors(doc.deep_view().take(idx as int)),
        decreases n - idx,
    {
        let ghost prefix = doc.deep_view().take(idx as int);
        let ghost raw_v = doc.deep_view()[idx as int];
        match parse_ins(&doc[idx]) {
            Ok(ins) => {
                match ins {
                    Instruction::FileCopy(step) => builder.append_copy(step),
                    Instruction::Kind(k) => builder.mut_kind(k),
                    Instruction::Cmd(d) => builder.mut_cmd(d),
                }
            },
            Err(e) => {
                // a per-instruction failure is non-fatal: keep its
                // diagnostic and go on
                warnings.push(e);
            },
        }
        proof {
            let next = doc.deep_view().take(idx as int + 1);
            assert(next.drop_last() =~= prefix);
            assert(next.last() == raw_v);
            assert(builder.deep_view() == step_doc(fold_doc(prefix), raw_v));
            assert(warnings.deep_view() =~= rejected_errors(next));
        }
        idx = idx + 1;
    }
    proof {
        assert(doc.deep_view().take(n as int) =~= doc.deep_view());
    }
    if builder.copys.len() == 0 {
        (Err(TranslateError::MissingCopy), warnings)
    } else {
        (Ok(builder.build()), warnings)
    }
}

/// A rejected instruction never enters the accumulator: the fold leaves
/// the state unchanged.
pub proof fn lemma_rejected_instruction_is_skipped(c: ConfigV, r: RawInstructionV)
    requires
        classify(r) is Err,
    ensures
        step_doc(c, r) == c,
{
}

/// The copy steps of the valid copy instructions of `doc`, in document
/// order.
pub open spec fn valid_copies(doc: Seq<RawInstructionV>) -> Seq<crate::instruction::CopyStepV>
    decreases doc.len(),
{
    if doc.len() == 0 {
        Seq::empty()
    } else {
        let rest = valid_copies(doc.drop_last());
        match classify(doc.last()) {
            Ok(InstructionV::FileCopy(s)) => rest.push(s),
            _ => rest,
        }
    }
}

/// The configuration's copy sequence is exactly the sequence of valid copy
/// instructions of the document, in document order: every valid copy is
/// kept, nothing else enters, and the relative order is preserved.
pub proof fn lemma_copy_order(doc: Seq<RawInstructionV>)
    ensures
        fold_doc(doc).copys == valid_copies(doc),
    decreases doc.len(),
{
    if doc.len() > 0 {
        lemma_copy_order(doc.drop_last());
    }
}

/// Whether one raw instruction classifies to a valid copy.
pub open spec fn is_valid_copy(r: RawInstructionV) -> bool {
    classify(r) matches Ok(i) && i is FileCopy
}

/// Translation succeeds if and only if the document holds at least one
/// valid copy instruction: the folded copy sequence is non-empty exactly
/// when some instruction classifies to a copy, however many kind or
/// command instructions are present.
pub proof fn lemma_success_iff_valid_copy(doc: Seq<RawInstructionV>)
    ensures
        fold_doc(doc).copys.len() > 0 <==> exists|i: int|
            0 <= i < doc.len() && is_valid_copy(doc[i]),
    decreases doc.len(),
{
    if doc.len() > 0 {
        lemma_success_iff_valid_copy(doc.drop_last());
        if is_valid_copy(doc.last()) {
            assert(is_valid_copy(doc[doc.len() - 1]));
        } else {
            if fold_doc(doc).copys.len() > 0 {
                let j = choose|j: int|
                    0 <= j < doc.drop_last().len() && is_valid_copy(doc.drop_last()[j]);
                assert(doc.drop_last()[j] == doc[j]);
            }
            if exists|i: int| 0 <= i < doc.len() && is_valid_copy(doc[i]) {
                let j = choose|j: int| 0 <= j < doc.len() && is_valid_copy(doc[j]);
                assert(j < doc.len() - 1);
                assert(doc.drop_last()[j] == doc[j]);
            }
        }
    }
}

/// Whether one raw instruction classifies to a kind selection.
pub open spec fn is_kind_ins(r: RawInstructionV) -> bool {
    classify(r) matches Ok(i) && i is Kind
}

/// The kind one raw instruction selects.
pub open spec fn kind_of_ins(r: RawInstructionV) -> crate::instruction::Kind
    recommends
        is_kind_ins(r),
{
    classify(r)->Ok_0->Kind_0
}

/// Kind resolution is order-sensitive with a default: when no kind
/// instruction appears the configuration's kind is `Wasi`, and when some
/// do, the last one wins.
pub proof fn lemma_kind_last_write(doc: Seq<RawInstructionV>)
    ensures
        (forall|i: int| 0 <= i < doc.len() ==> !is_kind_ins(doc[i])) ==> fold_doc(doc).kind
            == crate::instruction::Kind::Wasi,
        forall|j: int|
            (0 <= j < doc.len() && is_kind_ins(doc[j]) && (forall|i: int|
                j < i < doc.len() ==> !is_kind_ins(doc[i]))) ==> fold_doc(doc).kind
                == kind_of_ins(doc[j]),
    decreases doc.len(),
{
    if doc.len() > 0 {
        let prefix = doc.drop_last();
        lemma_kind_last_write(prefix);
        if (forall|i: int| 0 <= i < doc.len() ==> !is_kind_ins(doc[i])) {
            assert(forall|i: int| 0 <= i < prefix.len() ==> !is_kind_ins(prefix[i]));
            assert(!is_kind_ins(doc.last()));
        }
        assert forall|j: int|
            (0 <= j < doc.len() && is_kind_ins(doc[j]) && (forall|i: int|
                j < i < doc.len() ==> !is_kind_ins(doc[i]))) implies fold_doc(doc).kind
            == kind_of_ins(doc[j]) by {
            if j == doc.len() - 1 {
                assert(doc[j] == doc.last());
            } else {
                assert(!is_kind_ins(doc.last()));
                assert(prefix[j] == doc[j]);
                assert(forall|i: int| j < i < prefix.len() ==> prefix[i] == doc[i]);
                assert(fold_doc(prefix).kind == kind_of_ins(prefix[j]));
                assert(fold_doc(doc).kind == fold_doc(prefix).kind);
            }
        }
    }
}

} // verus!
