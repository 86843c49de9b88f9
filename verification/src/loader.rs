use crate::instruction_parser::{
    closed_forms, closed_operands, closed_set, instruction_set_of, lemma_parsed_forms_unmarked,
    load_instructions, loaded_instructions, unmarked_forms,
};
use crate::json::Json;
use crate::types::{
    encoding_views, form_views, instruction_views, EncodingView, FormView, Instruction,
    InstructionForm, InstructionView, LLBitRef, Operand, OperandId, ParseFault, ParseInsError,
    ZeroRef, EVEX,
};
use vstd::prelude::*;

verus! {

/// The two pseudo-operands of AVX-512: suppress-all-exceptions and rounding control.
pub open spec fn is_pseudo(id: OperandId) -> bool {
    id == OperandId::_sae_ || id == OperandId::_er_
}

/// The two operand kinds that 64-bit mode cannot encode.
pub open spec fn is_moffs(id: OperandId) -> bool {
    id == OperandId::moffs32 || id == OperandId::moffs64
}

/// Whether a form takes a pseudo-operand.
pub open spec fn has_pseudo(form: FormView) -> bool {
    exists|i: int| 0 <= i < form.operands.len() && is_pseudo(#[trigger] form.operands[i].id)
}

/// Whether a form takes an absolute-offset operand.
pub open spec fn has_moffs(form: FormView) -> bool {
    exists|i: int| 0 <= i < form.operands.len() && is_moffs(#[trigger] form.operands[i].id)
}

/// The first `n` operands without the pseudo-operands, in order.
pub open spec fn without_pseudo(operands: Seq<Operand>, n: nat) -> Seq<Operand>
    decreases n,
{
    if n == 0 {
        Seq::empty()
    } else if is_pseudo(operands[n - 1].id) {
        without_pseudo(operands, (n - 1) as nat)
    } else {
        without_pseudo(operands, (n - 1) as nat).push(operands[n - 1])
    }
}

/// The EVEX template of the variant that takes no pseudo-operand: no
/// rounding, no suppression, full vector length.
pub open spec fn plain_evex(evex: EVEX) -> EVEX {
    EVEX { b: ZeroRef::Zero, LL: LLBitRef::Two, ..evex }
}

/// The EVEX template of the form that takes the pseudo-operand: `b` is the
/// constant one, and a literal length gives way to zero.
pub open spec fn rounding_evex(evex: EVEX) -> EVEX {
    EVEX {
        b: ZeroRef::EVEX_b_ONE,
        LL: match evex.LL {
            LLBitRef::LastRef(i) => LLBitRef::LastRef(i),
            LLBitRef::NONE => LLBitRef::NONE,
            _ => LLBitRef::Zero,
        },
        ..evex
    }
}

/// The templates with the EVEX prefix of the first one, if it has one,
/// exchanged for `evex`.
pub open spec fn with_first_evex(encodings: Seq<EncodingView>, evex: EVEX) -> Seq<EncodingView> {
    if encodings.len() > 0 && encodings[0].evex is Some {
        encodings.update(0, EncodingView { evex: Some(evex), ..encodings[0] })
    } else {
        encodings
    }
}

/// The EVEX prefix of a form's first template, or a blank one where there is none.
pub open spec fn first_evex(encodings: Seq<EncodingView>) -> EVEX {
    if encodings.len() > 0 && encodings[0].evex is Some {
        encodings[0].evex->0
    } else {
        EVEX::empty()
    }
}

/// The variant of a form that takes no pseudo-operand.
pub open spec fn plain_variant(form: FormView) -> FormView {
    FormView {
        operands: without_pseudo(form.operands, form.operands.len()),
        encodings: with_first_evex(form.encodings, plain_evex(first_evex(form.encodings))),
        ..form
    }
}

/// The form itself, marked as the one that takes the pseudo-operand.
pub open spec fn rounding_variant(form: FormView) -> FormView {
    FormView {
        encodings: with_first_evex(form.encodings, rounding_evex(first_evex(form.encodings))),
        ..form
    }
}

/// The plain variants of those among the first `n` forms that take a
/// pseudo-operand, in order.
pub open spec fn plain_variants(forms: Seq<FormView>, n: nat) -> Seq<FormView>
    decreases n,
{
    if n == 0 {
        Seq::empty()
    } else if has_pseudo(forms[n - 1]) {
        plain_variants(forms, (n - 1) as nat).push(plain_variant(forms[n - 1]))
    } else {
        plain_variants(forms, (n - 1) as nat)
    }
}

/// A form as it stands after expansion, in its old place.
pub open spec fn marked(form: FormView) -> FormView {
    if has_pseudo(form) {
        rounding_variant(form)
    } else {
        form
    }
}

/// The forms of a mnemonic after expansion: each form in its place, those
/// with a pseudo-operand marked, and behind them the plain variants.
pub open spec fn expanded(forms: Seq<FormView>) -> Seq<FormView> {
    Seq::new(forms.len(), |i: int| marked(forms[i])) + plain_variants(forms, forms.len())
}

/// A mnemonic after expansion.
pub open spec fn expanded_instruction(ins: InstructionView) -> InstructionView {
    InstructionView { forms: expanded(ins.forms), ..ins }
}

/// An instruction set after expansion.
pub open spec fn expanded_set(set: Seq<InstructionView>) -> Seq<InstructionView> {
    Seq::new(set.len(), |i: int| expanded_instruction(set[i]))
}

/// Whether a kind is `{sae}` or `{er}`.
pub fn is_pseudo_operand(id: OperandId) -> (r: bool)
    ensures
        r == is_pseudo(id),
{
    id == OperandId::_sae_ || id == OperandId::_er_
}

/// Whether a kind is `moffs32` or `moffs64`.
pub fn is_moffs_operand(id: OperandId) -> (r: bool)
    ensures
        r == is_moffs(id),
{
    id == OperandId::moffs32 || id == OperandId::moffs64
}

/// Whether a form takes `{sae}` or `{er}`.
pub fn has_pseudo_operand(form: &InstructionForm) -> (r: bool)
    ensures
        r == has_pseudo(form@),
{
    let mut i: usize = 0;
    while i < form.operands.len()
        invariant
            i <= form.operands@.len(),
            forall|k: int| 0 <= k < i ==> !is_pseudo(#[trigger] form.operands@[k].id),
        decreases form.operands@.len() - i,
    {
        if is_pseudo_operand(form.operands[i].id) {
            return true;
        }
        i = i + 1;
    }
    false
}

/// Whether a form takes `moffs32` or `moffs64`.
pub fn has_moffs_operand(form: &InstructionForm) -> (r: bool)
    ensures
        r == has_moffs(form@),
{
    let mut i: usize = 0;
    while i < form.operands.len()
        invariant
            i <= form.operands@.len(),
            forall|k: int| 0 <= k < i ==> !is_moffs(#[trigger] form.operands@[k].id),
        decreases form.operands@.len() - i,
    {
        if is_moffs_operand(form.operands[i].id) {
            return true;
        }
        i = i + 1;
    }
    false
}

fn replace_first_evex(form: &mut InstructionForm, evex: EVEX)
    ensures
        final(form)@ == (FormView {
            encodings: with_first_evex(old(form)@.encodings, evex),
            ..old(form)@
        }),
{
    if form.encodings.len() > 0 {
        if form.encodings[0].evex.is_some() {
            let ghost before = encoding_views(form.encodings@);
            let mut first = form.encodings[0].clone();
            first.evex = Some(evex);
            form.encodings.set(0, first);
            assert(encoding_views(form.encodings@) =~= with_first_evex(before, evex));
        }
    }
}

fn first_evex_of(form: &InstructionForm) -> (r: EVEX)
    ensures
        r == first_evex(form@.encodings),
{
    if form.encodings.len() > 0 {
        match form.encodings[0].evex {
            Some(evex) => evex,
            None => EVEX::new(),
        }
    } else {
        EVEX::new()
    }
}

/// The variant of a form that takes no pseudo-operand.
pub fn plain_form(form: &InstructionForm) -> (r: InstructionForm)
    ensures
        r@ == plain_variant(form@),
{
    let mut variant = form.clone();
    let mut operands: Vec<Operand> = Vec::new();
    let mut i: usize = 0;
    while i < form.operands.len()
        invariant
            i <= form.operands@.len(),
            operands@ == without_pseudo(form.operands@, i as nat),
        decreases form.operands@.len() - i,
    {
        if !is_pseudo_operand(form.operands[i].id) {
            operands.push(form.operands[i]);
        }
        i = i + 1;
    }
    variant.operands = operands;
    let evex = first_evex_of(form);
    replace_first_evex(
        &mut variant,
        EVEX { b: ZeroRef::Zero, LL: LLBitRef::Two, ..evex },
    );
    variant
}

/// The form itself, marked as the one that takes the pseudo-operand.
pub fn rounding_form(form: &InstructionForm) -> (r: InstructionForm)
    ensures
        r@ == rounding_variant(form@),
{
    let mut marked = form.clone();
    let evex = first_evex_of(form);
    let length = match evex.LL {
        LLBitRef::LastRef(i) => LLBitRef::LastRef(i),
        LLBitRef::NONE => LLBitRef::NONE,
        _ => LLBitRef::Zero,
    };
    replace_first_evex(&mut marked, EVEX { b: ZeroRef::EVEX_b_ONE, LL: length, ..evex });
    marked
}

/// Expands the forms of one mnemonic: a form that takes `{sae}` or `{er}`
/// stays in its place, marked, and its plain variant is appended.
pub fn expand_forms(forms: &Vec<InstructionForm>) -> (r: Vec<InstructionForm>)
    ensures
        form_views(r@) == expanded(form_views(forms@)),
{
    let ghost old_views = form_views(forms@);
    let mut main: Vec<InstructionForm> = Vec::new();
    let mut extra: Vec<InstructionForm> = Vec::new();
    let mut i: usize = 0;
    assert(form_views(extra@) =~= plain_variants(old_views, 0));
    while i < forms.len()
        invariant
            i <= forms@.len(),
            old_views == form_views(forms@),
            main@.len() == i,
            forall|k: int| 0 <= k < i ==> (#[trigger] main@[k])@ == marked(old_views[k]),
            form_views(extra@) == plain_variants(old_views, i as nat),
        decreases forms@.len() - i,
    {
        if has_pseudo_operand(&forms[i]) {
            let variant = plain_form(&forms[i]);
            let ghost before = form_views(extra@);
            extra.push(variant);
            assert(form_views(extra@) =~= before.push(variant@));
            let marked = rounding_form(&forms[i]);
            main.push(marked);
        } else {
            let same = forms[i].clone();
            main.push(same);
        }
        i = i + 1;
    }
    let ghost main_views = form_views(main@);
    let ghost extra_views = form_views(extra@);
    main.append(&mut extra);
    assert(form_views(main@) =~= main_views + extra_views);
    assert(main_views =~= Seq::new(old_views.len(), |i: int| marked(old_views[i])));
    main
}

/// Expands every mnemonic of an instruction set.
pub fn expand_instruction_set(instructions: &Vec<Instruction>) -> (r: Vec<Instruction>)
    ensures
        instruction_views(r@) == expanded_set(instruction_views(instructions@)),
{
    let ghost old_views = instruction_views(instructions@);
    let mut out: Vec<Instruction> = Vec::new();
    let mut i: usize = 0;
    while i < instructions.len()
        invariant
            i <= instructions@.len(),
            old_views == instruction_views(instructions@),
            out@.len() == i,
            forall|k: int|
                0 <= k < i ==> (#[trigger] out@[k])@ == expanded_instruction(old_views[k]),
        decreases instructions@.len() - i,
    {
        let ins = &instructions[i];
        let forms = expand_forms(&ins.forms);
        out.push(Instruction { name: ins.name.clone(), summary: ins.summary.clone(), forms });
        i = i + 1;
    }
    assert(instruction_views(out@) =~= expanded_set(old_views));
    out
}

/// Those among the first `n` forms that take no absolute-offset operand, in order.
pub open spec fn encodable(forms: Seq<FormView>, n: nat) -> Seq<FormView>
    decreases n,
{
    if n == 0 {
        Seq::empty()
    } else if has_moffs(forms[n - 1]) {
        encodable(forms, (n - 1) as nat)
    } else {
        encodable(forms, (n - 1) as nat).push(forms[n - 1])
    }
}

/// Those among the first `n` forms that take exactly `arity` operands, in order.
pub open spec fn of_arity(forms: Seq<FormView>, n: nat, arity: nat) -> Seq<FormView>
    decreases n,
{
    if n == 0 {
        Seq::empty()
    } else if forms[n - 1].operands.len() == arity {
        of_arity(forms, (n - 1) as nat, arity).push(forms[n - 1])
    } else {
        of_arity(forms, (n - 1) as nat, arity)
    }
}

/// The largest number of operands that one of the first `n` forms takes.
pub open spec fn top_arity(forms: Seq<FormView>, n: nat) -> nat
    decreases n,
{
    if n == 0 {
        0
    } else if forms[n - 1].operands.len() > top_arity(forms, (n - 1) as nat) {
        forms[n - 1].operands.len()
    } else {
        top_arity(forms, (n - 1) as nat)
    }
}

/// The forms that take at most `top` operands, by ascending number of
/// operands; forms that take equally many keep their order.
pub open spec fn by_arity(forms: Seq<FormView>, top: nat) -> Seq<FormView>
    decreases top,
{
    if top == 0 {
        of_arity(forms, forms.len(), 0)
    } else {
        by_arity(forms, (top - 1) as nat) + of_arity(forms, forms.len(), top)
    }
}

/// The forms of a mnemonic that can be encoded, smaller arities first.
pub open spec fn filtered(forms: Seq<FormView>) -> Seq<FormView> {
    let kept = encodable(forms, forms.len());
    by_arity(kept, top_arity(kept, kept.len()))
}

/// The forms behind a list of references, as mathematical values.
pub open spec fn referenced_views(forms: Seq<&InstructionForm>) -> Seq<FormView> {
    Seq::new(forms.len(), |i: int| forms[i]@)
}

/// Whether `form` is one of `forms`.
pub open spec fn occurs_in(form: FormView, forms: Seq<FormView>) -> bool {
    exists|i: int| 0 <= i < forms.len() && #[trigger] forms[i] == form
}

/// Whether the forms stand in non-decreasing order of their number of operands.
pub open spec fn ascending_arity(forms: Seq<FormView>) -> bool {
    forall|i: int, j: int|
        0 <= i <= j < forms.len() ==> (#[trigger] forms[i]).operands.len() <= (
        #[trigger] forms[j]).operands.len()
}

proof fn lemma_encodable(forms: Seq<FormView>, n: nat)
    requires
        n <= forms.len(),
    ensures
        forall|k: int|
            0 <= k < encodable(forms, n).len() ==> !has_moffs(#[trigger] encodable(forms, n)[k])
                && occurs_in(encodable(forms, n)[k], forms),
    decreases n,
{
    if n > 0 {
        lemma_encodable(forms, (n - 1) as nat);
        let shorter = encodable(forms, (n - 1) as nat);
        assert forall|k: int| 0 <= k < encodable(forms, n).len() implies !has_moffs(
            #[trigger] encodable(forms, n)[k],
        ) && occurs_in(encodable(forms, n)[k], forms) by {
            if k < shorter.len() {
                assert(encodable(forms, n)[k] == shorter[k]);
            } else {
                assert(encodable(forms, n)[k] == forms[n - 1]);
            }
        }
    }
}

proof fn lemma_of_arity(forms: Seq<FormView>, n: nat, arity: nat)
    requires
        n <= forms.len(),
    ensures
        forall|k: int|
            0 <= k < of_arity(forms, n, arity).len() ==> (#[trigger] of_arity(
                forms,
                n,
                arity,
            )[k]).operands.len() == arity && occurs_in(of_arity(forms, n, arity)[k], forms),
    decreases n,
{
    if n > 0 {
        lemma_of_arity(forms, (n - 1) as nat, arity);
        assert(forms[n - 1] == forms[n - 1]);
    }
}

proof fn lemma_by_arity(forms: Seq<FormView>, top: nat)
    ensures
        ascending_arity(by_arity(forms, top)),
        forall|k: int|
            0 <= k < by_arity(forms, top).len() ==> (#[trigger] by_arity(
                forms,
                top,
            )[k]).operands.len() <= top && occurs_in(by_arity(forms, top)[k], forms),
    decreases top,
{
    lemma_of_arity(forms, forms.len(), top);
    if top > 0 {
        lemma_by_arity(forms, (top - 1) as nat);
    }
}

/// After filtering, the forms of a mnemonic stand in non-decreasing order of
/// their number of operands, none of them takes `moffs32` or `moffs64`, and
/// each of them is one of the forms that went in.
pub proof fn lemma_filtered_forms(forms: Seq<FormView>)
    ensures
        ascending_arity(filtered(forms)),
        forall|k: int|
            0 <= k < filtered(forms).len() ==> !has_moffs(#[trigger] filtered(forms)[k])
                && occurs_in(filtered(forms)[k], forms),
{
    let kept = encodable(forms, forms.len());
    let top = top_arity(kept, kept.len());
    lemma_encodable(forms, forms.len());
    lemma_by_arity(kept, top);
    assert forall|k: int| 0 <= k < filtered(forms).len() implies !has_moffs(
        #[trigger] filtered(forms)[k],
    ) && occurs_in(filtered(forms)[k], forms) by {
        let form = filtered(forms)[k];
        assert(occurs_in(form, kept));
        let i = choose|i: int| 0 <= i < kept.len() && #[trigger] kept[i] == form;
        assert(occurs_in(kept[i], forms));
    }
}

proof fn lemma_of_arity_prefix(
    longer: Seq<FormView>,
    shorter: Seq<FormView>,
    n: nat,
    arity: nat,
)
    requires
        n <= shorter.len() <= longer.len(),
        forall|k: int| 0 <= k < shorter.len() ==> longer[k] == shorter[k],
    ensures
        of_arity(longer, n, arity) == of_arity(shorter, n, arity),
    decreases n,
{
    if n > 0 {
        lemma_of_arity_prefix(longer, shorter, (n - 1) as nat, arity);
    }
}

proof fn lemma_of_arity_concat(a: Seq<FormView>, b: Seq<FormView>, n: nat, arity: nat)
    requires
        n <= b.len(),
    ensures
        of_arity(a + b, a.len() + n, arity) == of_arity(a, a.len(), arity) + of_arity(b, n, arity),
    decreases n,
{
    if n == 0 {
        lemma_of_arity_prefix(a + b, a, a.len(), arity);
        assert(of_arity(a, a.len(), arity) + of_arity(b, 0, arity) =~= of_arity(
            a,
            a.len(),
            arity,
        ));
    } else {
        lemma_of_arity_concat(a, b, (n - 1) as nat, arity);
        assert((a + b)[a.len() + n - 1] == b[n - 1]);
        let earlier = of_arity(a, a.len(), arity) + of_arity(b, (n - 1) as nat, arity);
        if b[n - 1].operands.len() == arity {
            assert(earlier.push(b[n - 1]) =~= of_arity(a, a.len(), arity) + of_arity(
                b,
                n,
                arity,
            ));
        }
    }
}

proof fn lemma_of_arity_twice(forms: Seq<FormView>, n: nat, first: nat, second: nat)
    requires
        n <= forms.len(),
    ensures
        of_arity(of_arity(forms, n, first), of_arity(forms, n, first).len(), second) == (if first
            == second {
            of_arity(forms, n, first)
        } else {
            Seq::empty()
        }),
    decreases n,
{
    if n > 0 {
        lemma_of_arity_twice(forms, (n - 1) as nat, first, second);
        let shorter = of_arity(forms, (n - 1) as nat, first);
        if forms[n - 1].operands.len() == first {
            let longer = shorter.push(forms[n - 1]);
            lemma_of_arity_prefix(longer, shorter, shorter.len(), second);
        }
    }
}

proof fn lemma_above_top_arity(forms: Seq<FormView>, n: nat, arity: nat)
    requires
        n <= forms.len(),
        arity > top_arity(forms, n),
    ensures
        of_arity(forms, n, arity) == Seq::<FormView>::empty(),
    decreases n,
{
    if n > 0 {
        lemma_above_top_arity(forms, (n - 1) as nat, arity);
    }
}

proof fn lemma_by_arity_selects(forms: Seq<FormView>, top: nat, arity: nat)
    ensures
        of_arity(by_arity(forms, top), by_arity(forms, top).len(), arity) == (if arity <= top {
            of_arity(forms, forms.len(), arity)
        } else {
            Seq::empty()
        }),
    decreases top,
{
    let last = of_arity(forms, forms.len(), top);
    lemma_of_arity_twice(forms, forms.len(), top, arity);
    if top > 0 {
        let earlier = by_arity(forms, (top - 1) as nat);
        lemma_by_arity_selects(forms, (top - 1) as nat, arity);
        lemma_of_arity_concat(earlier, last, last.len(), arity);
        assert(of_arity(earlier, earlier.len(), arity) + of_arity(last, last.len(), arity)
            =~= (if arity <= top {
            of_arity(forms, forms.len(), arity)
        } else {
            Seq::empty()
        }));
    }
}

/// Filtering is stable: of the forms that take a given number of operands,
/// those that are kept come out in the order in which they went in, and
/// none is lost or added.
pub proof fn lemma_filter_is_stable(forms: Seq<FormView>, arity: nat)
    ensures
        ({
            let kept = encodable(forms, forms.len());
            of_arity(filtered(forms), filtered(forms).len(), arity) == of_arity(
                kept,
                kept.len(),
                arity,
            )
        }),
{
    let kept = encodable(forms, forms.len());
    let top = top_arity(kept, kept.len());
    lemma_by_arity_selects(kept, top, arity);
    if arity > top {
        lemma_above_top_arity(kept, kept.len(), arity);
    }
}

proof fn lemma_encodable_all(forms: Seq<FormView>, n: nat)
    requires
        n <= forms.len(),
        forall|k: int| 0 <= k < forms.len() ==> !has_moffs(#[trigger] forms[k]),
    ensures
        encodable(forms, n) == forms.take(n as int),
    decreases n,
{
    if n > 0 {
        lemma_encodable_all(forms, (n - 1) as nat);
        assert(forms.take(n as int) =~= forms.take(n - 1).push(forms[n - 1]));
    } else {
        assert(forms.take(0) =~= Seq::<FormView>::empty());
    }
}

proof fn lemma_top_arity_bound(forms: Seq<FormView>, n: nat, bound: nat)
    requires
        n <= forms.len(),
        forall|k: int| 0 <= k < n ==> (#[trigger] forms[k]).operands.len() <= bound,
    ensures
        top_arity(forms, n) <= bound,
    decreases n,
{
    if n > 0 {
        lemma_top_arity_bound(forms, (n - 1) as nat, bound);
    }
}

proof fn lemma_by_arity_above_top(forms: Seq<FormView>, arity: nat)
    requires
        arity >= top_arity(forms, forms.len()),
    ensures
        by_arity(forms, arity) == by_arity(forms, top_arity(forms, forms.len())),
    decreases arity,
{
    if arity > top_arity(forms, forms.len()) {
        lemma_by_arity_above_top(forms, (arity - 1) as nat);
        lemma_above_top_arity(forms, forms.len(), arity);
        assert(by_arity(forms, (arity - 1) as nat) + Seq::<FormView>::empty() =~= by_arity(
            forms,
            (arity - 1) as nat,
        ));
    }
}

proof fn lemma_by_arity_push_below(forms: Seq<FormView>, last: FormView, arity: nat)
    requires
        arity < last.operands.len(),
    ensures
        by_arity(forms.push(last), arity) == by_arity(forms, arity),
    decreases arity,
{
    let longer = forms.push(last);
    lemma_of_arity_prefix(longer, forms, forms.len(), arity);
    assert(of_arity(longer, longer.len(), arity) == of_arity(forms, forms.len(), arity));
    if arity > 0 {
        lemma_by_arity_push_below(forms, last, (arity - 1) as nat);
    }
}

proof fn lemma_ascending_is_in_order(forms: Seq<FormView>, n: nat)
    requires
        n <= forms.len(),
        ascending_arity(forms),
    ensures
        by_arity(forms.take(n as int), top_arity(forms.take(n as int), n)) == forms.take(
            n as int,
        ),
    decreases n,
{
    if n == 0 {
        assert(forms.take(0) =~= Seq::<FormView>::empty());
        assert(by_arity(Seq::<FormView>::empty(), 0) =~= Seq::<FormView>::empty());
    } else {
        lemma_ascending_is_in_order(forms, (n - 1) as nat);
        let shorter = forms.take(n - 1);
        let last = forms[n - 1];
        let longer = forms.take(n as int);
        let arity = last.operands.len();
        assert(longer =~= shorter.push(last));
        let below = top_arity(shorter, shorter.len());
        assert forall|k: int| 0 <= k < shorter.len() implies (#[trigger] shorter[k]).operands.len()
            <= arity by {
            assert(shorter[k] == forms[k]);
        }
        lemma_top_arity_bound(shorter, shorter.len(), arity);
        lemma_top_arity_prefix(longer, shorter, shorter.len());
        assert(top_arity(longer, n) == arity);
        lemma_of_arity_prefix(longer, shorter, shorter.len(), arity);
        let class = of_arity(shorter, shorter.len(), arity);
        assert(of_arity(longer, n, arity) == class.push(last));
        lemma_by_arity_above_top(shorter, arity);
        if arity == 0 {
            assert(by_arity(longer, 0) == class.push(last));
            assert(by_arity(shorter, 0) == class);
        } else {
            lemma_by_arity_push_below(shorter, last, (arity - 1) as nat);
            let lower = by_arity(shorter, (arity - 1) as nat);
            assert(lower + class.push(last) =~= (lower + class).push(last));
        }
    }
}

/// Filtering a second time changes nothing: forms that are filtered take no
/// `moffs32` or `moffs64` and stand in order, and so stay as they are.
pub proof fn lemma_filter_is_idempotent(forms: Seq<FormView>)
    ensures
        filtered(filtered(forms)) == filtered(forms),
{
    let once = filtered(forms);
    lemma_filtered_forms(forms);
    lemma_encodable_all(once, once.len());
    assert(once.take(once.len() as int) =~= once);
    lemma_ascending_is_in_order(once, once.len());
}

/// Keeps the forms that 64-bit mode can encode, those that take no `moffs32`
/// or `moffs64` operand, and puts them in ascending order of their number of
/// operands. Forms with equally many operands keep their order.
pub fn filter_instruction_forms(forms: &Vec<InstructionForm>) -> (r: Vec<&InstructionForm>)
    ensures
        referenced_views(r@) == filtered(form_views(forms@)),
        ascending_arity(referenced_views(r@)),
        forall|k: int| 0 <= k < r@.len() ==> !has_moffs(#[trigger] r@[k]@),
{
    let ghost views = form_views(forms@);
    let mut kept: Vec<&InstructionForm> = Vec::new();
    let mut top: usize = 0;
    let mut i: usize = 0;
    assert(referenced_views(kept@) =~= encodable(views, 0));
    while i < forms.len()
        invariant
            i <= forms@.len(),
            views == form_views(forms@),
            referenced_views(kept@) == encodable(views, i as nat),
            top == top_arity(referenced_views(kept@), kept@.len() as nat),
        decreases forms@.len() - i,
    {
        if !has_moffs_operand(&forms[i]) {
            let ghost before = referenced_views(kept@);
            kept.push(&forms[i]);
            assert(referenced_views(kept@) =~= before.push(forms@[i as int]@));
            proof {
                lemma_top_arity_prefix(referenced_views(kept@), before, before.len());
            }
            if forms[i].operands.len() > top {
                top = forms[i].operands.len();
            }
        }
        i = i + 1;
    }
    let ghost kept_views = referenced_views(kept@);
    let mut sorted: Vec<&InstructionForm> = Vec::new();
    let mut arity: usize = 0;
    loop
        invariant_except_break
            arity <= top,
            arity == 0 ==> sorted@.len() == 0,
            arity > 0 ==> referenced_views(sorted@) == by_arity(kept_views, (arity - 1) as nat),
        invariant
            kept_views == referenced_views(kept@),
        ensures
            referenced_views(sorted@) == by_arity(kept_views, top as nat),
        decreases top - arity,
    {
        let ghost before = referenced_views(sorted@);
        let mut j: usize = 0;
        assert(referenced_views(sorted@) =~= before + of_arity(kept_views, 0, arity as nat));
        while j < kept.len()
            invariant
                j <= kept@.len(),
                kept_views == referenced_views(kept@),
                referenced_views(sorted@) == before + of_arity(kept_views, j as nat, arity as nat),
            decreases kept@.len() - j,
        {
            if kept[j].operands.len() == arity {
                let ghost so_far = referenced_views(sorted@);
                sorted.push(kept[j]);
                assert(referenced_views(sorted@) =~= so_far.push(kept@[j as int]@));
                assert(referenced_views(sorted@) =~= before + of_arity(
                    kept_views,
                    (j + 1) as nat,
                    arity as nat,
                ));
            }
            j = j + 1;
        }
        assert(arity == 0 ==> before =~= Seq::<FormView>::empty());
        assert(referenced_views(sorted@) =~= by_arity(kept_views, arity as nat));
        if arity == top {
            break ;
        }
        arity = arity + 1;
    }
    proof {
        lemma_filtered_forms(views);
        assert forall|k: int| 0 <= k < sorted@.len() implies !has_moffs(
            #[trigger] sorted@[k]@,
        ) by {
            assert(referenced_views(sorted@)[k] == sorted@[k]@);
        }
    }
    sorted
}

proof fn lemma_top_arity_prefix(longer: Seq<FormView>, shorter: Seq<FormView>, n: nat)
    requires
        n <= shorter.len(),
        shorter.len() <= longer.len(),
        forall|k: int| 0 <= k < shorter.len() ==> longer[k] == shorter[k],
    ensures
        top_arity(longer, n) == top_arity(shorter, n),
    decreases n,
{
    if n > 0 {
        lemma_top_arity_prefix(longer, shorter, (n - 1) as nat);
    }
}

proof fn lemma_without_pseudo(operands: Seq<Operand>, n: nat)
    requires
        n <= operands.len(),
    ensures
        forall|k: int|
            0 <= k < without_pseudo(operands, n).len() ==> !is_pseudo(
                #[trigger] without_pseudo(operands, n)[k].id,
            ),
    decreases n,
{
    if n > 0 {
        lemma_without_pseudo(operands, (n - 1) as nat);
    }
}

proof fn lemma_plain_variants(forms: Seq<FormView>, n: nat)
    requires
        n <= forms.len(),
    ensures
        forall|k: int|
            0 <= k < plain_variants(forms, n).len() ==> !has_pseudo(
                #[trigger] plain_variants(forms, n)[k],
            ),
        forall|i: int|
            #![trigger plain_variants(forms, i as nat)]
            0 <= i < n && has_pseudo(forms[i]) ==> plain_variants(forms, i as nat).len()
                < plain_variants(forms, n).len() && plain_variants(forms, n)[plain_variants(
                forms,
                i as nat,
            ).len() as int] == plain_variant(forms[i]),
        forall|i: int|
            #![trigger plain_variants(forms, i as nat)]
            0 <= i <= n ==> plain_variants(forms, i as nat).len() <= plain_variants(
                forms,
                n,
            ).len(),
    decreases n,
{
    if n > 0 {
        lemma_plain_variants(forms, (n - 1) as nat);
        if has_pseudo(forms[n - 1]) {
            lemma_without_pseudo(forms[n - 1].operands, forms[n - 1].operands.len());
        }
    }
}

/// How the two forms that expansion makes of one form stand to each other:
/// they differ in the pseudo-operands, which only the marked form takes, and
/// in `b` and `LL` of the EVEX prefix of their first template.
pub open spec fn differ_by_rounding(marked: FormView, plain: FormView) -> bool {
    &&& plain.mmx_mode == marked.mmx_mode
    &&& plain.xmm_mode == marked.xmm_mode
    &&& plain.canceling_inputs == marked.canceling_inputs
    &&& plain.isas == marked.isas
    &&& plain.implicit_operands == marked.implicit_operands
    &&& plain.operands == without_pseudo(marked.operands, marked.operands.len())
    &&& plain.encodings.len() == marked.encodings.len()
    &&& forall|k: int|
        1 <= k < marked.encodings.len() ==> #[trigger] plain.encodings[k] == marked.encodings[k]
    &&& marked.encodings.len() > 0 ==> {
        let m = marked.encodings[0];
        let p = plain.encodings[0];
        &&& (EncodingView { evex: None, ..p }) == (EncodingView { evex: None, ..m })
        &&& match m.evex {
            Some(me) => {
                &&& p.evex is Some
                &&& (EVEX { b: ZeroRef::Zero, LL: LLBitRef::Zero, ..p.evex->0 }) == (EVEX {
                    b: ZeroRef::Zero,
                    LL: LLBitRef::Zero,
                    ..me
                })
                &&& me.b == ZeroRef::EVEX_b_ONE
                &&& p.evex->0.b == ZeroRef::Zero
                &&& p.evex->0.LL == LLBitRef::Two
            },
            None => p.evex is None,
        }
    }
}

/// The place after expansion of the plain variant of the form at index `i`:
/// behind the old forms, in the order of the forms that have a variant.
pub open spec fn variant_place(forms: Seq<FormView>, i: int) -> int {
    (forms.len() + plain_variants(forms, i as nat).len()) as int
}

/// Every form that takes `{sae}` or `{er}` stands after expansion for exactly
/// two forms: itself in its old place, marked by `EVEX.b`, and its plain
/// variant behind the old forms. The two differ in the pseudo-operand and in
/// `b` and `LL` of the first template's EVEX prefix, and in nothing else.
pub proof fn lemma_expansion_conservation(forms: Seq<FormView>, i: int)
    requires
        0 <= i < forms.len(),
        has_pseudo(forms[i]),
    ensures
        expanded(forms).len() == forms.len() + plain_variants(forms, forms.len()).len(),
        variant_place(forms, i) < expanded(forms).len(),
        expanded(forms)[i] == rounding_variant(forms[i]),
        expanded(forms)[variant_place(forms, i)] == plain_variant(forms[i]),
        differ_by_rounding(rounding_variant(forms[i]), plain_variant(forms[i])),
        rounding_variant(forms[i]).operands == forms[i].operands,
{
    lemma_plain_variants(forms, forms.len());
    let at = plain_variants(forms, i as nat).len();
    assert(plain_variants(forms, forms.len())[at as int] == plain_variant(forms[i]));
}

/// A form that takes no pseudo-operand is not touched by expansion, and the
/// old forms keep their places.
pub proof fn lemma_expansion_keeps_plain_forms(forms: Seq<FormView>, i: int)
    requires
        0 <= i < forms.len(),
        !has_pseudo(forms[i]),
    ensures
        expanded(forms)[i] == forms[i],
{
}

/// After expansion and filtering no form takes `moffs32` or `moffs64`, and
/// a form that still takes `{sae}` or `{er}` is one of the old forms,
/// marked as the one that takes the pseudo-operand.
pub proof fn lemma_filter_soundness(forms: Seq<FormView>)
    ensures
        forall|k: int|
            0 <= k < filtered(expanded(forms)).len() ==> {
                let form = #[trigger] filtered(expanded(forms))[k];
                &&& !has_moffs(form)
                &&& has_pseudo(form) ==> exists|i: int|
                    0 <= i < forms.len() && has_pseudo(forms[i]) && form == rounding_variant(
                        #[trigger] forms[i],
                    )
            },
{
    let all = expanded(forms);
    lemma_filtered_forms(all);
    lemma_plain_variants(forms, forms.len());
    assert forall|k: int| 0 <= k < filtered(all).len() implies {
        let form = #[trigger] filtered(all)[k];
        &&& !has_moffs(form)
        &&& has_pseudo(form) ==> exists|i: int|
            0 <= i < forms.len() && has_pseudo(forms[i]) && form == rounding_variant(
                #[trigger] forms[i],
            )
    } by {
        let form = filtered(all)[k];
        assert(occurs_in(form, all));
        let j = choose|j: int| 0 <= j < all.len() && #[trigger] all[j] == form;
        if has_pseudo(form) {
            if j < forms.len() {
                assert(all[j] == marked(forms[j]));
                assert(has_pseudo(forms[j]));
                assert(form == rounding_variant(forms[j]));
            } else {
                assert(all[j] == plain_variants(forms, forms.len())[j - forms.len()]);
                assert(false);
            }
        }
    }
}

proof fn lemma_without_pseudo_closed(operands: Seq<Operand>, n: nat)
    requires
        n <= operands.len(),
        closed_operands(operands),
    ensures
        closed_operands(without_pseudo(operands, n)),
    decreases n,
{
    if n > 0 {
        lemma_without_pseudo_closed(operands, (n - 1) as nat);
    }
}

proof fn lemma_plain_variants_closed(forms: Seq<FormView>, n: nat)
    requires
        n <= forms.len(),
        closed_forms(forms),
    ensures
        closed_forms(plain_variants(forms, n)),
    decreases n,
{
    if n > 0 {
        lemma_plain_variants_closed(forms, (n - 1) as nat);
        lemma_without_pseudo_closed(forms[n - 1].operands, forms[n - 1].operands.len());
    }
}

/// Expansion keeps the taxonomy closed: where every operand had a kind
/// before, every operand has one after.
pub proof fn lemma_expansion_keeps_taxonomy(set: Seq<InstructionView>)
    requires
        closed_set(set),
    ensures
        closed_set(expanded_set(set)),
{
    assert forall|k: int| 0 <= k < expanded_set(set).len() implies closed_forms(
        (#[trigger] expanded_set(set)[k]).forms,
    ) by {
        let forms = set[k].forms;
        assert(closed_forms(forms));
        lemma_plain_variants_closed(forms, forms.len());
        let variants = plain_variants(forms, forms.len());
        assert forall|i: int| 0 <= i < expanded(forms).len() implies closed_operands(
            (#[trigger] expanded(forms)[i]).operands,
        ) by {
            if i < forms.len() {
                assert(expanded(forms)[i] == marked(forms[i]));
                assert(closed_operands(forms[i].operands));
            } else {
                assert(expanded(forms)[i] == variants[i - forms.len()]);
                assert(closed_operands(variants[i - forms.len()].operands));
            }
        }
    }
}

/// The forms of a mnemonic as the loader leaves them: expanded, then
/// filtered and put in order of arity.
pub open spec fn prepared(forms: Seq<FormView>) -> Seq<FormView> {
    filtered(expanded(forms))
}

/// A mnemonic as the loader leaves it.
pub open spec fn prepared_instruction(ins: InstructionView) -> InstructionView {
    InstructionView { forms: prepared(ins.forms), ..ins }
}

/// An instruction set as the loader leaves it.
pub open spec fn prepared_set(set: Seq<InstructionView>) -> Seq<InstructionView> {
    Seq::new(set.len(), |i: int| prepared_instruction(set[i]))
}

/// The forms of one mnemonic as the loader leaves them: the forms that take
/// `{sae}` or `{er}` are expanded, the forms that take `moffs32` or `moffs64`
/// are dropped, and the rest stands in ascending order of arity.
pub fn prepare_forms(forms: &Vec<InstructionForm>) -> (r: Vec<InstructionForm>)
    ensures
        form_views(r@) == prepared(form_views(forms@)),
        ascending_arity(form_views(r@)),
        forall|k: int| 0 <= k < r@.len() ==> !has_moffs(#[trigger] r@[k]@),
{
    let all = expand_forms(forms);
    let kept = filter_instruction_forms(&all);
    let ghost views = referenced_views(kept@);
    let mut out: Vec<InstructionForm> = Vec::new();
    let mut i: usize = 0;
    while i < kept.len()
        invariant
            i <= kept@.len(),
            views == referenced_views(kept@),
            out@.len() == i,
            forall|k: int| 0 <= k < i ==> (#[trigger] out@[k])@ == views[k],
        decreases kept@.len() - i,
    {
        assert(views[i as int] == kept@[i as int]@);
        let form = kept[i].clone();
        out.push(form);
        i = i + 1;
    }
    assert(form_views(out@) =~= views);
    assert forall|k: int| 0 <= k < out@.len() implies !has_moffs(#[trigger] out@[k]@) by {
        assert(out@[k]@ == kept@[k]@);
    }
    out
}

/// Expands and filters every mnemonic of an instruction set.
pub fn prepare_instruction_set(instructions: &Vec<Instruction>) -> (r: Vec<Instruction>)
    ensures
        instruction_views(r@) == prepared_set(instruction_views(instructions@)),
{
    let ghost old_views = instruction_views(instructions@);
    let mut out: Vec<Instruction> = Vec::new();
    let mut i: usize = 0;
    while i < instructions.len()
        invariant
            i <= instructions@.len(),
            old_views == instruction_views(instructions@),
            out@.len() == i,
            forall|k: int|
                0 <= k < i ==> (#[trigger] out@[k])@ == prepared_instruction(old_views[k]),
        decreases instructions@.len() - i,
    {
        let ins = &instructions[i];
        let forms = prepare_forms(&ins.forms);
        out.push(Instruction { name: ins.name.clone(), summary: ins.summary.clone(), forms });
        i = i + 1;
    }
    assert(instruction_views(out@) =~= prepared_set(old_views));
    out
}

/// The instruction set that a text describes, as the loader leaves it:
/// every mnemonic with its forms expanded, filtered and in order of arity.
pub open spec fn loaded_instruction_set(text: Seq<char>) -> Result<
    Seq<InstructionView>,
    ParseFault,
> {
    match loaded_instructions(text) {
        Ok(set) => Ok(prepared_set(set)),
        Err(e) => Err(e),
    }
}

/// Reads an instruction set from the text of its description, expands the
/// forms that take `{sae}` or `{er}`, drops the forms that take `moffs32` or
/// `moffs64` and puts the forms of each mnemonic in ascending order of arity.
pub fn load_instruction_set(text: &str) -> (r: Result<Vec<Instruction>, ParseInsError>)
    ensures
        match r {
            Ok(list) => loaded_instruction_set(text@) == Ok::<Seq<InstructionView>, ParseFault>(
                instruction_views(list@),
            ),
            Err(e) => loaded_instruction_set(text@) == Err::<Seq<InstructionView>, ParseFault>(e@),
        },
{
    let instructions = load_instructions(text)?;
    Ok(prepare_instruction_set(&instructions))
}

/// The forms that the loader hands out are filtered already: to filter them
/// again leaves every form in its place.
pub proof fn lemma_prepared_forms_are_filtered(forms: Seq<FormView>)
    ensures
        filtered(prepared(forms)) == prepared(forms),
{
    lemma_filter_is_idempotent(expanded(forms));
}

/// What holds of every mnemonic that the loader hands out: its forms stand
/// in non-decreasing order of arity, none of them takes `moffs32` or
/// `moffs64`, and one that takes `{sae}` or `{er}` is a form of the
/// description, marked as the one that takes the pseudo-operand.
pub proof fn lemma_loader_soundness(set: Seq<InstructionView>, k: int)
    requires
        0 <= k < set.len(),
    ensures
        ascending_arity(prepared_set(set)[k].forms),
        forall|i: int|
            0 <= i < prepared_set(set)[k].forms.len() ==> {
                let form = #[trigger] prepared_set(set)[k].forms[i];
                &&& !has_moffs(form)
                &&& has_pseudo(form) ==> exists|j: int|
                    0 <= j < set[k].forms.len() && has_pseudo(set[k].forms[j]) && form
                        == rounding_variant(#[trigger] set[k].forms[j])
            },
{
    let forms = set[k].forms;
    assert(prepared_set(set)[k].forms == prepared(forms));
    lemma_filtered_forms(expanded(forms));
    lemma_filter_soundness(forms);
}

/// Whether the first template of a form holds the constant one on `EVEX.b`.
pub open spec fn carries_marker(form: FormView) -> bool {
    &&& form.encodings.len() > 0
    &&& form.encodings[0].evex matches Some(evex)
    &&& evex.b == ZeroRef::EVEX_b_ONE
}

/// Among the forms that the loader hands out, the constant one on `EVEX.b`
/// tells the forms that take `{sae}` or `{er}`: where no form of the
/// description holds the constant, which is so of every description that
/// was read from a document, a form holds it only if it takes a
/// pseudo-operand, and a form that takes one and whose first template has an
/// EVEX prefix holds it.
pub proof fn lemma_marker_tells_pseudo(forms: Seq<FormView>)
    requires
        unmarked_forms(forms),
    ensures
        forall|i: int|
            0 <= i < prepared(forms).len() ==> {
                let form = #[trigger] prepared(forms)[i];
                &&& carries_marker(form) ==> has_pseudo(form)
                &&& has_pseudo(form) && form.encodings.len() > 0 && form.encodings[0].evex is Some
                    ==> carries_marker(form)
            },
{
    let all = expanded(forms);
    lemma_filtered_forms(all);
    lemma_plain_variants(forms, forms.len());
    lemma_plain_variants_from(forms, forms.len());
    assert forall|i: int| 0 <= i < prepared(forms).len() implies {
        let form = #[trigger] prepared(forms)[i];
        &&& carries_marker(form) ==> has_pseudo(form)
        &&& has_pseudo(form) && form.encodings.len() > 0 && form.encodings[0].evex is Some
            ==> carries_marker(form)
    } by {
        let form = prepared(forms)[i];
        assert(occurs_in(form, all));
        let j = choose|j: int| 0 <= j < all.len() && #[trigger] all[j] == form;
        if j < forms.len() {
            assert(all[j] == marked(forms[j]));
            let old = forms[j];
            if has_pseudo(old) {
                assert(form == rounding_variant(old));
            } else {
                assert(form == old);
                if old.encodings.len() > 0 {
                    assert(old.encodings[0].evex matches Some(evex) ==> evex.b
                        != ZeroRef::EVEX_b_ONE);
                }
            }
        } else {
            let variants = plain_variants(forms, forms.len());
            assert(all[j] == variants[j - forms.len()]);
            assert(!has_pseudo(form));
            assert(!carries_marker(form));
        }
    }
}

proof fn lemma_plain_variants_from(forms: Seq<FormView>, n: nat)
    requires
        n <= forms.len(),
    ensures
        forall|k: int|
            0 <= k < plain_variants(forms, n).len() ==> !carries_marker(
                #[trigger] plain_variants(forms, n)[k],
            ),
    decreases n,
{
    if n > 0 {
        lemma_plain_variants_from(forms, (n - 1) as nat);
        let shorter = plain_variants(forms, (n - 1) as nat);
        let form = forms[n - 1];
        assert(!carries_marker(plain_variant(form))) by {
            if form.encodings.len() > 0 && form.encodings[0].evex is Some {
                assert(plain_variant(form).encodings[0].evex->0.b == ZeroRef::Zero);
            }
        }
        assert forall|k: int| 0 <= k < plain_variants(forms, n).len() implies !carries_marker(
            #[trigger] plain_variants(forms, n)[k],
        ) by {
            if k < shorter.len() {
                assert(plain_variants(forms, n)[k] == shorter[k]);
            }
        }
    }
}

/// In an instruction set that the loader makes of a document, the constant
/// one on `EVEX.b` stands exactly on the forms that take `{sae}` or `{er}`
/// and whose first template has an EVEX prefix.
pub proof fn lemma_loaded_marker(document: Json, k: int)
    requires
        instruction_set_of(document) is Ok,
        0 <= k < instruction_set_of(document)->Ok_0.len(),
    ensures
        ({
            let forms = prepared_set(instruction_set_of(document)->Ok_0)[k].forms;
            forall|i: int|
                0 <= i < forms.len() ==> (carries_marker(#[trigger] forms[i]) <==> has_pseudo(
                    forms[i],
                ) && forms[i].encodings.len() > 0 && forms[i].encodings[0].evex is Some)
        }),
{
    let set = instruction_set_of(document)->Ok_0;
    lemma_parsed_forms_unmarked(document);
    assert(unmarked_forms(set[k].forms));
    lemma_marker_tells_pseudo(set[k].forms);
    assert(prepared_set(set)[k].forms == prepared(set[k].forms));
}

/// The loader keeps the taxonomy closed: where every operand of the
/// description had a kind, every operand that it hands out has one.
pub proof fn lemma_loader_keeps_taxonomy(set: Seq<InstructionView>)
    requires
        closed_set(set),
    ensures
        closed_set(prepared_set(set)),
{
    lemma_expansion_keeps_taxonomy(set);
    assert forall|k: int| 0 <= k < prepared_set(set).len() implies closed_forms(
        (#[trigger] prepared_set(set)[k]).forms,
    ) by {
        let all = expanded(set[k].forms);
        assert(expanded_set(set)[k].forms == all);
        assert(closed_forms(all));
        lemma_filtered_forms(all);
        assert forall|i: int| 0 <= i < filtered(all).len() implies closed_operands(
            (#[trigger] filtered(all)[i]).operands,
        ) by {
            let form = filtered(all)[i];
            assert(occurs_in(form, all));
            let j = choose|j: int| 0 <= j < all.len() && #[trigger] all[j] == form;
            assert(closed_operands(all[j].operands));
        }
    }
}

/// Whether the first extension that a form names belongs to the AVX-512
/// family: its code lies strictly between 72 and 80. A form that names no
/// extension does not.
pub open spec fn avx512(form: FormView) -> bool {
    form.isas.len() > 0 && 72 < form.isas[0].spec_code() < 80
}

/// Whether a form belongs to the AVX-512 family by the first extension that
/// it names.
pub fn is_avx512(form: &InstructionForm) -> (r: bool)
    ensures
        r == avx512(form@),
        form@.isas.len() == 0 ==> !r,
{
    if form.isas.len() > 0 {
        let code: u8 = form.isas[0].code();
        code > 72 && code < 80
    } else {
        false
    }
}

} // verus!
