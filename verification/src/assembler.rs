use crate::encoder::{encode_form, form_encoding, EncodeError};
use crate::operand::{signature_admits, signature_admitted, OperandValue};
use crate::types::{form_views, FormView, Instruction};
use vstd::prelude::*;

verus! {

/// Why a mnemonic and concrete operands give no instruction: no form takes
/// the operands (`form` is `None`), or the template of the form at the given
/// index is at fault.
#[derive(Debug)]
pub struct AssembleError {
    pub mnemonic: String,
    pub form: Option<usize>,
    pub kind: EncodeError,
}

/// An `AssembleError` as a mathematical value.
pub struct AssembleFault {
    pub mnemonic: Seq<char>,
    pub form: Option<usize>,
    pub kind: EncodeError,
}

impl View for AssembleError {
    type V = AssembleFault;

    open spec fn view(&self) -> AssembleFault {
        AssembleFault { mnemonic: self.mnemonic@, form: self.form, kind: self.kind }
    }
}

/// The form that is chosen among the first `n` forms of a mnemonic, with its
/// bytes: of the forms whose signature the operands fit, the one with the
/// fewest bytes, and of several such the first. A form that takes the
/// operands and whose template is at fault ends the choice.
pub open spec fn chosen(forms: Seq<FormView>, ops: Seq<OperandValue>, n: nat) -> Result<
    Option<(usize, Seq<u8>)>,
    (usize, EncodeError),
>
    decreases n,
{
    if n == 0 {
        Ok(None)
    } else {
        match chosen(forms, ops, (n - 1) as nat) {
            Err(e) => Err(e),
            Ok(best) => if !signature_admits(forms[n - 1].operands, ops) {
                Ok(best)
            } else {
                match form_encoding(forms[n - 1], ops) {
                    Err(e) => Err(((n - 1) as usize, e)),
                    Ok(bytes) => match best {
                        Some(b) => if bytes.len() < b.1.len() {
                            Ok(Some(((n - 1) as usize, bytes)))
                        } else {
                            Ok(best)
                        },
                        None => Ok(Some(((n - 1) as usize, bytes))),
                    },
                }
            },
        }
    }
}

/// What the choice among all forms of a mnemonic comes to.
pub open spec fn assembled(name: Seq<char>, forms: Seq<FormView>, ops: Seq<OperandValue>) -> Result<
    (usize, Seq<u8>),
    AssembleFault,
> {
    match chosen(forms, ops, forms.len()) {
        Ok(Some(choice)) => Ok(choice),
        Ok(None) => Err(
            AssembleFault { mnemonic: name, form: None, kind: EncodeError::OperandMismatch },
        ),
        Err(e) => Err(AssembleFault { mnemonic: name, form: Some(e.0), kind: e.1 }),
    }
}

/// A fault among the first `k` forms is the outcome of the whole choice.
pub proof fn lemma_fault_ends_choice(forms: Seq<FormView>, ops: Seq<OperandValue>, k: nat, n: nat)
    requires
        k <= n,
        chosen(forms, ops, k) is Err,
    ensures
        chosen(forms, ops, n) == chosen(forms, ops, k),
    decreases n - k,
{
    if k < n {
        lemma_fault_ends_choice(forms, ops, k, (n - 1) as nat);
    }
}

/// The chosen form is one of the forms, its bytes are what it encodes to,
/// and no form gives fewer bytes; a form before it gives more.
pub proof fn lemma_chosen_is_shortest(forms: Seq<FormView>, ops: Seq<OperandValue>, n: nat)
    requires
        n <= forms.len(),
        n <= usize::MAX,
        chosen(forms, ops, n) matches Ok(Some(_)),
    ensures
        ({
            let choice = chosen(forms, ops, n)->Ok_0->0;
            &&& choice.0 < n
            &&& form_encoding(forms[choice.0 as int], ops) == Ok::<Seq<u8>, EncodeError>(choice.1)
            &&& forall|j: int|
                0 <= j < n ==> match #[trigger] form_encoding(forms[j], ops) {
                    Ok(other) => choice.1.len() <= other.len() && (j < choice.0
                        ==> choice.1.len() < other.len()),
                    Err(_) => true,
                }
        }),
    decreases n,
{
    if n > 0 {
        let before = chosen(forms, ops, (n - 1) as nat);
        if before matches Ok(Some(_)) {
            lemma_chosen_is_shortest(forms, ops, (n - 1) as nat);
        } else {
            lemma_nothing_chosen(forms, ops, (n - 1) as nat);
        }
    }
}

/// Where nothing is chosen, no form encodes the operands.
pub proof fn lemma_nothing_chosen(forms: Seq<FormView>, ops: Seq<OperandValue>, n: nat)
    requires
        n <= forms.len(),
        chosen(forms, ops, n) == Ok::<Option<(usize, Seq<u8>)>, (usize, EncodeError)>(None),
    ensures
        forall|j: int| 0 <= j < n ==> #[trigger] form_encoding(forms[j], ops) is Err,
    decreases n,
{
    if n > 0 {
        lemma_nothing_chosen(forms, ops, (n - 1) as nat);
    }
}

/// Appends to the buffer the shortest instruction that a form of the
/// mnemonic gives for the operands, and returns the index of that form.
/// Where it is an error the buffer stays as it was.
pub fn assemble(ins: &Instruction, ops: &Vec<OperandValue>, buffer: &mut Vec<u8>) -> (r: Result<
    usize,
    AssembleError,
>)
    ensures
        match r {
            Ok(k) => assembled(ins@.name, ins@.forms, ops@) matches Ok(choice) && choice.0 == k
                && final(buffer)@ == old(buffer)@ + choice.1,
            Err(e) => {
                &&& assembled(ins@.name, ins@.forms, ops@) == Err::<
                    (usize, Seq<u8>),
                    AssembleFault,
                >(e@)
                &&& final(buffer)@ == old(buffer)@
            },
        },
{
    let ghost forms = ins@.forms;
    let mut best: Option<(usize, Vec<u8>)> = None;
    let mut i: usize = 0;
    while i < ins.forms.len()
        invariant
            i <= ins.forms@.len(),
            forms == form_views(ins.forms@),
            match best {
                Some(b) => chosen(forms, ops@, i as nat) == Ok::<
                    Option<(usize, Seq<u8>)>,
                    (usize, EncodeError),
                >(Some((b.0, b.1@))),
                None => chosen(forms, ops@, i as nat) == Ok::<
                    Option<(usize, Seq<u8>)>,
                    (usize, EncodeError),
                >(None),
            },
        decreases ins.forms@.len() - i,
    {
        let form = &ins.forms[i];
        assert(forms[i as int] == form@);
        if signature_admitted(&form.operands, ops) {
            match encode_form(form, ops) {
                Err(kind) => {
                    proof {
                        lemma_fault_ends_choice(forms, ops@, (i + 1) as nat, forms.len());
                    }
                    return Err(AssembleError { mnemonic: ins.name.clone(), form: Some(i), kind });
                },
                Ok(bytes) => {
                    let shorter = match &best {
                        Some(b) => bytes.len() < b.1.len(),
                        None => true,
                    };
                    if shorter {
                        best = Some((i, bytes));
                    }
                },
            }
        }
        i = i + 1;
    }
    match best {
        Some(b) => {
            let mut bytes = b.1;
            buffer.append(&mut bytes);
            Ok(b.0)
        },
        None => Err(
            AssembleError {
                mnemonic: ins.name.clone(),
                form: None,
                kind: EncodeError::OperandMismatch,
            },
        ),
    }
}

} // verus!
