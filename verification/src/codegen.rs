//! Code generation for the types of the standard library: `bool`, `Option` and `Vec`.

use vstd::prelude::*;
use vstd::string::StringExecFns;
use crate::errors::GerberResult;
use crate::traits::{GerberCode, PartialGerberCode, Rendering};

verus! {

/// A boolean renders as `1` or `0`.
impl PartialGerberCode for bool {
    open spec fn partial_supported(&self) -> bool {
        true
    }

    fn is_partial_supported(&self) -> (supported: bool) {
        true
    }

    open spec fn partial_code(&self) -> Rendering {
        Rendering::ok(
            if *self {
                "1"@
            } else {
                "0"@
            },
        )
    }

    fn serialize_partial(&self, writer: &mut String) -> (result: GerberResult<()>) {
        if *self {
            writer.append("1");
        } else {
            writer.append("0");
        }
        Ok(())
    }
}

/// An absent value renders as nothing.
impl<T: PartialGerberCode> PartialGerberCode for Option<T> {
    open spec fn partial_supported(&self) -> bool {
        match self {
            Some(value) => value.partial_supported(),
            None => true,
        }
    }

    fn is_partial_supported(&self) -> (supported: bool) {
        match self {
            Some(value) => value.is_partial_supported(),
            None => true,
        }
    }

    open spec fn partial_code(&self) -> Rendering {
        match self {
            Some(value) => value.partial_code(),
            None => Rendering::ok(Seq::empty()),
        }
    }

    fn serialize_partial(&self, writer: &mut String) -> (result: GerberResult<()>) {
        if let Some(ref value) = *self {
            value.serialize_partial(writer)?;
        }
        Ok(())
    }
}

/// The render of a sequence of lines: each item in order, with nothing in between, up to the
/// first that fails.
pub open spec fn sequence_code<G: GerberCode>(items: Seq<G>) -> Rendering
    decreases items.len(),
{
    if items.len() == 0 {
        Rendering::ok(Seq::empty())
    } else {
        sequence_code(items.drop_last()).and_then(items.last().code())
    }
}

/// Once a prefix of a sequence has failed, the rest of the sequence adds nothing.
pub proof fn lemma_sequence_code_failed_prefix<G: GerberCode>(items: Seq<G>, k: int)
    requires
        0 <= k <= items.len(),
        sequence_code(items.take(k)).failure is Some,
    ensures
        sequence_code(items) == sequence_code(items.take(k)),
    decreases items.len(),
{
    if k == items.len() {
        assert(items.take(k) =~= items);
    } else {
        assert(items.drop_last().take(k) =~= items.take(k));
        lemma_sequence_code_failed_prefix(items.drop_last(), k);
    }
}

/// A list with an item that fails renders as a failure.
pub proof fn lemma_sequence_code_failing_item<G: GerberCode>(items: Seq<G>, i: int)
    requires
        0 <= i < items.len(),
        items[i].code().failure is Some,
    ensures
        sequence_code(items).failure is Some,
    decreases items.len(),
{
    if i < items.len() - 1 {
        assert(items.drop_last()[i] == items[i]);
        lemma_sequence_code_failing_item(items.drop_last(), i);
    }
}

/// A list of one line renders as that line.
pub proof fn lemma_sequence_code_single<G: GerberCode>(item: G)
    ensures
        sequence_code(seq![item]).text =~= item.code().text,
        sequence_code(seq![item]).failure == item.code().failure,
{
    let items = seq![item];
    assert(items.drop_last() =~= Seq::<G>::empty());
    assert(sequence_code(items.drop_last()) == Rendering::ok(Seq::<char>::empty()));
    assert(items.last() == item);
}

/// Two lists in a row render as the first followed by the second, with nothing in between.
pub proof fn lemma_sequence_code_concat<G: GerberCode>(first: Seq<G>, second: Seq<G>)
    ensures
        sequence_code(first + second).text =~= sequence_code(first).and_then(
            sequence_code(second),
        ).text,
        sequence_code(first + second).failure == sequence_code(first).and_then(
            sequence_code(second),
        ).failure,
    decreases second.len(),
{
    if second.len() == 0 {
        assert(first + second =~= first);
    } else {
        assert((first + second).drop_last() =~= first + second.drop_last());
        assert((first + second).last() == second.last());
        lemma_sequence_code_concat(first, second.drop_last());
    }
}

/// A list of lines renders line by line.
impl<G: GerberCode> GerberCode for Vec<G> {
    open spec fn supported(&self) -> bool {
        forall|i: int| 0 <= i < self@.len() ==> (#[trigger] self@[i]).supported()
    }

    fn is_supported(&self) -> (supported: bool) {
        let mut i: usize = 0;
        while i < self.len()
            invariant
                i <= self@.len(),
                forall|j: int| 0 <= j < i ==> (#[trigger] self@[j]).supported(),
            decreases self@.len() - i,
        {
            if !self[i].is_supported() {
                proof {
                    lemma_sequence_code_failing_item(self@, i as int);
                }
                return false;
            }
            i = i + 1;
        }
        true
    }

    open spec fn code(&self) -> Rendering {
        sequence_code(self@)
    }

    fn serialize(&self, writer: &mut String) -> (result: GerberResult<()>) {
        let mut i: usize = 0;
        while i < self.len()
            invariant
                i <= self@.len(),
                writer@ =~= old(writer)@ + sequence_code(self@.take(i as int)).text,
                sequence_code(self@.take(i as int)).failure is None,
            decreases self@.len() - i,
        {
            let outcome = self[i].serialize(writer);
            proof {
                assert(self@.take(i + 1).drop_last() =~= self@.take(i as int));
                assert(self@.take(i + 1).last() == self@[i as int]);
            }
            match outcome {
                Err(e) => {
                    proof {
                        lemma_sequence_code_failed_prefix(self@, i + 1);
                    }
                    return Err(e);
                },
                Ok(()) => {},
            }
            i = i + 1;
        }
        proof {
            assert(self@.take(i as int) =~= self@);
        }
        Ok(())
    }
}

} // verus!
