//! The failures a conversion or a walk can end in.
use vstd::prelude::*;

verus! {

/// The error of the toolkit's address decoder, which is carried along as it
/// is.
#[verifier::external_type_specification]
#[verifier::external_body]
pub struct ExAddressError(pallas::ledger::addresses::Error);

/// Why a conversion stopped. Every failure aborts the whole enclosing block.
#[derive(Debug)]
pub enum ConvertError {
    /// The bytes of an output's address are no address; the decoder's own
    /// error is carried along unchanged.
    MalformedAddress(pallas::ledger::addresses::Error),
    /// An integer nested in transaction metadata lies outside the range that
    /// a JSON number can hold, `i64::MIN ..= u64::MAX`.
    MetadataNumberOutOfRange,
    /// The sections of a transaction are longer together than the 32 bits
    /// of a record's size can say.
    SizeOutOfRange,
    /// The coin of the outputs of a transaction adds up to more than the 64
    /// bits of a record's total can say.
    TotalOutputOutOfRange,
}

/// A failure as contracts speak of it: its kind, and the decoder's error
/// where it carries one.
pub enum Failure {
    MalformedAddress(pallas::ledger::addresses::Error),
    MetadataNumberOutOfRange,
    SizeOutOfRange,
    TotalOutputOutOfRange,
}

impl View for ConvertError {
    type V = Failure;

    open spec fn view(&self) -> Failure {
        match *self {
            ConvertError::MalformedAddress(e) => Failure::MalformedAddress(e),
            ConvertError::MetadataNumberOutOfRange => Failure::MetadataNumberOutOfRange,
            ConvertError::SizeOutOfRange => Failure::SizeOutOfRange,
            ConvertError::TotalOutputOutOfRange => Failure::TotalOutputOutOfRange,
        }
    }
}

/// The view of an outcome: the view of the value, or the failure.
pub open spec fn result_view<T: View>(outcome: Result<T, ConvertError>) -> Result<T::V, Failure> {
    match outcome {
        Ok(x) => Ok(x@),
        Err(e) => Err(e@),
    }
}

/// The view of the outcome of a collection: the views of the elements, or
/// the failure.
pub open spec fn results_view<T: View>(outcome: Result<Vec<T>, ConvertError>) -> Result<
    Seq<T::V>,
    Failure,
> {
    match outcome {
        Ok(x) => Ok(crate::views::views(x@)),
        Err(e) => Err(e@),
    }
}

/// All or nothing: every value, in order, where each outcome is a value;
/// else the first failure.
pub open spec fn all_ok<T>(outcomes: Seq<Result<T, Failure>>) -> Result<Seq<T>, Failure>
    decreases outcomes.len(),
{
    if outcomes.len() == 0 {
        Ok(Seq::empty())
    } else {
        match all_ok(outcomes.drop_last()) {
            Err(e) => Err(e),
            Ok(values) => match outcomes.last() {
                Ok(x) => Ok(values.push(x)),
                Err(e) => Err(e),
            },
        }
    }
}

/// One more outcome after a prefix of values extends the values or ends in
/// its failure.
pub proof fn lemma_all_ok_step<T>(outcomes: Seq<Result<T, Failure>>, i: int)
    requires
        0 <= i < outcomes.len(),
    ensures
        all_ok(outcomes.take(i + 1)) == match all_ok(outcomes.take(i)) {
            Err(e) => Err(e),
            Ok(values) => match outcomes[i] {
                Ok(x) => Ok(values.push(x)),
                Err(e) => Err(e),
            },
        },
{
    assert(outcomes.take(i + 1).drop_last() =~= outcomes.take(i));
}

/// A failure within a prefix is the failure of the whole.
pub proof fn lemma_all_ok_failure<T>(outcomes: Seq<Result<T, Failure>>, i: int)
    requires
        0 <= i <= outcomes.len(),
        all_ok(outcomes.take(i)) is Err,
    ensures
        all_ok(outcomes) == all_ok(outcomes.take(i)),
    decreases outcomes.len() - i,
{
    if i == outcomes.len() {
        assert(outcomes.take(i) =~= outcomes);
    } else {
        lemma_all_ok_step(outcomes, i);
        lemma_all_ok_failure(outcomes, i + 1);
    }
}

/// Where every outcome is a value, the values are the outcomes' in order.
pub proof fn lemma_all_ok_values<T>(outcomes: Seq<Result<T, Failure>>)
    ensures
        all_ok(outcomes) is Ok ==> all_ok(outcomes)->Ok_0.len() == outcomes.len(),
        all_ok(outcomes) is Ok ==> forall|i: int|
            0 <= i < outcomes.len() ==> #[trigger] outcomes[i] == Ok::<T, Failure>(
                all_ok(outcomes)->Ok_0[i],
            ),
        all_ok(outcomes) is Ok <==> forall|i: int|
            0 <= i < outcomes.len() ==> (#[trigger] outcomes[i]) is Ok,
    decreases outcomes.len(),
{
    if outcomes.len() > 0 {
        lemma_all_ok_values(outcomes.drop_last());
        if all_ok(outcomes.drop_last()) is Ok {
            assert forall|i: int| 0 <= i < outcomes.len() - 1 implies (#[trigger] outcomes[i])
                == outcomes.drop_last()[i] by {}
            if forall|i: int| 0 <= i < outcomes.len() ==> (#[trigger] outcomes[i]) is Ok {
                assert(outcomes[outcomes.len() - 1] is Ok);
            }
        } else {
            let j = choose|j: int|
                0 <= j < outcomes.drop_last().len() && !((#[trigger] outcomes.drop_last()[j]) is Ok);
            assert(outcomes[j] == outcomes.drop_last()[j]);
        }
    }
}

} // verus!
