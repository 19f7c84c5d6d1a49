//! What holds of command generation whatever the fields are.

use crate::aggregate::{
    lemma_first_failure_decides, lemma_silent_field_changes_nothing, merge,
};
use crate::command::{
    nothing, outcome, Failure, GnuCommandFactory, GnuCommandFactoryResult, Outcome,
};
use crate::maybe::Maybe;
use crate::required::{missing_value_text, Required};
use vstd::prelude::*;

verus! {

/// An optional field that was left unset yields no command and no failure,
/// and a composite generates with it what it would generate without it.
pub proof fn lemma_unset_optional_field_is_silent<T: GnuCommandFactory>(
    unset: Maybe<T>,
    parts: Seq<Outcome>,
    field: int,
)
    requires
        unset is Nothing,
        0 <= field < parts.len(),
        parts[field] == unset.commands(),
    ensures
        unset.commands() == nothing(),
        merge(parts) == merge(parts.remove(field)),
{
    lemma_silent_field_changes_nothing(parts, field);
}

/// A required field that was left unset fails with `RequiredValueMissing`,
/// and so does a composite in which no field before it fails: no command is
/// handed back, neither of that field nor of any other.
pub proof fn lemma_unset_required_field_fails<T: GnuCommandFactory>(
    unset: Required<T>,
    parts: Seq<Outcome>,
    field: int,
)
    requires
        unset is Missing,
        0 <= field < parts.len(),
        parts[field] == unset.commands(),
        forall|i: int| 0 <= i < field ==> parts[i] is Ok,
    ensures
        unset.commands() == Err::<Seq<Seq<char>>, Failure>(
            Failure::RequiredValueMissing(missing_value_text()),
        ),
        merge(parts) == Err::<Seq<Seq<char>>, Failure>(
            Failure::RequiredValueMissing(missing_value_text()),
        ),
{
    lemma_first_failure_decides(parts, field);
}

/// Wherever an unset required field stands, generation fails: with that
/// field's failure, or with the failure of a field before it.
pub proof fn lemma_unset_required_field_prevents_success<T: GnuCommandFactory>(
    unset: Required<T>,
    parts: Seq<Outcome>,
    field: int,
)
    requires
        unset is Missing,
        0 <= field < parts.len(),
        parts[field] == unset.commands(),
    ensures
        merge(parts) is Err,
{
    crate::aggregate::lemma_merge_succeeds_iff_all_fields_do(parts);
}

/// Generating twice from the same value gives the same: whatever two calls
/// of `as_commands` return for one value, they stand for one outcome.
pub proof fn lemma_generation_is_repeatable<F: GnuCommandFactory>(
    value: &F,
    first: GnuCommandFactoryResult,
    second: GnuCommandFactoryResult,
)
    requires
        call_ensures(F::as_commands, (value,), first),
        call_ensures(F::as_commands, (value,), second),
    ensures
        outcome(first) == outcome(second),
        outcome(first) == value.commands(),
{
}

} // verus!
