//! Combining the commands of a composite value's fields.
//!
//! A composite (an axis, a plot) owns its fields and has nothing to say of its
//! own: its commands are those of its fields, visited in declaration order.
//! The first field that fails decides the result, and no field after it is
//! asked.

use crate::command::{
    nothing, outcome, texts, Failure, GnuCommand, GnuCommandFactory, GnuCommandFactoryError,
    GnuCommandFactoryResult, Outcome,
};
use std::collections::VecDeque;
use vstd::prelude::*;

verus! {

/// The outcome after one more field: an earlier failure stands, a new failure
/// replaces the commands so far, and new commands go behind them.
pub open spec fn join(so_far: Outcome, next: Outcome) -> Outcome {
    match so_far {
        Err(failure) => Err(failure),
        Ok(head) => match next {
            Err(failure) => Err(failure),
            Ok(tail) => Ok(head + tail),
        },
    }
}

/// The outcome of a composite whose fields, in declaration order, have the
/// outcomes `parts`.
pub open spec fn merge(parts: Seq<Outcome>) -> Outcome
    decreases parts.len(),
{
    if parts.len() == 0 {
        nothing()
    } else {
        join(merge(parts.drop_last()), parts.last())
    }
}

/// The commands that one field contributes: none where it failed.
pub open spec fn contribution(part: Outcome) -> Seq<Seq<char>> {
    match part {
        Ok(commands) => commands,
        Err(_) => Seq::empty(),
    }
}

/// How many commands the first `upto` fields contribute together.
pub open spec fn offset(parts: Seq<Outcome>, upto: int) -> nat
    decreases upto,
{
    if upto <= 0 {
        0
    } else {
        offset(parts, upto - 1) + contribution(parts[upto - 1]).len()
    }
}

/// Collects the commands of a composite's fields, one `visit` per field.
pub struct Aggregator {
    commands: VecDeque<GnuCommand>,
    failure: Option<GnuCommandFactoryError>,
}

impl View for Aggregator {
    type V = Outcome;

    closed spec fn view(&self) -> Outcome {
        match self.failure {
            Some(error) => Err(error@),
            None => Ok(texts(self.commands@)),
        }
    }
}

impl Aggregator {
    /// An aggregator that has seen no field yet.
    pub fn new() -> (result: Self)
        ensures
            result@ == nothing(),
    {
        let result = Aggregator { commands: VecDeque::new(), failure: None };
        assert(texts(result.commands@) =~= Seq::<Seq<char>>::empty());
        result
    }

    /// Takes in the next field. Once a field has failed, later fields are
    /// not asked for their commands.
    pub fn visit<F: GnuCommandFactory>(&mut self, field: &F)
        ensures
            final(self)@ == join(old(self)@, field.commands()),
    {
        if self.failure.is_none() {
            match field.as_commands() {
                Ok(mut more) => {
                    let ghost before = self.commands@;
                    let ghost added = more@;
                    self.commands.append(&mut more);
                    proof {
                        lemma_texts_of_concatenation(before, added);
                    }
                },
                Err(error) => {
                    self.failure = Some(error);
                },
            }
        }
    }

    /// The result for the fields visited.
    pub fn finish(self) -> (result: GnuCommandFactoryResult)
        ensures
            outcome(result) == self@,
    {
        match self.failure {
            Some(error) => Err(error),
            None => Ok(self.commands),
        }
    }
}

/// The texts of two runs of commands put together are the texts of the first
/// followed by those of the second.
pub proof fn lemma_texts_of_concatenation(first: Seq<GnuCommand>, second: Seq<GnuCommand>)
    ensures
        texts(first + second) == texts(first) + texts(second),
{
    assert(texts(first + second) =~= texts(first) + texts(second));
}

/// Joining is associative: it does not matter how a run of fields is grouped
/// into nested composites.
pub proof fn lemma_join_is_associative(a: Outcome, b: Outcome, c: Outcome)
    ensures
        join(join(a, b), c) == join(a, join(b, c)),
{
    if let Ok(x) = a {
        if let Ok(y) = b {
            if let Ok(z) = c {
                assert((x + y) + z =~= x + (y + z));
            }
        }
    }
}

/// Nothing is neutral on both sides of a join.
pub proof fn lemma_join_with_nothing(a: Outcome)
    ensures
        join(nothing(), a) == a,
        join(a, nothing()) == a,
{
    if let Ok(x) = a {
        assert(Seq::<Seq<char>>::empty() + x =~= x);
        assert(x + Seq::<Seq<char>>::empty() =~= x);
    }
}

/// One more field at the end is one more join.
pub proof fn lemma_merge_push(parts: Seq<Outcome>, next: Outcome)
    ensures
        merge(parts.push(next)) == join(merge(parts), next),
{
    assert(parts.push(next).drop_last() =~= parts);
}

/// A composite of one field generates what the field generates.
pub proof fn lemma_merge_of_one(part: Outcome)
    ensures
        merge(seq![part]) == part,
        merge(seq![part]) == join(nothing(), part),
{
    lemma_merge_push(Seq::empty(), part);
    assert(Seq::<Outcome>::empty().push(part) =~= seq![part]);
    lemma_join_with_nothing(part);
}

/// Fields listed in two runs merge to the join of the two runs' outcomes: a
/// nested composite stands in its parent as one block.
pub proof fn lemma_merge_of_concatenation(first: Seq<Outcome>, second: Seq<Outcome>)
    ensures
        merge(first + second) == join(merge(first), merge(second)),
    decreases second.len(),
{
    if second.len() == 0 {
        assert(first + second =~= first);
        lemma_join_with_nothing(merge(first));
    } else {
        assert((first + second).drop_last() =~= first + second.drop_last());
        lemma_merge_of_concatenation(first, second.drop_last());
        lemma_join_is_associative(merge(first), merge(second.drop_last()), second.last());
    }
}

/// Generation succeeds exactly when every field succeeds.
pub proof fn lemma_merge_succeeds_iff_all_fields_do(parts: Seq<Outcome>)
    ensures
        merge(parts) is Ok <==> (forall|i: int| 0 <= i < parts.len() ==> parts[i] is Ok),
    decreases parts.len(),
{
    if parts.len() > 0 {
        let front = parts.drop_last();
        lemma_merge_succeeds_iff_all_fields_do(front);
        if merge(parts) is Ok {
            assert forall|i: int| 0 <= i < parts.len() implies parts[i] is Ok by {
                if i < front.len() {
                    assert(front[i] is Ok);
                }
            }
        } else if merge(front) is Ok {
            assert(!(parts[parts.len() - 1] is Ok));
        } else {
            let i = choose|i: int| 0 <= i < front.len() && !(front[i] is Ok);
            assert(!(parts[i] is Ok));
        }
    }
}

/// The first field that fails decides: generation fails with that field's
/// failure, unchanged, and hands back no command of any field.
pub proof fn lemma_first_failure_decides(parts: Seq<Outcome>, field: int)
    requires
        0 <= field < parts.len(),
        parts[field] is Err,
        forall|i: int| 0 <= i < field ==> parts[i] is Ok,
    ensures
        merge(parts) == Err::<Seq<Seq<char>>, Failure>(parts[field]->Err_0),
    decreases parts.len(),
{
    let front = parts.drop_last();
    if field == parts.len() - 1 {
        lemma_merge_succeeds_iff_all_fields_do(front);
        assert forall|i: int| 0 <= i < front.len() implies front[i] is Ok by {
            assert(front[i] == parts[i]);
        }
    } else {
        assert(front[field] == parts[field]);
        assert forall|i: int| 0 <= i < field implies front[i] is Ok by {
            assert(front[i] == parts[i]);
        }
        lemma_first_failure_decides(front, field);
    }
}

/// A field that contributes nothing can be taken out of the declaration
/// without changing what is generated: what the other fields contribute
/// keeps its place and its order.
pub proof fn lemma_silent_field_changes_nothing(parts: Seq<Outcome>, field: int)
    requires
        0 <= field < parts.len(),
        parts[field] == nothing(),
    ensures
        merge(parts) == merge(parts.remove(field)),
{
    let before = parts.subrange(0, field);
    let after = parts.subrange(field + 1, parts.len() as int);
    let it = seq![parts[field]];
    assert(parts =~= (before + it) + after);
    assert(parts.remove(field) =~= before + after);
    lemma_merge_of_concatenation(before + it, after);
    lemma_merge_of_concatenation(before, it);
    lemma_merge_of_concatenation(before, after);
    assert(it =~= Seq::<Outcome>::empty().push(parts[field]));
    lemma_merge_push(Seq::<Outcome>::empty(), parts[field]);
    lemma_join_with_nothing(nothing());
    lemma_join_with_nothing(merge(before));
}

/// The offset of a field depends on the fields before it only.
pub proof fn lemma_offset_of_prefix(parts: Seq<Outcome>, other: Seq<Outcome>, upto: int)
    requires
        0 <= upto <= parts.len(),
        upto <= other.len(),
        forall|i: int| 0 <= i < upto ==> parts[i] == other[i],
    ensures
        offset(parts, upto) == offset(other, upto),
    decreases upto,
{
    if upto > 0 {
        lemma_offset_of_prefix(parts, other, upto - 1);
    }
}

/// Offsets grow with the position of the field.
pub proof fn lemma_offset_is_monotone(parts: Seq<Outcome>, earlier: int, later: int)
    requires
        0 <= earlier <= later,
    ensures
        offset(parts, earlier) <= offset(parts, later),
    decreases later,
{
    if earlier < later {
        lemma_offset_is_monotone(parts, earlier, later - 1);
    }
}

/// Where every field succeeds, the generated sequence is the fields'
/// contributions laid end to end in declaration order: each field's commands
/// stand, in their own order, at the offset that the fields before it fill,
/// so the commands of an earlier field all come before those of a later one.
pub proof fn lemma_commands_follow_declaration_order(parts: Seq<Outcome>, field: int)
    requires
        forall|i: int| 0 <= i < parts.len() ==> parts[i] is Ok,
        0 <= field < parts.len(),
    ensures
        merge(parts) is Ok,
        merge(parts)->Ok_0.len() == offset(parts, parts.len() as int),
        offset(parts, field) + contribution(parts[field]).len() <= merge(parts)->Ok_0.len(),
        merge(parts)->Ok_0.subrange(
            offset(parts, field) as int,
            (offset(parts, field) + contribution(parts[field]).len()) as int,
        ) == contribution(parts[field]),
    decreases parts.len(),
{
    let front = parts.drop_last();
    let last = parts.len() - 1;
    lemma_merge_succeeds_iff_all_fields_do(parts);
    lemma_merge_succeeds_iff_all_fields_do(front);
    assert forall|i: int| 0 <= i < front.len() implies front[i] is Ok by {
        assert(front[i] == parts[i]);
    }
    lemma_total_length(front);
    lemma_total_length(parts);
    lemma_offset_of_prefix(front, parts, last);
    let head = merge(front)->Ok_0;
    let tail = contribution(parts[last]);
    let all = merge(parts)->Ok_0;
    assert(all == head + tail);
    if field == last {
        assert(all.subrange(head.len() as int, (head.len() + tail.len()) as int) =~= tail);
    } else {
        lemma_commands_follow_declaration_order(front, field);
        lemma_offset_of_prefix(front, parts, field);
        assert(front[field] == parts[field]);
        let from = offset(parts, field) as int;
        let to = (from + contribution(parts[field]).len()) as int;
        assert(all.subrange(from, to) =~= head.subrange(from, to));
    }
}

/// Where every field succeeds, as many commands are generated as the fields
/// contribute together.
pub proof fn lemma_total_length(parts: Seq<Outcome>)
    requires
        forall|i: int| 0 <= i < parts.len() ==> parts[i] is Ok,
    ensures
        merge(parts) is Ok,
        merge(parts)->Ok_0.len() == offset(parts, parts.len() as int),
    decreases parts.len(),
{
    if parts.len() > 0 {
        let front = parts.drop_last();
        assert forall|i: int| 0 <= i < front.len() implies front[i] is Ok by {
            assert(front[i] == parts[i]);
        }
        lemma_total_length(front);
        lemma_offset_of_prefix(front, parts, parts.len() - 1);
    }
}

} // verus!
