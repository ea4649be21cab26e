//! Task posts and their steps: the suggestions offered while a step is typed,
//! the numbering of new steps, and the answers for missing posts.
use vstd::prelude::*;
use crate::text::{contains_text, lemma_contains_transitive, lemma_empty_occurs, text_contains};

verus! {

/// A step of a task as stored.
pub struct StepRecord {
    pub id: i32,
    pub index: i64,
    pub description: String,
    pub completed: i8,
}

/// A suggestion: the text shown and the step id it stands for.
pub struct Choice {
    pub name: String,
    pub value: i32,
}

/// The steps whose description holds `partial`, in their order.
pub open spec fn matching_steps(steps: Seq<StepRecord>, partial: Seq<char>) -> Seq<StepRecord> {
    steps.filter(|s: StepRecord| contains_text(s.description@, partial))
}

/// How a step is suggested: a check mark when done, an hourglass otherwise,
/// then " - " and its description.
pub open spec fn choice_name(s: StepRecord) -> Seq<char> {
    (if s.completed != 0 {
        "✅"@
    } else {
        "⏳"@
    }) + " - "@ + s.description@
}

fn choice_for(s: &StepRecord) -> (c: Choice)
    ensures
        c.name@ == choice_name(*s),
        c.value == s.id,
{
    let mark = if s.completed != 0 { "✅" } else { "⏳" };
    Choice {
        name: String::from_str(mark).concat(" - ").concat(s.description.as_str()),
        value: s.id,
    }
}

/// The suggestions for what has been typed so far: one per step whose
/// description holds it, in the steps' order.
pub fn autocomplete_choices(steps: &Vec<StepRecord>, partial: &str) -> (v: Vec<Choice>)
    ensures
        v.len() == matching_steps(steps@, partial@).len(),
        forall|i: int|
            0 <= i < v.len() ==> {
                &&& (#[trigger] v@[i]).value == matching_steps(steps@, partial@)[i].id
                &&& v@[i].name@ == choice_name(matching_steps(steps@, partial@)[i])
            },
{
    let mut v: Vec<Choice> = Vec::new();
    let mut i: usize = 0;
    let ghost pred = |s: StepRecord| contains_text(s.description@, partial@);
    while i < steps.len()
        invariant
            i <= steps.len(),
            pred == (|s: StepRecord| contains_text(s.description@, partial@)),
            v.len() == steps@.take(i as int).filter(pred).len(),
            forall|j: int|
                0 <= j < v.len() ==> {
                    &&& (#[trigger] v@[j]).value == steps@.take(i as int).filter(pred)[j].id
                    &&& v@[j].name@ == choice_name(steps@.take(i as int).filter(pred)[j])
                },
        decreases steps.len() - i,
    {
        reveal_with_fuel(Seq::filter, 1);
        assert(steps@.take(i + 1).drop_last() =~= steps@.take(i as int));
        if text_contains(steps[i].description.as_str(), partial) {
            let c = choice_for(&steps[i]);
            v.push(c);
        }
        i = i + 1;
    }
    assert(steps@.take(steps.len() as int) =~= steps@);
    v
}

/// Filtering by a stronger test is filtering twice.
proof fn lemma_filter_stronger<A>(s: Seq<A>, weak: spec_fn(A) -> bool, strong: spec_fn(A) -> bool)
    requires
        forall|x: A| #[trigger] strong(x) ==> weak(x),
    ensures
        s.filter(strong) == s.filter(weak).filter(strong),
    decreases s.len(),
{
    reveal_with_fuel(Seq::filter, 2);
    if s.len() > 0 {
        lemma_filter_stronger(s.drop_last(), weak, strong);
        let w = s.drop_last().filter(weak);
        if weak(s.last()) {
            assert(w.push(s.last()).drop_last() =~= w);
        }
    }
}

/// Filtering by a test that every item passes keeps every item.
proof fn lemma_filter_all<A>(s: Seq<A>, pred: spec_fn(A) -> bool)
    requires
        forall|x: A| #[trigger] pred(x),
    ensures
        s.filter(pred) == s,
    decreases s.len(),
{
    reveal_with_fuel(Seq::filter, 1);
    if s.len() > 0 {
        lemma_filter_all(s.drop_last(), pred);
        assert(s.drop_last().push(s.last()) =~= s);
    }
}

/// Law: typing more only narrows the suggestions. When the longer search
/// text holds the shorter one, the steps that match the longer one are those
/// that match the shorter one, in the same order, less those that do not
/// hold the longer one: a subsequence.
pub proof fn lemma_longer_search_narrows(
    steps: Seq<StepRecord>,
    shorter: Seq<char>,
    longer: Seq<char>,
)
    requires
        contains_text(longer, shorter),
    ensures
        matching_steps(steps, longer) == matching_steps(steps, shorter).filter(
            |s: StepRecord| contains_text(s.description@, longer),
        ),
{
    let weak = |s: StepRecord| contains_text(s.description@, shorter);
    let strong = |s: StepRecord| contains_text(s.description@, longer);
    assert forall|x: StepRecord| #[trigger] strong(x) implies weak(x) by {
        lemma_contains_transitive(x.description@, longer, shorter);
    }
    lemma_filter_stronger(steps, weak, strong);
}

/// Law: an empty search offers every step, in order.
pub proof fn lemma_empty_search_offers_all(steps: Seq<StepRecord>)
    ensures
        matching_steps(steps, seq![]) == steps,
{
    let pred = |s: StepRecord| contains_text(s.description@, seq![]);
    assert forall|x: StepRecord| #[trigger] pred(x) by {
        lemma_empty_occurs(x.description@);
    }
    lemma_filter_all(steps, pred);
}

/// The index of the last stored step, if there is one.
pub fn last_index(steps: &Vec<StepRecord>) -> (r: Option<i64>)
    ensures
        steps.len() == 0 ==> r is None,
        steps.len() > 0 ==> r == Some(steps@.last().index),
{
    if steps.len() == 0 {
        None
    } else {
        Some(steps[steps.len() - 1].index)
    }
}

/// The index given to the `i`-th of the steps added after the last index
/// `last` (none: the count starts from 0).
pub open spec fn numbered(last: Option<i64>, i: int) -> int {
    match last {
        Some(l) => l + i + 1,
        None => i + 1,
    }
}

/// The indexes of `count` new steps added after the last index `last`.
pub fn new_step_indices(last: Option<i64>, count: usize) -> (v: Vec<i64>)
    requires
        count <= i64::MAX,
        numbered(last, count as int) <= i64::MAX + 1,
    ensures
        v.len() == count,
        forall|i: int| 0 <= i < count ==> #[trigger] v@[i] == numbered(last, i),
{
    let base: i64 = match last {
        Some(l) => l,
        None => 0,
    };
    let mut v: Vec<i64> = Vec::new();
    let mut i: usize = 0;
    while i < count
        invariant
            i <= count,
            v.len() == i,
            base == (match last {
                Some(l) => l as int,
                None => 0,
            }),
            count <= i64::MAX,
            numbered(last, count as int) <= i64::MAX + 1,
            forall|j: int| 0 <= j < i ==> v@[j] == numbered(last, j),
        decreases count - i,
    {
        let ix = base + i as i64 + 1;
        v.push(ix);
        i = i + 1;
    }
    v
}

/// The indexes of `count` new steps, or `None` where they do not fit an `i64`.
pub fn try_new_step_indices(last: Option<i64>, count: usize) -> (v: Option<Vec<i64>>)
    ensures
        v is Some <==> count <= i64::MAX && numbered(last, count as int) <= i64::MAX + 1,
        v matches Some(ix) ==> ix.len() == count && forall|i: int|
            0 <= i < count ==> #[trigger] ix@[i] == numbered(last, i),
{
    if count as u64 > i64::MAX as u64 {
        return None;
    }
    let base: i64 = match last {
        Some(l) => l,
        None => 0,
    };
    if base > i64::MAX - count as i64 {
        return None;
    }
    Some(new_step_indices(last, count))
}

/// Law: new steps are numbered right after the last stored one, one apart.
pub proof fn lemma_numbering_continues(last: Option<i64>, i: int)
    requires
        0 <= i,
    ensures
        last matches Some(l) ==> numbered(last, i) > l,
        numbered(last, i) > 0 || last is Some,
        numbered(last, i + 1) == numbered(last, i) + 1,
{
}

/// The stored form of a step's state: 1 when done, 0 otherwise.
pub fn completion_flag(done: bool) -> (f: i8)
    ensures
        f == (if done { 1i8 } else { 0i8 }),
{
    if done {
        1
    } else {
        0
    }
}

/// Why a task request failed.
#[derive(Clone, Copy, Debug, PartialEq, Eq, Structural)]
pub enum TaskError {
    /// The channel is not a task post.
    MissingTaskChannel,
    /// The post to delete was not found.
    DeleteFailed,
}

impl TaskError {
    /// What the error says.
    pub fn message(&self) -> (m: &'static str)
        ensures
            *self == TaskError::MissingTaskChannel ==> m@ == "Cannot find task channel..."@,
            *self == TaskError::DeleteFailed ==> m@ == "❌ Something went wrong..."@,
    {
        match self {
            TaskError::MissingTaskChannel => "Cannot find task channel...",
            TaskError::DeleteFailed => "❌ Something went wrong...",
        }
    }
}

/// The post found for a channel, or the error for a channel that is no task.
pub fn lookup_post<T>(found: Option<T>) -> (r: Result<T, TaskError>)
    ensures
        match found {
            Some(t) => r == Ok::<T, TaskError>(t),
            None => r == Err::<T, TaskError>(TaskError::MissingTaskChannel),
        },
{
    match found {
        Some(t) => Ok(t),
        None => Err(TaskError::MissingTaskChannel),
    }
}

/// The post to delete, or the error when none was found.
pub fn post_to_delete<T>(found: Option<T>) -> (r: Result<T, TaskError>)
    ensures
        match found {
            Some(t) => r == Ok::<T, TaskError>(t),
            None => r == Err::<T, TaskError>(TaskError::DeleteFailed),
        },
{
    match found {
        Some(t) => Ok(t),
        None => Err(TaskError::DeleteFailed),
    }
}

} // verus!
