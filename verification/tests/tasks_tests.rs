use fewwis::tasks::{
    autocomplete_choices, completion_flag, last_index, lookup_post, new_step_indices,
    post_to_delete, try_new_step_indices, StepRecord, TaskError,
};

fn step(id: i32, index: i64, d: &str, done: i8) -> StepRecord {
    StepRecord { id, index, description: d.to_string(), completed: done }
}

#[test]
fn suggests_matching_steps_in_order() {
    let steps = vec![
        step(1, 1, "write tests", 1),
        step(2, 2, "fix bug", 0),
        step(3, 3, "run tests", 0),
    ];
    let v = autocomplete_choices(&steps, "tests");
    assert_eq!(v.len(), 2);
    assert_eq!(v[0].name, "✅ - write tests");
    assert_eq!(v[0].value, 1);
    assert_eq!(v[1].name, "⏳ - run tests");
    assert_eq!(v[1].value, 3);
}

#[test]
fn empty_partial_suggests_everything() {
    let steps = vec![step(1, 1, "a", 0), step(2, 2, "", 0)];
    assert_eq!(autocomplete_choices(&steps, "").len(), 2);
    assert_eq!(autocomplete_choices(&steps, "zzz").len(), 0);
}

#[test]
fn numbering_continues_after_the_last_step() {
    let steps = vec![step(1, 4, "a", 0), step(2, 7, "b", 0)];
    assert_eq!(last_index(&steps), Some(7));
    assert_eq!(new_step_indices(last_index(&steps), 3), vec![8, 9, 10]);
    assert_eq!(last_index(&vec![]), None);
    assert_eq!(new_step_indices(None, 2), vec![1, 2]);
    assert_eq!(new_step_indices(Some(5), 0), Vec::<i64>::new());
}

#[test]
fn completion_flags() {
    assert_eq!(completion_flag(true), 1);
    assert_eq!(completion_flag(false), 0);
}

#[test]
fn missing_posts() {
    assert_eq!(lookup_post(Some(5)), Ok(5));
    assert_eq!(lookup_post::<i32>(None), Err(TaskError::MissingTaskChannel));
    assert_eq!(post_to_delete(Some("p")), Ok("p"));
    assert_eq!(post_to_delete::<i32>(None), Err(TaskError::DeleteFailed));
    assert_eq!(TaskError::MissingTaskChannel.message(), "Cannot find task channel...");
    assert_eq!(TaskError::DeleteFailed.message(), "❌ Something went wrong...");
}

#[test]
fn checked_numbering() {
    assert_eq!(try_new_step_indices(Some(1), 2), Some(vec![2, 3]));
    assert_eq!(try_new_step_indices(Some(i64::MAX - 1), 1), Some(vec![i64::MAX]));
    assert_eq!(try_new_step_indices(Some(i64::MAX - 1), 2), None);
    assert_eq!(try_new_step_indices(None, 0), Some(vec![]));
}

#[test]
fn longer_search_narrows() {
    let steps = vec![
        step(1, 1, "write tests", 1),
        step(2, 2, "test docs", 0),
        step(3, 3, "run tests", 0),
        step(4, 4, "deploy", 0),
    ];
    let short: Vec<i32> = autocomplete_choices(&steps, "test").iter().map(|c| c.value).collect();
    let long: Vec<i32> = autocomplete_choices(&steps, "tests").iter().map(|c| c.value).collect();
    assert_eq!(short, vec![1, 2, 3]);
    assert_eq!(long, vec![1, 3]);
    let all: Vec<i32> = autocomplete_choices(&steps, "").iter().map(|c| c.value).collect();
    assert_eq!(all, vec![1, 2, 3, 4]);
}
