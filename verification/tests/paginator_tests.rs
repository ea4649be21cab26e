use fewwis::paginator::{classify, ButtonStyle, NavButton, PageCommand, Paginator, PressOutcome};

type Cond = fn(usize, i32, i32) -> bool;

fn never(_: usize, _: i32, _: i32) -> bool {
    false
}

fn three() -> Paginator<&'static str, u8, Cond> {
    Paginator::new(vec!["a", "b", "c"])
}

#[test]
fn starts_on_the_first_page() {
    let p = three();
    assert_eq!(p.counter(), 0);
    assert_eq!(*p.current_page(), "a");
    assert_eq!(p.page_count(), 3);
    assert!(p.additional().is_none());
}

#[test]
fn classifies_button_ids() {
    assert_eq!(classify("left"), PageCommand::Left);
    assert_eq!(classify("right"), PageCommand::Right);
    assert_eq!(classify("beggining"), PageCommand::Beginning);
    assert_eq!(classify("final"), PageCommand::Final);
    assert_eq!(classify("delete"), PageCommand::Delete);
    assert_eq!(classify("beginning"), PageCommand::Other);
    assert_eq!(classify("center"), PageCommand::Other);
}

#[test]
fn right_then_left_returns() {
    let mut p = three();
    assert_eq!(p.press("right"), PressOutcome::Show);
    assert_eq!(p.counter(), 1);
    assert_eq!(*p.current_page(), "b");
    p.press("left");
    assert_eq!(p.counter(), 0);
}

#[test]
fn stays_at_the_ends() {
    let mut p = three();
    p.press("left");
    assert_eq!(p.counter(), 0);
    p.press("final");
    assert_eq!(p.counter(), 2);
    p.press("right");
    assert_eq!(p.counter(), 2);
    p.press("beggining");
    assert_eq!(p.counter(), 0);
}

#[test]
fn delete_and_unknown_ids() {
    let mut p = three();
    p.press("right");
    assert_eq!(p.press("delete"), PressOutcome::Delete);
    assert_eq!(p.counter(), 1);
    assert_eq!(p.press("vote"), PressOutcome::Show);
    assert_eq!(p.counter(), 1);
}

#[test]
fn unknown_ids_go_to_the_extra_row() {
    let mut p = three().add_row(7u8, never as Cond, Some(0));
    assert_eq!(p.additional().map(|e| e.row), Some(7u8));
    assert_eq!(p.press("vote"), PressOutcome::Custom);
    p.jump_to(2);
    assert_eq!(p.counter(), 2);
    assert_eq!(*p.current_page(), "c");
}

#[test]
fn single_page_navigation() {
    let mut p: Paginator<i32, (), Cond> = Paginator::new(vec![10]);
    p.press("right");
    assert_eq!(p.counter(), 0);
    p.press("final");
    assert_eq!(p.counter(), 0);
    let row = p.create_buttons().nav;
    assert!(row.iter().all(|b| b.disabled));
    assert_eq!(row[2].label, "1/1");
}

#[test]
fn buttons_on_the_first_page() {
    let p = three();
    let row = p.create_buttons().nav;
    assert_eq!(row.len(), 5);
    let ids: Vec<&str> = row.iter().map(|b| b.custom_id.as_str()).collect();
    assert_eq!(ids, vec!["beggining", "left", "center", "right", "final"]);
    let labels: Vec<&str> = row.iter().map(|b| b.label.as_str()).collect();
    assert_eq!(labels, vec!["⏪", "◀", "1/3", "▶", "⏩"]);
    let disabled: Vec<bool> = row.iter().map(|b| b.disabled).collect();
    assert_eq!(disabled, vec![true, true, true, false, false]);
    assert_eq!(row[2].style, ButtonStyle::Secondary);
    assert_eq!(row[0].style, ButtonStyle::Primary);
    assert_eq!(row[4].kind, NavButton::Final);
}

#[test]
fn buttons_on_the_last_page() {
    let mut p = three();
    p.press("final");
    let row = p.create_buttons().nav;
    assert_eq!(row[2].label, "3/3");
    let disabled: Vec<bool> = row.iter().map(|b| b.disabled).collect();
    assert_eq!(disabled, vec![false, false, true, true, true]);
}

#[test]
fn extra_row_flags() {
    let cond: Cond = |i, c, n| i as i32 + c >= n;
    let mut p: Paginator<u32, (), Cond> = Paginator::new((0..12).collect()).add_row((), cond, Some(3));
    p.jump_to(10);
    let rows = p.create_buttons();
    assert_eq!(rows.nav.len(), 5);
    assert_eq!(rows.extra, Some(vec![false, true, true]));
}

#[test]
fn extra_row_by_place() {
    let cond: Cond = |i, _, _| i == 1;
    let p: Paginator<u8, (), Cond> = Paginator::new(vec![0]).add_row((), cond, Some(2));
    assert_eq!(p.create_buttons().extra, Some(vec![true, false]));
}

#[test]
fn no_extra_row_without_buttons() {
    let p: Paginator<u8, (), Cond> = Paginator::new(vec![0]);
    assert_eq!(p.create_buttons().extra, None);
    let p = p.add_row((), never as Cond, None);
    assert_eq!(p.create_buttons().extra, None);
}
