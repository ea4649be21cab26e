//! A paginated message: a list of pages, the page on show, and the buttons that
//! move between them. The message itself and the wait for button presses live
//! with the caller, which hands each press to `Paginator::press`.
use vstd::prelude::*;
use crate::text::{decimal, decimal_string, lemma_decimal_injective, same_text};

verus! {

/// What a pressed button asks of the paginator, by its id.
#[derive(Clone, Copy, Debug, PartialEq, Eq, Structural)]
pub enum PageCommand {
    Left,
    Right,
    Beginning,
    Final,
    Delete,
    Other,
}

/// The command that a button id stands for.
pub open spec fn command_of(id: Seq<char>) -> PageCommand {
    if id == "left"@ {
        PageCommand::Left
    } else if id == "right"@ {
        PageCommand::Right
    } else if id == "beggining"@ {
        PageCommand::Beginning
    } else if id == "final"@ {
        PageCommand::Final
    } else if id == "delete"@ {
        PageCommand::Delete
    } else {
        PageCommand::Other
    }
}

/// The page shown after a navigation command, from page `counter` of `len`:
/// one back but not before the first, one on but not past the last, the
/// first, the last; other commands keep the page.
pub open spec fn next_counter(counter: int, len: int, cmd: PageCommand) -> int {
    match cmd {
        PageCommand::Left => if counter - 1 > 0 { counter - 1 } else { 0 },
        PageCommand::Right => if len - 1 < counter + 1 { len - 1 } else { counter + 1 },
        PageCommand::Beginning => 0,
        PageCommand::Final => len - 1,
        _ => counter,
    }
}

/// Reads the command of a button id.
pub fn classify(custom_id: &str) -> (c: PageCommand)
    ensures
        c == command_of(custom_id@),
{
    if same_text(custom_id, "left") {
        PageCommand::Left
    } else if same_text(custom_id, "right") {
        PageCommand::Right
    } else if same_text(custom_id, "beggining") {
        PageCommand::Beginning
    } else if same_text(custom_id, "final") {
        PageCommand::Final
    } else if same_text(custom_id, "delete") {
        PageCommand::Delete
    } else {
        PageCommand::Other
    }
}

/// What the caller does after a press.
#[derive(Clone, Copy, Debug, PartialEq, Eq, Structural)]
pub enum PressOutcome {
    /// Acknowledge the press and show the current page with fresh buttons.
    Show,
    /// Delete the message and stop.
    Delete,
    /// Run the extra row's handler, move to the page it names with
    /// `Paginator::jump_to`, then show it.
    Custom,
}

/// The five navigation buttons, in the order they stand in their row.
#[derive(Clone, Copy, Debug, PartialEq, Eq, Structural)]
pub enum NavButton {
    Beginning,
    Left,
    Center,
    Right,
    Final,
}

/// The look of a button.
#[derive(Clone, Copy, Debug, PartialEq, Eq, Structural)]
pub enum ButtonStyle {
    Primary,
    Secondary,
}

/// A navigation button as it is sent.
pub struct PageButton {
    pub kind: NavButton,
    pub custom_id: String,
    pub label: String,
    pub style: ButtonStyle,
    pub disabled: bool,
}

/// The id that each navigation button reports when pressed.
pub open spec fn nav_id(kind: NavButton) -> Seq<char> {
    match kind {
        NavButton::Beginning => "beggining"@,
        NavButton::Left => "left"@,
        NavButton::Center => "center"@,
        NavButton::Right => "right"@,
        NavButton::Final => "final"@,
    }
}

/// The label of each navigation button on page `counter` of `len`; the center
/// one reads "page/pages", counting pages from 1.
pub open spec fn nav_label(kind: NavButton, counter: int, len: int) -> Seq<char> {
    match kind {
        NavButton::Beginning => "⏪"@,
        NavButton::Left => "◀"@,
        NavButton::Center => decimal((counter + 1) as nat) + "/"@ + decimal(len as nat),
        NavButton::Right => "▶"@,
        NavButton::Final => "⏩"@,
    }
}

/// Only the center button, which just shows the position, is secondary.
pub open spec fn nav_style(kind: NavButton) -> ButtonStyle {
    match kind {
        NavButton::Center => ButtonStyle::Secondary,
        _ => ButtonStyle::Primary,
    }
}

/// The backward buttons are off on the first page, the forward ones on the
/// last, and the center one always.
pub open spec fn nav_disabled(kind: NavButton, counter: int, len: int) -> bool {
    match kind {
        NavButton::Beginning => counter == 0,
        NavButton::Left => counter == 0,
        NavButton::Center => true,
        NavButton::Right => counter >= len - 1,
        NavButton::Final => counter >= len - 1,
    }
}

/// The kind of the button at each place of the navigation row.
pub open spec fn nav_order(i: int) -> NavButton {
    if i == 0 {
        NavButton::Beginning
    } else if i == 1 {
        NavButton::Left
    } else if i == 2 {
        NavButton::Center
    } else if i == 3 {
        NavButton::Right
    } else {
        NavButton::Final
    }
}

/// A button is the one that page `counter` of `len` shows for its kind.
pub open spec fn is_nav_button(b: PageButton, counter: int, len: int) -> bool {
    &&& b.custom_id@ == nav_id(b.kind)
    &&& b.label@ == nav_label(b.kind, counter, len)
    &&& b.style == nav_style(b.kind)
    &&& b.disabled == nav_disabled(b.kind, counter, len)
}

fn nav_button(kind: NavButton, custom_id: &str, label: String, disabled: bool) -> (b: PageButton)
    ensures
        b.kind == kind,
        b.custom_id@ == custom_id@,
        b.label == label,
        b.style == nav_style(kind),
        b.disabled == disabled,
{
    let style = match kind {
        NavButton::Center => ButtonStyle::Secondary,
        _ => ButtonStyle::Primary,
    };
    PageButton { kind, custom_id: String::from_str(custom_id), label, style, disabled }
}

/// An extra row of buttons: the caller's row `X` (with the handler of its
/// presses), the test `C` that disables its buttons, and the number of its
/// buttons when the row is a row of buttons (`None` for any other kind of row,
/// which is not shown).
pub struct ExtraRow<X, C> {
    pub row: X,
    pub cond: C,
    pub buttons: Option<usize>,
}

/// The button rows of the page on show: the navigation row, and the disabled
/// flags of the extra row's buttons, in order, when that row is shown.
pub struct ButtonRows {
    pub nav: Vec<PageButton>,
    pub extra: Option<Vec<bool>>,
}

/// A paginated message: its pages `P`, the page on show, and an optional extra
/// row.
pub struct Paginator<P, X, C> {
    pages: Vec<P>,
    counter: i32,
    additional: Option<ExtraRow<X, C>>,
}

impl<P, X, C> Paginator<P, X, C> {
    /// The pages.
    pub closed spec fn page_seq(&self) -> Seq<P> {
        self.pages@
    }

    /// The index of the page on show.
    pub closed spec fn position(&self) -> int {
        self.counter as int
    }

    /// The extra row, if one was added.
    pub closed spec fn extra(&self) -> Option<ExtraRow<X, C>> {
        self.additional
    }

    /// The page on show is one of the pages (the first where there are none).
    pub open spec fn wf(&self) -> bool {
        &&& 0 <= self.position()
        &&& (self.position() < self.page_seq().len() || self.position() == 0)
    }

    /// A paginator on its first page, with no extra row.
    pub fn new(pages: Vec<P>) -> (p: Self)
        ensures
            p.page_seq() == pages@,
            p.position() == 0,
            p.extra() is None,
            p.wf(),
    {
        Paginator { pages, counter: 0, additional: None }
    }

    /// Adds an extra row: the row itself with its handler, the test that
    /// disables its buttons, and its number of buttons if it is a button row.
    pub fn add_row(self, row: X, cond: C, buttons: Option<usize>) -> (p: Self)
        ensures
            p.page_seq() == self.page_seq(),
            p.position() == self.position(),
            p.extra() == Some(ExtraRow { row, cond, buttons }),
    {
        Paginator { additional: Some(ExtraRow { row, cond, buttons }), ..self }
    }

    /// The index of the page on show.
    pub fn counter(&self) -> (c: i32)
        ensures
            c == self.position(),
    {
        self.counter
    }

    /// The number of pages.
    pub fn page_count(&self) -> (n: usize)
        ensures
            n == self.page_seq().len(),
    {
        self.pages.len()
    }

    /// The extra row, if any.
    pub fn additional(&self) -> (x: Option<&ExtraRow<X, C>>)
        ensures
            match x {
                Some(r) => self.extra() == Some(*r),
                None => self.extra() is None,
            },
    {
        match &self.additional {
            Some(x) => Some(x),
            None => None,
        }
    }

    /// The page on show.
    pub fn current_page(&self) -> (p: &P)
        requires
            self.wf(),
            self.page_seq().len() > 0,
        ensures
            *p == self.page_seq()[self.position()],
    {
        &self.pages[self.counter as usize]
    }

    /// Handles a button press: moves between pages for the navigation buttons,
    /// asks for deletion, and hands any other id to the extra row's handler when
    /// there is one (without one, the page stays).
    pub fn press(&mut self, custom_id: &str) -> (r: PressOutcome)
        requires
            old(self).wf(),
            1 <= old(self).page_seq().len() <= i32::MAX,
        ensures
            final(self).page_seq() == old(self).page_seq(),
            final(self).extra() == old(self).extra(),
            final(self).wf(),
            final(self).position() == next_counter(
                old(self).position(),
                old(self).page_seq().len() as int,
                command_of(custom_id@),
            ),
            r == (match command_of(custom_id@) {
                PageCommand::Delete => PressOutcome::Delete,
                PageCommand::Other => if old(self).extra() is Some {
                    PressOutcome::Custom
                } else {
                    PressOutcome::Show
                },
                _ => PressOutcome::Show,
            }),
    {
        let last = self.pages.len() as i32 - 1;
        match classify(custom_id) {
            PageCommand::Left => {
                self.counter = if self.counter - 1 > 0 { self.counter - 1 } else { 0 };
                PressOutcome::Show
            },
            PageCommand::Right => {
                self.counter = if last < self.counter + 1 { last } else { self.counter + 1 };
                PressOutcome::Show
            },
            PageCommand::Beginning => {
                self.counter = 0;
                PressOutcome::Show
            },
            PageCommand::Final => {
                self.counter = last;
                PressOutcome::Show
            },
            PageCommand::Delete => PressOutcome::Delete,
            PageCommand::Other => {
                if self.additional.is_some() {
                    PressOutcome::Custom
                } else {
                    PressOutcome::Show
                }
            },
        }
    }

    /// Shows the page that the extra row's handler chose.
    pub fn jump_to(&mut self, counter: i32)
        requires
            0 <= counter < old(self).page_seq().len(),
        ensures
            final(self).page_seq() == old(self).page_seq(),
            final(self).extra() == old(self).extra(),
            final(self).position() == counter,
            final(self).wf(),
    {
        self.counter = counter;
    }

    /// The navigation row for the page on show: to the first page, back, the
    /// position, on, to the last page.
    fn nav_row(&self) -> (row: Vec<PageButton>)
        requires
            self.wf(),
            self.page_seq().len() <= i32::MAX,
        ensures
            row.len() == 5,
            forall|i: int|
                0 <= i < 5 ==> (#[trigger] row@[i]).kind == nav_order(i) && is_nav_button(
                    row@[i],
                    self.position(),
                    self.page_seq().len() as int,
                ),
            row@[2].label@ == decimal((self.position() + 1) as nat) + "/"@ + decimal(
                self.page_seq().len(),
            ),
    {
        let len = self.pages.len();
        let last = len as i32 - 1;
        let counter = self.counter;
        let position = String::from_str("").concat(
            decimal_string((counter + 1) as u128).as_str(),
        ).concat("/").concat(decimal_string(len as u128).as_str());
        proof {
            reveal_strlit("");
        }
        let to_beggining = nav_button(
            NavButton::Beginning,
            "beggining",
            String::from_str("⏪"),
            counter == 0,
        );
        let left = nav_button(NavButton::Left, "left", String::from_str("◀"), counter == 0);
        let center = nav_button(NavButton::Center, "center", position, true);
        let right = nav_button(NavButton::Right, "right", String::from_str("▶"), counter >= last);
        let to_final = nav_button(NavButton::Final, "final", String::from_str("⏩"), counter >= last);
        let mut row: Vec<PageButton> = Vec::new();
        row.push(to_beggining);
        row.push(left);
        row.push(center);
        row.push(right);
        row.push(to_final);
        row
    }

    /// The button rows for the page on show: the navigation row, and, when an
    /// extra button row was added, whether each of its buttons is disabled:
    /// its test asked with the button's place counting from 1, the page index
    /// and the number of pages, once per button, in order.
    pub fn create_buttons(&self) -> (rows: ButtonRows) where C: Fn(usize, i32, i32) -> bool
        requires
            self.wf(),
            self.page_seq().len() <= i32::MAX,
            self.extra() matches Some(e) ==> forall|a: usize, b: i32, c: i32|
                e.cond.requires((a, b, c)),
        ensures
            rows.nav.len() == 5,
            forall|i: int|
                0 <= i < 5 ==> (#[trigger] rows.nav@[i]).kind == nav_order(i) && is_nav_button(
                    rows.nav@[i],
                    self.position(),
                    self.page_seq().len() as int,
                ),
            rows.nav@[2].label@ == decimal((self.position() + 1) as nat) + "/"@ + decimal(
                self.page_seq().len(),
            ),
            rows.extra is Some <==> (self.extra() matches Some(e) && e.buttons is Some),
            rows.extra matches Some(flags) ==> {
                &&& flags.len() == self.extra()->0.buttons->0
                &&& forall|i: int|
                    0 <= i < flags.len() ==> self.extra()->0.cond.ensures(
                        ((i + 1) as usize, self.position() as i32, self.page_seq().len() as i32),
                        #[trigger] flags@[i],
                    )
            },
    {
        let nav = self.nav_row();
        let extra = match &self.additional {
            Some(e) => match e.buttons {
                Some(count) => Some(self.extra_flags(count, &e.cond)),
                None => None,
            },
            None => None,
        };
        ButtonRows { nav, extra }
    }

    fn extra_flags(&self, count: usize, cond: &C) -> (v: Vec<bool>) where
        C: Fn(usize, i32, i32) -> bool,

        requires
            self.page_seq().len() <= i32::MAX,
            forall|a: usize, b: i32, c: i32| cond.requires((a, b, c)),
        ensures
            v.len() == count,
            forall|i: int|
                0 <= i < count ==> cond.ensures(
                    ((i + 1) as usize, self.position() as i32, self.page_seq().len() as i32),
                    #[trigger] v@[i],
                ),
    {
        let len = self.pages.len() as i32;
        let mut v: Vec<bool> = Vec::new();
        let mut i: usize = 0;
        while i < count
            invariant
                i <= count,
                v.len() == i,
                len == self.page_seq().len(),
                self.counter == self.position(),
                forall|a: usize, b: i32, c: i32| cond.requires((a, b, c)),
                forall|j: int|
                    0 <= j < i ==> cond.ensures(
                        ((j + 1) as usize, self.position() as i32, len),
                        #[trigger] v@[j],
                    ),
            decreases count - i,
        {
            let d = cond(i + 1, self.counter, len);
            v.push(d);
            i = i + 1;
        }
        v
    }
}

/// Law: every navigation command keeps the page on show among the pages.
pub proof fn lemma_navigation_stays_in_range(counter: int, len: int, cmd: PageCommand)
    requires
        0 <= counter < len,
    ensures
        0 <= next_counter(counter, len, cmd) < len,
{
}

/// Law: on any page but the first, going back then on returns to it; on any
/// page but the last, going on then back returns to it.
pub proof fn lemma_back_and_forth(counter: int, len: int)
    requires
        0 <= counter < len,
    ensures
        counter > 0 ==> next_counter(
            next_counter(counter, len, PageCommand::Left),
            len,
            PageCommand::Right,
        ) == counter,
        counter < len - 1 ==> next_counter(
            next_counter(counter, len, PageCommand::Right),
            len,
            PageCommand::Left,
        ) == counter,
{
}

/// Law: going back on the first page, or on at the last, stays put; the first
/// and last page buttons reach their ends from anywhere, and pressing them again
/// changes nothing.
pub proof fn lemma_ends(counter: int, len: int)
    requires
        0 <= counter < len,
    ensures
        next_counter(0, len, PageCommand::Left) == 0,
        next_counter(len - 1, len, PageCommand::Right) == len - 1,
        next_counter(counter, len, PageCommand::Beginning) == 0,
        next_counter(counter, len, PageCommand::Final) == len - 1,
        next_counter(
            next_counter(counter, len, PageCommand::Beginning),
            len,
            PageCommand::Beginning,
        ) == 0,
        next_counter(next_counter(counter, len, PageCommand::Final), len, PageCommand::Final) == len
            - 1,
{
}

/// Law: a navigation button is disabled exactly where pressing it would not
/// change the page (the center button, which only shows the position, is
/// always disabled).
pub proof fn lemma_disabled_buttons_keep_the_page(counter: int, len: int)
    requires
        0 <= counter < len,
    ensures
        nav_disabled(NavButton::Left, counter, len) <==> next_counter(
            counter,
            len,
            PageCommand::Left,
        ) == counter,
        nav_disabled(NavButton::Beginning, counter, len) <==> next_counter(
            counter,
            len,
            PageCommand::Beginning,
        ) == counter,
        nav_disabled(NavButton::Right, counter, len) <==> next_counter(
            counter,
            len,
            PageCommand::Right,
        ) == counter,
        nav_disabled(NavButton::Final, counter, len) <==> next_counter(
            counter,
            len,
            PageCommand::Final,
        ) == counter,
{
}

/// Law: the center button tells the pages apart: on two different pages of
/// the same paginator its labels differ.
pub proof fn lemma_center_label_names_the_page(c1: int, c2: int, len: int)
    requires
        0 <= c1 < len,
        0 <= c2 < len,
        c1 != c2,
    ensures
        nav_label(NavButton::Center, c1, len) != nav_label(NavButton::Center, c2, len),
{
    let d1 = decimal((c1 + 1) as nat);
    let d2 = decimal((c2 + 1) as nat);
    let tail = "/"@ + decimal(len as nat);
    if nav_label(NavButton::Center, c1, len) == nav_label(NavButton::Center, c2, len) {
        assert(d1 + "/"@ + decimal(len as nat) =~= d1 + tail);
        assert(d2 + "/"@ + decimal(len as nat) =~= d2 + tail);
        assert(d1.len() == d2.len());
        assert((d1 + tail).subrange(0, d1.len() as int) =~= d1);
        assert((d2 + tail).subrange(0, d2.len() as int) =~= d2);
        lemma_decimal_injective((c1 + 1) as nat, (c2 + 1) as nat);
    }
}

} // verus!
