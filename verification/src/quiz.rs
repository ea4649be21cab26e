//! The flag quiz: the pick of a country, the judging of guesses, the game's
//! course, and the per-player tally of results.
use vstd::prelude::*;
use vstd::utf8::is_ascii_chars;
use rand::rngs::ThreadRng;
use rand::seq::SliceRandom;
use rand::Rng;
use crate::text::{
    decimal, decimal_string, int_decimal, int_string, lemma_ascii_fold_equal, lowercase,
    same_ignoring_ascii_case, same_text, to_lowercase,
};
use crate::card::{Card, CardField, is_plain, titled_card};
use crate::colors::Colors;

verus! {

/// Wrong guesses allowed before the game is lost.
pub const MAX_RETRIES: i32 = 3;

/// A country as the quiz knows it: its names in English and Spanish, and the
/// pictures of its flag and coat of arms.
pub struct Country {
    pub name_common: String,
    pub name_official: String,
    pub spa_common: String,
    pub spa_official: String,
    pub flag_png: String,
    pub coat_of_arms_png: String,
}

impl Country {
    /// The four names a guess is checked against.
    pub open spec fn names(&self) -> Seq<Seq<char>> {
        seq![self.name_common@, self.name_official@, self.spa_common@, self.spa_official@]
    }

    /// The English answer, "common/official".
    pub fn english_answer(&self) -> (s: String)
        ensures
            s@ == self.name_common@ + "/"@ + self.name_official@,
    {
        self.name_common.clone().concat("/").concat(self.name_official.as_str())
    }

    /// The Spanish answer, "common/official".
    pub fn spanish_answer(&self) -> (s: String)
        ensures
            s@ == self.spa_common@ + "/"@ + self.spa_official@,
    {
        self.spa_common.clone().concat("/").concat(self.spa_official.as_str())
    }
}

/// Whether `guess` equals one of `candidates`.
pub fn matches_any(guess: &str, candidates: &Vec<String>) -> (r: bool)
    ensures
        r == exists|i: int| 0 <= i < candidates.len() && candidates@[i]@ == guess@,
{
    let mut i: usize = 0;
    while i < candidates.len()
        invariant
            i <= candidates.len(),
            forall|j: int| 0 <= j < i ==> candidates@[j]@ != guess@,
        decreases candidates.len() - i,
    {
        if same_text(candidates[i].as_str(), guess) {
            return true;
        }
        i = i + 1;
    }
    false
}

/// Whether a message names the country: its lowercase form equals the
/// lowercase form of one of the country's four names.
pub fn is_correct_guess(country: &Country, guess: &str) -> (r: bool)
    ensures
        r == exists|i: int| 0 <= i < 4 && lowercase(country.names()[i]) == lowercase(guess@),
        (forall|i: int| 0 <= i < 4 ==> is_ascii_chars(#[trigger] country.names()[i]))
            && is_ascii_chars(guess@) ==> (r <==> exists|i: int|
            0 <= i < 4 && same_ignoring_ascii_case(country.names()[i], guess@)),
{
    let mut names: Vec<String> = Vec::new();
    names.push(to_lowercase(country.name_common.as_str()));
    names.push(to_lowercase(country.name_official.as_str()));
    names.push(to_lowercase(country.spa_common.as_str()));
    names.push(to_lowercase(country.spa_official.as_str()));
    let g = to_lowercase(guess);
    let r = matches_any(g.as_str(), &names);
    proof {
        assert(names@[0]@ == lowercase(country.names()[0]));
        assert(names@[1]@ == lowercase(country.names()[1]));
        assert(names@[2]@ == lowercase(country.names()[2]));
        assert(names@[3]@ == lowercase(country.names()[3]));
        if (forall|i: int| 0 <= i < 4 ==> is_ascii_chars(#[trigger] country.names()[i]))
            && is_ascii_chars(guess@) {
            assert forall|i: int| 0 <= i < 4 implies (lowercase(country.names()[i]) == lowercase(
                guess@,
            ) <==> same_ignoring_ascii_case(country.names()[i], guess@)) by {
                lemma_ascii_fold_equal(country.names()[i], guess@);
                assert(is_ascii_chars(country.names()[i]));
            }
        }
        if r {
            let i = choose|i: int| 0 <= i < names.len() && names@[i]@ == g@;
            assert(lowercase(country.names()[i]) == lowercase(guess@));
        } else {
            assert forall|i: int| 0 <= i < 4 implies lowercase(country.names()[i]) != lowercase(
                guess@,
            ) by {
                assert(names@[i]@ != g@);
            }
        }
    }
    r
}

/// Declares `rand::rngs::ThreadRng`, held as an opaque value.
#[verifier::external_type_specification]
#[verifier::external_body]
pub struct ExThreadRng(ThreadRng);

/// The thread's random number generator, from `rand::thread_rng`; nothing is
/// claimed of it.
#[verifier::external_body]
fn thread_rng() -> ThreadRng {
    rand::thread_rng()
}

/// Puts the items in a random order with `SliceRandom::shuffle`, which swaps
/// them about: the same items, each as often, stay.
#[verifier::external_body]
fn shuffle<T>(v: &mut Vec<T>, rng: &mut ThreadRng)
    ensures
        final(v)@.to_multiset() == old(v)@.to_multiset(),
{
    v.shuffle(rng)
}

/// A random index below `upper`, from `Rng::gen_range(0..upper)`, which panics
/// on an empty range.
#[verifier::external_body]
fn gen_index(rng: &mut ThreadRng, upper: usize) -> (i: usize)
    requires
        upper > 0,
    ensures
        i < upper,
{
    rng.gen_range(0..upper)
}

/// The country a game is played with, from the shuffled list and the index
/// drawn for it: the item at that index, which the draw keeps below the last.
pub fn pick_from_shuffled(shuffled: Vec<Country>, index: usize) -> (c: Country)
    requires
        index + 1 < shuffled.len(),
    ensures
        c == shuffled@[index as int],
{
    let mut shuffled = shuffled;
    shuffled.swap_remove(index)
}

/// Picks the country of a game: shuffles the list, then takes the item at a
/// random index below the last one (`pick_from_shuffled`). Which country comes
/// out is chance; it is always one of those given.
pub fn pick_flag(countries: Vec<Country>) -> (c: Country)
    requires
        countries.len() >= 2,
    ensures
        countries@.to_multiset().count(c) > 0,
{
    let mut countries = countries;
    let ghost given = countries@;
    let mut rng = thread_rng();
    shuffle(&mut countries, &mut rng);
    proof {
        given.to_multiset_ensures();
        countries@.to_multiset_ensures();
    }
    let i = gen_index(&mut rng, countries.len() - 1);
    let ghost shuffled = countries@;
    let c = pick_from_shuffled(countries, i);
    proof {
        shuffled.to_multiset_ensures();
    }
    c
}

/// How a game ended.
#[derive(Clone, Copy, Debug, PartialEq, Eq, Structural)]
pub enum Reason {
    /// The country was named.
    Correct,
    /// The guesses ran out.
    Loss,
    /// No answer came in time (also the state of a game still running).
    Timeout,
}

/// What the game does after a guess.
#[derive(Clone, Copy, Debug, PartialEq, Eq, Structural)]
pub enum QuizStep {
    /// The guess was right: the game is won.
    Won,
    /// The guess was wrong and tries remain; `hint` says to show the coat of
    /// arms, which happens when one try is left.
    Retry { hint: bool },
    /// The guess was wrong and no tries remain: reveal the answer.
    Lost,
}

/// A running flag quiz: the wrong guesses so far and how it ended, if it did.
pub struct FlagQuiz {
    counter: i32,
    reason: Reason,
}

impl FlagQuiz {
    /// The wrong guesses so far.
    pub closed spec fn wrong_guesses(&self) -> int {
        self.counter as int
    }

    /// How the game stands: `Timeout` while it runs.
    pub closed spec fn outcome(&self) -> Reason {
        self.reason
    }

    /// The game ended by a guess.
    pub open spec fn is_over(&self) -> bool {
        self.outcome() != Reason::Timeout
    }

    /// A game is lost exactly when it has all its wrong guesses, and never
    /// has more.
    pub open spec fn wf(&self) -> bool {
        &&& 0 <= self.wrong_guesses() <= MAX_RETRIES
        &&& (self.outcome() == Reason::Loss <==> self.wrong_guesses() == MAX_RETRIES)
    }

    /// A new game: no wrong guesses, still running.
    pub fn new() -> (q: Self)
        ensures
            q.wrong_guesses() == 0,
            q.outcome() == Reason::Timeout,
            q.wf(),
    {
        FlagQuiz { counter: 0, reason: Reason::Timeout }
    }

    /// The wrong guesses so far.
    pub fn wrong_count(&self) -> (n: i32)
        ensures
            n == self.wrong_guesses(),
    {
        self.counter
    }

    /// How the game stands.
    pub fn reason(&self) -> (r: Reason)
        ensures
            r == self.outcome(),
    {
        self.reason
    }

    /// Takes a guess: a right one wins; a wrong one counts, and loses the game
    /// when it is the third.
    pub fn guess(&mut self, correct: bool) -> (step: QuizStep)
        requires
            old(self).wf(),
            !old(self).is_over(),
        ensures
            final(self).wf(),
            correct ==> {
                &&& step == QuizStep::Won
                &&& final(self).outcome() == Reason::Correct
                &&& final(self).wrong_guesses() == old(self).wrong_guesses()
            },
            !correct ==> final(self).wrong_guesses() == old(self).wrong_guesses() + 1,
            !correct && final(self).wrong_guesses() == MAX_RETRIES ==> {
                &&& step == QuizStep::Lost
                &&& final(self).outcome() == Reason::Loss
            },
            !correct && final(self).wrong_guesses() < MAX_RETRIES ==> {
                &&& step == (QuizStep::Retry {
                    hint: final(self).wrong_guesses() == MAX_RETRIES - 1,
                })
                &&& final(self).outcome() == Reason::Timeout
            },
    {
        if correct {
            self.reason = Reason::Correct;
            return QuizStep::Won;
        }
        self.counter = self.counter + 1;
        if self.counter >= MAX_RETRIES {
            self.reason = Reason::Loss;
            QuizStep::Lost
        } else {
            QuizStep::Retry { hint: self.counter == MAX_RETRIES - 1 }
        }
    }

    /// The footer of the game card, "Tries: n/3", counting the try in hand.
    pub fn tries_label(&self) -> (s: String)
        requires
            self.wf(),
        ensures
            s@ == "Tries: "@ + decimal((self.wrong_guesses() + 1) as nat) + "/"@ + decimal(
                MAX_RETRIES as nat,
            ),
    {
        String::from_str("Tries: ").concat(decimal_string((self.counter + 1) as u128).as_str()).concat(
            "/",
        ).concat(decimal_string(MAX_RETRIES as u128).as_str())
    }
}

/// A player's tally of flag games: wins at the first, second and third try,
/// and losses.
#[derive(Clone, Copy, Debug, PartialEq, Eq, Structural)]
pub struct FlagStats {
    pub first_attempt: i32,
    pub second_attempt: i32,
    pub third_attempt: i32,
    pub wrong: i32,
}

/// `after` is `before` with one count raised by one and the others kept:
/// the count at place `which`, where places 0, 1 and 2 are the wins at the
/// first, second and third try and place 3 the losses.
pub open spec fn raised_one(before: FlagStats, after: FlagStats, which: int) -> bool {
    &&& after.first_attempt == before.first_attempt + (if which == 0 { 1int } else { 0 })
    &&& after.second_attempt == before.second_attempt + (if which == 1 { 1int } else { 0 })
    &&& after.third_attempt == before.third_attempt + (if which == 2 { 1int } else { 0 })
    &&& after.wrong == before.wrong + (if which == 3 { 1int } else { 0 })
}

/// The tally after a game that ended as `outcome` with `wrong` wrong guesses:
/// a win adds one to the count of its try, a loss one to the losses, a game
/// that timed out changes nothing.
pub open spec fn recorded(s: FlagStats, outcome: Reason, wrong: int) -> FlagStats {
    match outcome {
        Reason::Correct => if wrong == 0 {
            FlagStats { first_attempt: (s.first_attempt + 1) as i32, ..s }
        } else if wrong == 1 {
            FlagStats { second_attempt: (s.second_attempt + 1) as i32, ..s }
        } else {
            FlagStats { third_attempt: (s.third_attempt + 1) as i32, ..s }
        },
        Reason::Loss => FlagStats { wrong: (s.wrong + 1) as i32, ..s },
        Reason::Timeout => s,
    }
}

/// The tally has room for the result of a game that ended as `outcome`.
pub open spec fn can_record(s: FlagStats, outcome: Reason, wrong: int) -> bool {
    match outcome {
        Reason::Correct => if wrong == 0 {
            s.first_attempt < i32::MAX
        } else if wrong == 1 {
            s.second_attempt < i32::MAX
        } else {
            s.third_attempt < i32::MAX
        },
        Reason::Loss => s.wrong < i32::MAX,
        Reason::Timeout => true,
    }
}

impl FlagStats {
    /// The games counted.
    pub open spec fn games(&self) -> int {
        self.first_attempt + self.second_attempt + self.third_attempt + self.wrong
    }

    /// The tally of a player who has not played yet.
    pub fn new() -> (s: Self)
        ensures
            s == (FlagStats { first_attempt: 0, second_attempt: 0, third_attempt: 0, wrong: 0 }),
    {
        FlagStats { first_attempt: 0, second_attempt: 0, third_attempt: 0, wrong: 0 }
    }

    /// The number of games counted.
    pub fn total(&self) -> (t: i32)
        requires
            i32::MIN <= self.first_attempt + self.second_attempt <= i32::MAX,
            i32::MIN <= self.first_attempt + self.second_attempt + self.third_attempt <= i32::MAX,
            i32::MIN <= self.games() <= i32::MAX,
        ensures
            t == self.games(),
    {
        self.first_attempt + self.second_attempt + self.third_attempt + self.wrong
    }

    /// The number of games counted, or `None` where it does not fit an `i32`.
    pub fn checked_total(&self) -> (t: Option<i32>)
        ensures
            t is Some <==> i32::MIN <= self.first_attempt + self.second_attempt <= i32::MAX
                && i32::MIN <= self.first_attempt + self.second_attempt + self.third_attempt
                <= i32::MAX && i32::MIN <= self.games() <= i32::MAX,
            t matches Some(n) ==> n == self.games(),
    {
        let a = self.first_attempt.checked_add(self.second_attempt);
        match a {
            None => None,
            Some(a) => match a.checked_add(self.third_attempt) {
                None => None,
                Some(b) => b.checked_add(self.wrong),
            },
        }
    }

    /// The tally after a finished game, or `None` where the count to raise is
    /// already at its largest.
    pub fn try_record(&self, quiz: &FlagQuiz) -> (s: Option<Self>)
        requires
            quiz.wf(),
        ensures
            s is Some <==> can_record(*self, quiz.outcome(), quiz.wrong_guesses()),
            s matches Some(t) ==> t == recorded(*self, quiz.outcome(), quiz.wrong_guesses()),
            quiz.outcome() == Reason::Timeout ==> s == Some(*self),
            quiz.outcome() == Reason::Loss ==> (s is Some <==> self.wrong < i32::MAX),
            quiz.outcome() == Reason::Correct && quiz.wrong_guesses() == 0 ==> (s is Some
                <==> self.first_attempt < i32::MAX),
            quiz.outcome() == Reason::Correct && quiz.wrong_guesses() == 1 ==> (s is Some
                <==> self.second_attempt < i32::MAX),
            quiz.outcome() == Reason::Correct && quiz.wrong_guesses() == 2 ==> (s is Some
                <==> self.third_attempt < i32::MAX),
            s matches Some(t) ==> (quiz.outcome() == Reason::Correct ==> raised_one(
                *self,
                t,
                quiz.wrong_guesses(),
            )),
            s matches Some(t) ==> (quiz.outcome() == Reason::Loss ==> raised_one(*self, t, 3)),
    {
        let room = match quiz.reason {
            Reason::Correct => if quiz.counter == 0 {
                self.first_attempt < i32::MAX
            } else if quiz.counter == 1 {
                self.second_attempt < i32::MAX
            } else {
                self.third_attempt < i32::MAX
            },
            Reason::Loss => self.wrong < i32::MAX,
            Reason::Timeout => true,
        };
        if room {
            Some(self.record(quiz))
        } else {
            None
        }
    }

    /// The tally after a finished game.
    pub fn record(&self, quiz: &FlagQuiz) -> (s: Self)
        requires
            quiz.wf(),
            can_record(*self, quiz.outcome(), quiz.wrong_guesses()),
        ensures
            s == recorded(*self, quiz.outcome(), quiz.wrong_guesses()),
            quiz.outcome() == Reason::Correct ==> raised_one(*self, s, quiz.wrong_guesses()),
            quiz.outcome() == Reason::Loss ==> raised_one(*self, s, 3),
            quiz.outcome() == Reason::Timeout ==> s == *self,
    {
        match quiz.reason {
            Reason::Correct => if quiz.counter == 0 {
                FlagStats { first_attempt: self.first_attempt + 1, ..*self }
            } else if quiz.counter == 1 {
                FlagStats { second_attempt: self.second_attempt + 1, ..*self }
            } else {
                FlagStats { third_attempt: self.third_attempt + 1, ..*self }
            },
            Reason::Loss => FlagStats { wrong: self.wrong + 1, ..*self },
            Reason::Timeout => *self,
        }
    }
}

/// The card shown while a game is set up.
pub fn starting_card() -> (c: Card)
    ensures
        c.title is Some,
        c.title->0@ == "⏳ Starting game..."@,
        c.color == Colors::White,
        c.description is None,
        c.footer is None,
        is_plain(c),
{
    titled_card("⏳ Starting game...", Colors::White)
}

/// The card shown while a player's tally is fetched.
pub fn fetching_card() -> (c: Card)
    ensures
        c.title is Some,
        c.title->0@ == "⏳ Fetching data..."@,
        c.color == Colors::White,
        c.description is None,
        c.footer is None,
        is_plain(c),
{
    titled_card("⏳ Fetching data...", Colors::White)
}

/// The game card: its title, the bot's colour, the flag, and the tries.
pub open spec fn is_game_card(c: Card, country: Country, quiz: FlagQuiz) -> bool {
    &&& c.title is Some
    &&& c.title->0@ == "🏁 Quiz of Flags"@
    &&& c.color == Colors::Fewwis
    &&& c.image is Some
    &&& c.image->0@ == country.flag_png@
    &&& c.footer is Some
    &&& c.footer->0@ == "Tries: "@ + decimal((quiz.wrong_guesses() + 1) as nat) + "/"@ + decimal(
        MAX_RETRIES as nat,
    )
}

/// The game card with no hint.
pub fn game_card(country: &Country, quiz: &FlagQuiz) -> (c: Card)
    requires
        quiz.wf(),
    ensures
        is_game_card(c, *country, *quiz),
        c.description is None,
        c.thumbnail is None,
        c.fields.len() == 0,
{
    let mut c = titled_card("🏁 Quiz of Flags", Colors::Fewwis);
    c.image = Some(country.flag_png.clone());
    c.footer = Some(quiz.tries_label());
    c
}

/// The card after a guess: none after a win (the game ends at once); the game
/// card after a wrong guess, with the coat of arms and a hint when one try is
/// left; with the coat of arms and both answers when the game is lost.
pub fn step_card(country: &Country, quiz: &FlagQuiz, step: QuizStep) -> (r: Option<Card>)
    requires
        quiz.wf(),
    ensures
        step == QuizStep::Won ==> r is None,
        step != QuizStep::Won ==> r is Some && is_game_card(r->0, *country, *quiz),
        step == (QuizStep::Retry { hint: false }) ==> {
            &&& r->0.description is None
            &&& r->0.thumbnail is None
            &&& r->0.fields.len() == 0
        },
        step == (QuizStep::Retry { hint: true }) ==> {
            &&& r->0.description is Some
            &&& r->0.description->0@ == "> 💡 **HINT:** Look the thumbnail."@
            &&& r->0.thumbnail is Some
            &&& r->0.thumbnail->0@ == country.coat_of_arms_png@
            &&& r->0.fields.len() == 0
        },
        step == QuizStep::Lost ==> {
            &&& r->0.description is Some
            &&& r->0.description->0@ == "> 🤓:point_up: The name of the country is:"@
            &&& r->0.thumbnail is Some
            &&& r->0.thumbnail->0@ == country.coat_of_arms_png@
            &&& r->0.fields.len() == 2
            &&& r->0.fields@[0].name@ == ":flag_us: English"@
            &&& r->0.fields@[0].value@ == country.name_common@ + "/"@ + country.name_official@
            &&& r->0.fields@[0].inline
            &&& r->0.fields@[1].name@ == ":flag_es: Spanish"@
            &&& r->0.fields@[1].value@ == country.spa_common@ + "/"@ + country.spa_official@
            &&& r->0.fields@[1].inline
        },
{
    match step {
        QuizStep::Won => None,
        QuizStep::Retry { hint } => {
            let mut c = game_card(country, quiz);
            if hint {
                c.thumbnail = Some(country.coat_of_arms_png.clone());
                c.description = Some(String::from_str("> 💡 **HINT:** Look the thumbnail."));
            }
            Some(c)
        },
        QuizStep::Lost => {
            let mut c = game_card(country, quiz);
            c.thumbnail = Some(country.coat_of_arms_png.clone());
            c.description = Some(String::from_str("> 🤓:point_up: The name of the country is:"));
            let mut fields: Vec<CardField> = Vec::new();
            fields.push(
                CardField {
                    name: String::from_str(":flag_us: English"),
                    value: country.english_answer(),
                    inline: true,
                },
            );
            fields.push(
                CardField {
                    name: String::from_str(":flag_es: Spanish"),
                    value: country.spanish_answer(),
                    inline: true,
                },
            );
            c.fields = fields;
            Some(c)
        },
    }
}

/// The card that replaces the game card after a win: no title, green, and the
/// congratulations.
pub fn won_card() -> (c: Card)
    ensures
        c.title is None,
        c.color == Colors::Green,
        c.description is Some,
        c.description->0@ == "> 🎉 **Congrats!** You got it right."@,
        c.footer is None,
        is_plain(c),
{
    let mut c = titled_card("", Colors::Green);
    c.title = None;
    c.description = Some(String::from_str("> 🎉 **Congrats!** You got it right."));
    c
}

/// The blurple of the stats card, `0x7289DA`.
pub open spec fn stats_blurple() -> Colors {
    Colors::Custom(0x72, 0x89, 0xDA)
}

/// A stats field's value: the count, then its share of the games in brackets.
pub open spec fn share_text(count: i32, share: Seq<char>) -> Seq<char> {
    int_decimal(count as int) + " ("@ + share + "%)"@
}

fn stat_field(name: &str, count: i32, share: &String) -> (f: CardField)
    ensures
        f.name@ == name@,
        f.value@ == share_text(count, share@),
        f.inline,
{
    CardField {
        name: String::from_str(name),
        value: int_string(count).concat(" (").concat(share.as_str()).concat("%)"),
        inline: true,
    }
}

/// A player's stats card: titled with the player's name, in blurple, with
/// one inline field per count (wins at the first, second and third try, then
/// losses), each with its share of the games as the caller wrote it (`shares`,
/// in the same order), and a last field with the number of games.
pub fn stats_card(player: &str, stats: &FlagStats, shares: &Vec<String>) -> (c: Card)
    requires
        shares.len() == 4,
        i32::MIN <= stats.first_attempt + stats.second_attempt <= i32::MAX,
        i32::MIN <= stats.first_attempt + stats.second_attempt + stats.third_attempt <= i32::MAX,
        i32::MIN <= stats.games() <= i32::MAX,
    ensures
        c.title is Some,
        c.title->0@ == "🏁 Quiz stats of "@ + player@,
        c.color == stats_blurple(),
        c.description is None,
        c.footer is None,
        c.image is None,
        c.thumbnail is None,
        c.fields.len() == 5,
        c.fields@[0].name@ == "1️⃣ Attempt:"@,
        c.fields@[0].value@ == share_text(stats.first_attempt, shares@[0]@),
        c.fields@[1].name@ == "2️⃣ Attempt:"@,
        c.fields@[1].value@ == share_text(stats.second_attempt, shares@[1]@),
        c.fields@[2].name@ == "3️⃣ Attempt:"@,
        c.fields@[2].value@ == share_text(stats.third_attempt, shares@[2]@),
        c.fields@[3].name@ == "❌ Wrong:"@,
        c.fields@[3].value@ == share_text(stats.wrong, shares@[3]@),
        c.fields@[4].name@ == "🔢 Total:"@,
        c.fields@[4].value@ == int_decimal(stats.games()),
        forall|i: int| 0 <= i < 5 ==> (#[trigger] c.fields@[i]).inline,
{
    let mut c = titled_card("", Colors::Custom(0x72, 0x89, 0xDA));
    c.title = Some(String::from_str("🏁 Quiz stats of ").concat(player));
    let mut fields: Vec<CardField> = Vec::new();
    fields.push(stat_field("1️⃣ Attempt:", stats.first_attempt, &shares[0]));
    fields.push(stat_field("2️⃣ Attempt:", stats.second_attempt, &shares[1]));
    fields.push(stat_field("3️⃣ Attempt:", stats.third_attempt, &shares[2]));
    fields.push(stat_field("❌ Wrong:", stats.wrong, &shares[3]));
    fields.push(
        CardField {
            name: String::from_str("🔢 Total:"),
            value: int_string(stats.total()),
            inline: true,
        },
    );
    c.fields = fields;
    c
}

/// Law: a game won after `k` wrong guesses raises the count of wins at try
/// `k + 1` by one and keeps the three other counts; a lost game raises the
/// losses by one and keeps the wins; a game that timed out changes nothing.
/// Room for the raise is exactly that the raised count is below `i32::MAX`.
pub proof fn lemma_recording_raises_the_right_count(s: FlagStats, k: int)
    requires
        0 <= k < MAX_RETRIES,
    ensures
        can_record(s, Reason::Correct, k) <==> (if k == 0 {
            s.first_attempt < i32::MAX
        } else if k == 1 {
            s.second_attempt < i32::MAX
        } else {
            s.third_attempt < i32::MAX
        }),
        can_record(s, Reason::Correct, k) ==> raised_one(s, recorded(s, Reason::Correct, k), k),
        can_record(s, Reason::Loss, MAX_RETRIES as int) <==> s.wrong < i32::MAX,
        s.wrong < i32::MAX ==> raised_one(s, recorded(s, Reason::Loss, MAX_RETRIES as int), 3),
        can_record(s, Reason::Timeout, k),
        recorded(s, Reason::Timeout, k) == s,
{
}

/// Law: a game never has more wrong guesses than allowed, so a won game was
/// won at the first, second or third try.
pub proof fn lemma_won_within_tries(quiz: FlagQuiz)
    requires
        quiz.wf(),
        quiz.outcome() == Reason::Correct,
    ensures
        0 <= quiz.wrong_guesses() < MAX_RETRIES,
{
}

/// Law: recording a game that ended by a guess adds exactly one game to the
/// tally, in one count; a game that timed out leaves the tally as it was.
pub proof fn lemma_record_counts_one_game(s: FlagStats, outcome: Reason, wrong: int)
    requires
        can_record(s, outcome, wrong),
    ensures
        outcome != Reason::Timeout ==> recorded(s, outcome, wrong).games() == s.games() + 1,
        outcome == Reason::Timeout ==> recorded(s, outcome, wrong) == s,
        recorded(s, outcome, wrong).first_attempt >= s.first_attempt,
        recorded(s, outcome, wrong).second_attempt >= s.second_attempt,
        recorded(s, outcome, wrong).third_attempt >= s.third_attempt,
        recorded(s, outcome, wrong).wrong >= s.wrong,
{
}

} // verus!
