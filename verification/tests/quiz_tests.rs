use fewwis::colors::Colors;
use fewwis::quiz::{
    is_correct_guess, matches_any, pick_flag, step_card, won_card, starting_card, fetching_card,
    game_card, pick_from_shuffled, stats_card, Country, FlagQuiz, FlagStats, QuizStep, Reason,
};

fn france() -> Country {
    Country {
        name_common: "France".to_string(),
        name_official: "French Republic".to_string(),
        spa_common: "Francia".to_string(),
        spa_official: "República francesa".to_string(),
        flag_png: "https://flags/fr.png".to_string(),
        coat_of_arms_png: "https://coats/fr.png".to_string(),
    }
}

#[test]
fn guesses_ignore_case() {
    let c = france();
    assert!(is_correct_guess(&c, "FRANCE"));
    assert!(is_correct_guess(&c, "french republic"));
    assert!(is_correct_guess(&c, "francia"));
    assert!(is_correct_guess(&c, "REPÚBLICA FRANCESA"));
    assert!(!is_correct_guess(&c, "Spain"));
    assert!(!is_correct_guess(&c, "Franc"));
}

#[test]
fn matches_any_candidates() {
    let v = vec!["a".to_string(), "b".to_string()];
    assert!(matches_any("b", &v));
    assert!(!matches_any("c", &v));
    assert!(!matches_any("a", &vec![]));
}

#[test]
fn answers() {
    let c = france();
    assert_eq!(c.english_answer(), "France/French Republic");
    assert_eq!(c.spanish_answer(), "Francia/República francesa");
}

#[test]
fn win_at_first_try() {
    let mut q = FlagQuiz::new();
    assert_eq!(q.tries_label(), "Tries: 1/3");
    assert_eq!(q.guess(true), QuizStep::Won);
    assert_eq!(q.reason(), Reason::Correct);
    assert_eq!(q.wrong_count(), 0);
    let s = FlagStats::new().record(&q);
    assert_eq!(s, FlagStats { first_attempt: 1, second_attempt: 0, third_attempt: 0, wrong: 0 });
}

#[test]
fn three_wrong_guesses_lose() {
    let mut q = FlagQuiz::new();
    assert_eq!(q.guess(false), QuizStep::Retry { hint: false });
    assert_eq!(q.tries_label(), "Tries: 2/3");
    assert_eq!(q.guess(false), QuizStep::Retry { hint: true });
    assert_eq!(q.tries_label(), "Tries: 3/3");
    assert_eq!(q.guess(false), QuizStep::Lost);
    assert_eq!(q.reason(), Reason::Loss);
    assert_eq!(q.wrong_count(), 3);
    assert_eq!(q.tries_label(), "Tries: 4/3");
    let s = FlagStats { first_attempt: 2, second_attempt: 0, third_attempt: 1, wrong: 4 }.record(&q);
    assert_eq!(s, FlagStats { first_attempt: 2, second_attempt: 0, third_attempt: 1, wrong: 5 });
}

#[test]
fn win_at_third_try() {
    let mut q = FlagQuiz::new();
    q.guess(false);
    q.guess(false);
    assert_eq!(q.guess(true), QuizStep::Won);
    let s = FlagStats::new().record(&q);
    assert_eq!(s.third_attempt, 1);
    assert_eq!(s.total(), 1);
}

#[test]
fn timeout_changes_nothing() {
    let mut q = FlagQuiz::new();
    q.guess(false);
    assert_eq!(q.reason(), Reason::Timeout);
    let before = FlagStats { first_attempt: 1, second_attempt: 2, third_attempt: 3, wrong: 4 };
    assert_eq!(before.record(&q), before);
    assert_eq!(before.total(), 10);
}

#[test]
fn picks_one_of_the_countries() {
    let mut spain = france();
    spain.name_common = "Spain".to_string();
    let mut italy = france();
    italy.name_common = "Italy".to_string();
    for _ in 0..20 {
        let c = pick_flag(vec![france(), spain_clone(&spain), spain_clone(&italy)]);
        assert!(["France", "Spain", "Italy"].contains(&c.name_common.as_str()));
    }
}

fn spain_clone(c: &Country) -> Country {
    Country {
        name_common: c.name_common.clone(),
        name_official: c.name_official.clone(),
        spa_common: c.spa_common.clone(),
        spa_official: c.spa_official.clone(),
        flag_png: c.flag_png.clone(),
        coat_of_arms_png: c.coat_of_arms_png.clone(),
    }
}

#[test]
fn cards_of_the_game() {
    let c = france();
    let mut q = FlagQuiz::new();
    let g = game_card(&c, &q);
    assert_eq!(g.title.as_deref(), Some("🏁 Quiz of Flags"));
    assert_eq!(g.image.as_deref(), Some("https://flags/fr.png"));
    assert_eq!(g.footer.as_deref(), Some("Tries: 1/3"));
    assert_eq!(g.color, Colors::Fewwis);
    let step = q.guess(false);
    let card = step_card(&c, &q, step).unwrap();
    assert!(card.thumbnail.is_none());
    let step = q.guess(false);
    let card = step_card(&c, &q, step).unwrap();
    assert_eq!(card.thumbnail.as_deref(), Some("https://coats/fr.png"));
    assert_eq!(card.description.as_deref(), Some("> 💡 **HINT:** Look the thumbnail."));
    let step = q.guess(false);
    let card = step_card(&c, &q, step).unwrap();
    assert_eq!(card.fields.len(), 2);
    assert_eq!(card.fields[0].value, "France/French Republic");
    assert_eq!(card.fields[1].name, ":flag_es: Spanish");
    assert_eq!(card.footer.as_deref(), Some("Tries: 4/3"));
    assert!(step_card(&c, &q, QuizStep::Won).is_none());
}

#[test]
fn other_quiz_cards() {
    let w = won_card();
    assert!(w.title.is_none());
    assert_eq!(w.color, Colors::Green);
    assert_eq!(w.description.as_deref(), Some("> 🎉 **Congrats!** You got it right."));
    assert_eq!(starting_card().title.as_deref(), Some("⏳ Starting game..."));
    assert_eq!(fetching_card().title.as_deref(), Some("⏳ Fetching data..."));
}

#[test]
fn checked_tally() {
    let full = FlagStats { first_attempt: i32::MAX, second_attempt: 0, third_attempt: 0, wrong: 0 };
    let mut q = FlagQuiz::new();
    q.guess(true);
    assert_eq!(full.try_record(&q), None);
    assert_eq!(full.checked_total(), Some(i32::MAX));
    let over = FlagStats { first_attempt: i32::MAX, second_attempt: 1, third_attempt: 0, wrong: 0 };
    assert_eq!(over.checked_total(), None);
    let ok = FlagStats::new();
    assert_eq!(ok.try_record(&q), Some(FlagStats { first_attempt: 1, ..FlagStats::new() }));
}

#[test]
fn pick_from_the_shuffled_list() {
    let mut spain = france();
    spain.name_common = "Spain".to_string();
    let c = pick_from_shuffled(vec![france(), spain, france()], 1);
    assert_eq!(c.name_common, "Spain");
}

#[test]
fn stats_card_contents() {
    let s = FlagStats { first_attempt: 1, second_attempt: 0, third_attempt: 2, wrong: 1 };
    let shares = vec!["25.00".to_string(), "0.00".to_string(), "50.00".to_string(), "25.00".to_string()];
    let c = stats_card("ana", &s, &shares);
    assert_eq!(c.title.as_deref(), Some("🏁 Quiz stats of ana"));
    assert_eq!(c.color.value(), 0x7289DA);
    let fields: Vec<(&str, &str, bool)> =
        c.fields.iter().map(|f| (f.name.as_str(), f.value.as_str(), f.inline)).collect();
    assert_eq!(
        fields,
        vec![
            ("1️⃣ Attempt:", "1 (25.00%)", true),
            ("2️⃣ Attempt:", "0 (0.00%)", true),
            ("3️⃣ Attempt:", "2 (50.00%)", true),
            ("❌ Wrong:", "1 (25.00%)", true),
            ("🔢 Total:", "4", true),
        ]
    );
    let neg = FlagStats { first_attempt: -3, second_attempt: 0, third_attempt: 0, wrong: 0 };
    let c = stats_card("x", &neg, &shares);
    assert_eq!(c.fields[0].value, "-3 (25.00%)");
    assert_eq!(c.fields[4].value, "-3");
}
