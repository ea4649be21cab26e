use fewwis::colors::Colors;
use fewwis::compile::{code_block, loading_card, parse_code, result_card, RunReport};

#[test]
fn parses_a_block_with_language() {
    let msg = "```rust\nfn main() {}\n```";
    let (lang, code) = parse_code(msg).ok().unwrap();
    assert_eq!(lang, "rust");
    assert_eq!(code, "fn main() {}");
}

#[test]
fn parses_text_around_the_block() {
    let msg = "run this:\n```c\nint x;\n```\nthanks";
    let (lang, code) = parse_code(msg).ok().unwrap();
    assert_eq!(lang, "c");
    assert_eq!(code, "int x;");
}

#[test]
fn takes_the_first_block_and_the_shortest_code() {
    let msg = "```py\nprint(1)\n```\n```js\nx\n```";
    let (lang, code) = parse_code(msg).ok().unwrap();
    assert_eq!(lang, "py");
    assert_eq!(code, "print(1)");
}

#[test]
fn keeps_line_breaks_inside_the_code() {
    let msg = "```\na\nb\n```";
    let (lang, code) = parse_code(msg).ok().unwrap();
    assert_eq!(lang, "");
    assert_eq!(code, "a\nb");
}

#[test]
fn handles_non_ascii_text() {
    let msg = "ñ```py\nprint('ü')\n```";
    let (lang, code) = parse_code(msg).ok().unwrap();
    assert_eq!(lang, "py");
    assert_eq!(code, "print('ü')");
}

#[test]
fn refuses_a_message_without_a_block() {
    let err = parse_code("just text").err().unwrap();
    assert_eq!(err.message(), "Error parsing the code");
}

#[test]
fn refuses_an_unclosed_block() {
    assert!(parse_code("```rust\nfn main() {}").is_err());
}

#[test]
fn refuses_empty_code() {
    assert!(parse_code("```\n\n```").is_err());
}

#[test]
fn refuses_a_block_without_a_line_break() {
    assert!(parse_code("```fn main() {}```").is_err());
}

#[test]
fn code_block_round_trip() {
    let block = code_block("let x = 1;");
    assert_eq!(block, "```\nlet x = 1;\n```");
    let (lang, code) = parse_code(&block).ok().unwrap();
    assert_eq!(lang, "");
    assert_eq!(code, "let x = 1;");
}

#[test]
fn loading_card_contents() {
    let c = loading_card();
    assert_eq!(c.title.as_deref(), Some("⌛ Compiling..."));
    assert_eq!(c.description.as_deref(), Some("This shouldn't take much time ;)"));
    assert_eq!(c.color, Colors::White);
    assert!(c.footer.is_none());
}

#[test]
fn result_card_for_a_successful_run() {
    let run = RunReport {
        language: "python".to_string(),
        version: "3.10.0".to_string(),
        exit_code: 0,
        output: "hi\n".to_string(),
    };
    let c = result_card(&run, 1234);
    assert_eq!(c.title.as_deref(), Some("👩‍🍳 Your code is cooked! python (3.10.0)"));
    assert_eq!(c.description.as_deref(), Some("```\nhi\n\n```"));
    assert_eq!(c.footer.as_deref(), Some("Compiled correctly | 1234ms"));
    assert_eq!(c.color, Colors::Fewwis);
}

#[test]
fn result_card_for_a_failed_run() {
    let run = RunReport {
        language: "rust".to_string(),
        version: "1.68.2".to_string(),
        exit_code: 101,
        output: "boom".to_string(),
    };
    let c = result_card(&run, 5);
    assert_eq!(c.title.as_deref(), Some("💀 Your code is cooked! rust (1.68.2)"));
    assert_eq!(c.description.as_deref(), Some("Error: boom"));
    assert!(c.footer.is_none());
    assert_eq!(c.color, Colors::Red);
}

#[test]
fn result_card_elapsed_zero() {
    let run = RunReport {
        language: "c".to_string(),
        version: "10".to_string(),
        exit_code: 0,
        output: "".to_string(),
    };
    let c = result_card(&run, 0);
    assert_eq!(c.footer.as_deref(), Some("Compiled correctly | 0ms"));
}

#[test]
fn result_card_elapsed_with_zero_digits() {
    let run = RunReport {
        language: "c".to_string(),
        version: "10".to_string(),
        exit_code: 0,
        output: "".to_string(),
    };
    assert_eq!(result_card(&run, 100).footer.as_deref(), Some("Compiled correctly | 100ms"));
    assert_eq!(
        result_card(&run, u128::MAX).footer.as_deref(),
        Some("Compiled correctly | 340282366920938463463374607431768211455ms")
    );
}
