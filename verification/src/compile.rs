//! The `compile` command: finding the fenced code block in a message, and the
//! cards that report a run.
use vstd::prelude::*;
use crate::text::{chars_of, decimal, decimal_string};
use crate::card::{Card, is_plain, titled_card};
use crate::colors::Colors;

verus! {

/// Three backticks start at `k`.
pub open spec fn fence_at(s: Seq<char>, k: int) -> bool {
    &&& 0 <= k
    &&& k + 3 <= s.len()
    &&& s[k] == '`'
    &&& s[k + 1] == '`'
    &&& s[k + 2] == '`'
}

/// A line break followed by three backticks starts at `k`: the end of a block.
pub open spec fn closing_at(s: Seq<char>, k: int) -> bool {
    &&& 0 <= k
    &&& k + 4 <= s.len()
    &&& s[k] == '\n'
    &&& fence_at(s, k + 1)
}

/// A code block opens at `i`: its language runs from `i + 3` to the first line
/// break `e`, and its code, at least one character long, runs from `e + 1` to
/// the first closing `k` after it (the shortest code that can be closed).
pub open spec fn block_at(s: Seq<char>, i: int, e: int, k: int) -> bool {
    &&& fence_at(s, i)
    &&& i + 3 <= e < s.len()
    &&& s[e] == '\n'
    &&& (forall|j: int| i + 3 <= j < e ==> s[j] != '\n')
    &&& e + 2 <= k
    &&& closing_at(s, k)
    &&& (forall|j: int| e + 2 <= j < k ==> !closing_at(s, j))
}

/// Some code block opens at `i`.
pub open spec fn opens_block(s: Seq<char>, i: int) -> bool {
    exists|e: int, k: int| block_at(s, i, e, k)
}

/// The block at `i` is the leftmost one in `s`.
pub open spec fn first_block(s: Seq<char>, i: int, e: int, k: int) -> bool {
    &&& block_at(s, i, e, k)
    &&& forall|j: int| 0 <= j < i ==> !opens_block(s, j)
}

/// The text of a block with the given language and code.
pub open spec fn fence_text(lang: Seq<char>, code: Seq<char>) -> Seq<char> {
    seq!['`', '`', '`'] + lang + seq!['\n'] + code + seq!['\n', '`', '`', '`']
}

/// A message held no code block.
#[derive(Debug)]
pub struct CodeBlockMissing;

impl CodeBlockMissing {
    /// What the error says.
    pub fn message(&self) -> (m: &'static str)
        ensures
            m@ == "Error parsing the code"@,
    {
        "Error parsing the code"
    }
}

/// What a run of submitted code came back with.
pub struct RunReport {
    pub language: String,
    pub version: String,
    pub exit_code: u8,
    pub output: String,
}

/// The card shown while the code runs.
pub fn loading_card() -> (c: Card)
    ensures
        c.title is Some,
        c.title->0@ == "⌛ Compiling..."@,
        c.description is Some,
        c.description->0@ == "This shouldn't take much time ;)"@,
        c.color == Colors::White,
        c.footer is None,
        is_plain(c),
{
    let mut c = titled_card("⌛ Compiling...", Colors::White);
    c.description = Some(String::from_str("This shouldn't take much time ;)"));
    c
}

/// A code block with no language around `code`, as a chat message writes it.
pub fn code_block(code: &str) -> (s: String)
    ensures
        s@ == fence_text(seq![], code@),
{
    let s = String::from_str("```\n").concat(code).concat("\n```");
    proof {
        reveal_strlit("```\n");
        reveal_strlit("\n```");
        assert(s@ =~= fence_text(seq![], code@));
    }
    s
}

/// The title of the result card: a chef when the run exited with 0, a skull
/// otherwise, then the language and its version.
pub open spec fn result_title(run: RunReport) -> Seq<char> {
    (if run.exit_code == 0 { "👩‍🍳"@ } else { "💀"@ }) + " Your code is cooked! "@ + run.language@
        + " ("@ + run.version@ + ")"@
}

/// The card that reports a run. A run that exited with 0 shows its output in a
/// code block, in the bot's own colour, with a footer giving the time it took in
/// milliseconds; any other run shows "Error: " and its output, in red.
pub fn result_card(run: &RunReport, elapsed_ms: u128) -> (c: Card)
    ensures
        c.title is Some,
        c.title->0@ == result_title(*run),
        c.description is Some,
        is_plain(c),
        run.exit_code == 0 ==> {
            &&& c.color == Colors::Fewwis
            &&& c.description->0@ == fence_text(seq![], run.output@)
            &&& c.footer is Some
            &&& c.footer->0@ == "Compiled correctly | "@ + decimal(elapsed_ms as nat) + "ms"@
        },
        run.exit_code != 0 ==> {
            &&& c.color == Colors::Red
            &&& c.description->0@ == "Error: "@ + run.output@
            &&& c.footer is None
        },
{
    let success = run.exit_code == 0;
    let emoji = if success { "👩‍🍳" } else { "💀" };
    let title = String::from_str(emoji).concat(" Your code is cooked! ").concat(
        run.language.as_str(),
    ).concat(" (").concat(run.version.as_str()).concat(")");
    let mut c = titled_card("", if success { Colors::Fewwis } else { Colors::Red });
    c.title = Some(title);
    if success {
        c.description = Some(code_block(run.output.as_str()));
        c.footer = Some(
            String::from_str("Compiled correctly | ").concat(
                decimal_string(elapsed_ms).as_str(),
            ).concat("ms"),
        );
    } else {
        c.description = Some(String::from_str("Error: ").concat(run.output.as_str()));
    }
    c
}

/// The block that opens at `i`, if one does: the end of its language line and
/// the start of its closing fence.
fn block_from(s: &Vec<char>, i: usize) -> (r: Option<(usize, usize)>)
    requires
        i < s.len(),
    ensures
        match r {
            Some((e, k)) => block_at(s@, i as int, e as int, k as int),
            None => !opens_block(s@, i as int),
        },
{
    let n = s.len();
    if !(n - i >= 3 && s[i] == '`' && s[i + 1] == '`' && s[i + 2] == '`') {
        return None;
    }
    let mut e = i + 3;
    while e < n && s[e] != '\n'
        invariant
            n == s.len(),
            i + 3 <= e <= n,
            forall|j: int| i + 3 <= j < e ==> s@[j] != '\n',
        decreases n - e,
    {
        e = e + 1;
    }
    if e == n {
        assert forall|e2: int, k2: int| !block_at(s@, i as int, e2, k2) by {
            if block_at(s@, i as int, e2, k2) {
                assert(s@[e2] != '\n');
            }
        }
        return None;
    }
    let mut k = e + 1;
    while k < n
        invariant
            n == s.len(),
            e < n,
            s@[e as int] == '\n',
            fence_at(s@, i as int),
            i + 3 <= e,
            forall|j: int| i + 3 <= j < e ==> s@[j] != '\n',
            e + 1 <= k <= n,
            forall|j: int| e + 2 <= j < k ==> !closing_at(s@, j),
        decreases n - k,
    {
        if k > e + 1 && n - k >= 4 && s[k] == '\n' && s[k + 1] == '`' && s[k + 2] == '`' && s[k
            + 3] == '`' {
            return Some((e, k));
        }
        k = k + 1;
    }
    assert forall|e2: int, k2: int| !block_at(s@, i as int, e2, k2) by {
        if block_at(s@, i as int, e2, k2) {
            if e2 < e {
                assert(s@[e2] != '\n');
            }
            if e2 > e {
                assert(s@[e as int] != '\n');
            }
            assert(e2 == e);
            assert(!closing_at(s@, k2));
        }
    }
    None
}

/// Finds the first fenced code block in a message, as the pattern
/// "```(?<lang>[^\n]*)\n(?<code>.+?)\n```" (dot matching line breaks) finds it:
/// the leftmost block, with the language up to the first line break and the
/// shortest non-empty code that is followed by a closing fence.
pub fn parse_code(code: &str) -> (r: Result<(&str, &str), CodeBlockMissing>)
    ensures
        match r {
            Ok((lang, body)) => exists|i: int, e: int, k: int|
                {
                    &&& first_block(code@, i, e, k)
                    &&& lang@ == code@.subrange(i + 3, e)
                    &&& body@ == code@.subrange(e + 1, k)
                },
            Err(_) => forall|i: int| !opens_block(code@, i),
        },
{
    let s = chars_of(code);
    let n = s.len();
    let mut i: usize = 0;
    while i < n
        invariant
            s@ == code@,
            n == s.len(),
            i <= n,
            forall|j: int| 0 <= j < i ==> !opens_block(code@, j),
        decreases n - i,
    {
        match block_from(&s, i) {
            Some((e, k)) => {
                let lang = code.substring_char(i + 3, e);
                let body = code.substring_char(e + 1, k);
                assert(first_block(code@, i as int, e as int, k as int));
                return Ok((lang, body));
            },
            None => {},
        }
        i = i + 1;
    }
    assert forall|j: int| !opens_block(code@, j) by {
        if opens_block(code@, j) {
            let (e2, k2) = choose|e2: int, k2: int| block_at(code@, j, e2, k2);
            assert(j < i);
        }
    }
    Err(CodeBlockMissing)
}

/// Law: a block written with a language free of line breaks and a non-empty
/// code that holds no closing fence is found again by `parse_code`, which gives
/// back exactly that language and that code.
pub proof fn lemma_fence_round_trip(lang: Seq<char>, code: Seq<char>)
    requires
        forall|j: int| 0 <= j < lang.len() ==> lang[j] != '\n',
        code.len() >= 1,
        forall|j: int| !closing_at(code, j),
    ensures
        opens_block(fence_text(lang, code), 0),
        forall|i: int, e: int, k: int|
            first_block(fence_text(lang, code), i, e, k) ==> {
                &&& fence_text(lang, code).subrange(i + 3, e) == lang
                &&& fence_text(lang, code).subrange(e + 1, k) == code
            },
{
    let t = fence_text(lang, code);
    let ln = lang.len() as int;
    let cn = code.len() as int;
    let e0 = ln + 3;
    let k0 = ln + 4 + cn;
    assert(t.len() == k0 + 4);
    assert forall|j: int| 0 <= j < ln implies #[trigger] t[j + 3] == lang[j] by {}
    assert forall|j: int| 0 <= j < cn implies #[trigger] t[e0 + 1 + j] == code[j] by {}
    assert(t[e0] == '\n');
    assert(t[k0] == '\n' && t[k0 + 1] == '`' && t[k0 + 2] == '`' && t[k0 + 3] == '`');
    assert(t[0] == '`' && t[1] == '`' && t[2] == '`');
    assert forall|j: int| 3 <= j < e0 implies t[j] != '\n' by {
        assert(t[(j - 3) + 3] == lang[j - 3]);
    }
    assert forall|j: int| e0 + 2 <= j < k0 implies !closing_at(t, j) by {
        if closing_at(t, j) {
            if j + 4 <= k0 {
                let c = j - e0 - 1;
                assert(t[e0 + 1 + c] == code[c]);
                assert(t[e0 + 1 + (c + 1)] == code[c + 1]);
                assert(t[e0 + 1 + (c + 2)] == code[c + 2]);
                assert(t[e0 + 1 + (c + 3)] == code[c + 3]);
                assert(closing_at(code, c));
            } else {
                assert(t[k0] == '`');
            }
        }
    }
    assert(block_at(t, 0, e0, k0));
    assert forall|i: int, e: int, k: int| first_block(t, i, e, k) implies {
        &&& t.subrange(i + 3, e) == lang
        &&& t.subrange(e + 1, k) == code
    } by {
        if i > 0 {
            assert(!opens_block(t, 0));
        }
        assert(i == 0);
        if e < e0 {
            assert(t[e] != '\n');
        }
        if e > e0 {
            assert(t[e0] != '\n');
        }
        assert(e == e0);
        if k < k0 {
            assert(!closing_at(t, k));
        }
        if k > k0 {
            assert(!closing_at(t, k0));
        }
        assert(k == k0);
        assert(t.subrange(i + 3, e) =~= lang);
        assert(t.subrange(e + 1, k) =~= code);
    }
}

} // verus!
