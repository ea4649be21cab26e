//! Text helpers shared by the bot's features: decimal rendering, lowercase
//! folding, string equality and substring search.
use vstd::prelude::*;

verus! {

/// The character of a decimal digit `d` (0 to 9).
pub open spec fn digit_char(d: nat) -> char {
    (48 + d) as char
}

/// The decimal representation of `n`, most significant digit first, without
/// leading zeros (`0` is written as a single digit).
pub open spec fn decimal(n: nat) -> Seq<char>
    decreases n,
{
    if n < 10 {
        seq![digit_char(n)]
    } else {
        decimal(n / 10).push(digit_char(n % 10))
    }
}

/// The lowercase form that `str::to_lowercase` gives of a text.
pub uninterp spec fn lowercase(s: Seq<char>) -> Seq<char>;

/// The one-character text of a decimal digit.
fn digit_str(d: u8) -> (s: &'static str)
    requires
        d < 10,
    ensures
        s@ == seq![digit_char(d as nat)],
{
    proof {
        reveal_strlit("0");
        reveal_strlit("1");
        reveal_strlit("2");
        reveal_strlit("3");
        reveal_strlit("4");
        reveal_strlit("5");
        reveal_strlit("6");
        reveal_strlit("7");
        reveal_strlit("8");
        reveal_strlit("9");
    }
    let s = match d {
        0 => "0",
        1 => "1",
        2 => "2",
        3 => "3",
        4 => "4",
        5 => "5",
        6 => "6",
        7 => "7",
        8 => "8",
        _ => "9",
    };
    assert(s@ =~= seq![digit_char(d as nat)]);
    s
}

/// Renders an unsigned integer in decimal, as its `Display` writes it.
pub(crate) fn decimal_string(n: u128) -> (s: String)
    ensures
        s@ == decimal(n as nat),
    decreases n,
{
    let d = digit_str((n % 10) as u8);
    if n < 10 {
        String::from_str(d)
    } else {
        let head = decimal_string(n / 10);
        let s = head.concat(d);
        assert(s@ =~= decimal((n / 10) as nat).push(digit_char((n % 10) as nat)));
        s
    }
}

/// The decimal representation of a signed integer: a minus sign before the
/// digits of its size when it is negative.
pub open spec fn int_decimal(n: int) -> Seq<char> {
    if n < 0 {
        seq!['-'] + decimal((-n) as nat)
    } else {
        decimal(n as nat)
    }
}

/// Renders a signed integer in decimal, as its `Display` writes it.
pub(crate) fn int_string(n: i32) -> (s: String)
    ensures
        s@ == int_decimal(n as int),
{
    if n < 0 {
        let size = (0i64 - n as i64) as u128;
        let s = String::from_str("-").concat(decimal_string(size).as_str());
        proof {
            reveal_strlit("-");
            assert(s@ =~= int_decimal(n as int));
        }
        s
    } else {
        decimal_string(n as u128)
    }
}

/// The lowercase form of an ASCII character: `A` to `Z` become `a` to `z`,
/// every other character stays.
pub open spec fn ascii_lower(c: char) -> char {
    if 'A' <= c <= 'Z' {
        ((c as int) + 32) as char
    } else {
        c
    }
}

/// A text with every character folded as ASCII folds case.
pub open spec fn fold_ascii(s: Seq<char>) -> Seq<char> {
    s.map_values(|c: char| ascii_lower(c))
}

/// Two texts are the same when case is ignored, character by character, as
/// ASCII folds case.
pub open spec fn same_ignoring_ascii_case(a: Seq<char>, b: Seq<char>) -> bool {
    &&& a.len() == b.len()
    &&& forall|j: int| 0 <= j < a.len() ==> ascii_lower(#[trigger] a[j]) == ascii_lower(b[j])
}

/// Folds a text to lowercase with `str::to_lowercase`; the result is named
/// `lowercase`. Of a text of ASCII characters it is the text with `A` to `Z`
/// turned to `a` to `z` and the rest kept (ASCII letters' Unicode lowercase
/// mappings; no other ASCII character has one). For other texts nothing more
/// is claimed: Unicode lowercasing may change the length and depends on
/// context (final sigma).
#[verifier::external_body]
pub(crate) fn to_lowercase(s: &str) -> (r: String)
    ensures
        r@ == lowercase(s@),
        vstd::utf8::is_ascii_chars(s@) ==> r@ == fold_ascii(s@),
{
    s.to_lowercase()
}

/// Whether two texts hold the same characters.
pub fn same_text(a: &str, b: &str) -> (r: bool)
    ensures
        r == (a@ == b@),
{
    a.to_owned() == b.to_owned()
}

/// The characters of a text, in order.
pub fn chars_of(s: &str) -> (v: Vec<char>)
    ensures
        v@ == s@,
{
    let n = s.unicode_len();
    let mut v: Vec<char> = Vec::new();
    let mut i: usize = 0;
    while i < n
        invariant
            n == s@.len(),
            i <= n,
            v@ == s@.subrange(0, i as int),
        decreases n - i,
    {
        let c = s.get_char(i);
        v.push(c);
        i = i + 1;
        assert(v@ =~= s@.subrange(0, i as int));
    }
    assert(v@ =~= s@);
    v
}

/// `needle` occurs in `hay` starting at position `i`.
pub open spec fn occurs_at(hay: Seq<char>, needle: Seq<char>, i: int) -> bool {
    0 <= i && i + needle.len() <= hay.len() && hay.subrange(i, i + needle.len()) == needle
}

/// `needle` occurs somewhere in `hay` (the empty text occurs in every text).
pub open spec fn contains_text(hay: Seq<char>, needle: Seq<char>) -> bool {
    exists|i: int| occurs_at(hay, needle, i)
}

fn matches_at(hay: &Vec<char>, needle: &Vec<char>, i: usize) -> (r: bool)
    requires
        i + needle.len() <= hay.len(),
    ensures
        r == occurs_at(hay@, needle@, i as int),
{
    let m = needle.len();
    let mut j: usize = 0;
    while j < m
        invariant
            m == needle.len(),
            i + m <= hay.len(),
            j <= m,
            forall|t: int| 0 <= t < j ==> hay@[i + t] == needle@[t],
        decreases m - j,
    {
        if hay[i + j] != needle[j] {
            assert(hay@.subrange(i as int, i + m)[j as int] != needle@[j as int]);
            return false;
        }
        j = j + 1;
    }
    assert(hay@.subrange(i as int, i + m) =~= needle@);
    true
}

/// Whether `needle` occurs in `hay`, as `str::contains` with a text pattern
/// answers.
pub fn text_contains(hay: &str, needle: &str) -> (r: bool)
    ensures
        r == contains_text(hay@, needle@),
{
    let h = chars_of(hay);
    let nd = chars_of(needle);
    if nd.len() > h.len() {
        assert forall|i: int| !occurs_at(hay@, needle@, i) by {}
        return false;
    }
    let last = h.len() - nd.len();
    let mut i: usize = 0;
    while i < last
        invariant
            h@ == hay@,
            nd@ == needle@,
            last + nd.len() == h.len(),
            i <= last,
            forall|t: int| 0 <= t < i ==> !occurs_at(hay@, needle@, t),
        decreases last - i,
    {
        if matches_at(&h, &nd, i) {
            return true;
        }
        i = i + 1;
    }
    if matches_at(&h, &nd, last) {
        return true;
    }
    assert forall|t: int| !occurs_at(hay@, needle@, t) by {
        if 0 <= t && t + needle@.len() <= hay@.len() {
            assert(t <= last);
        }
    }
    false
}

/// The empty text occurs in every text.
pub proof fn lemma_empty_occurs(hay: Seq<char>)
    ensures
        contains_text(hay, seq![]),
{
    assert(hay.subrange(0, 0) =~= seq![]);
    assert(occurs_at(hay, seq![], 0));
}

/// A text that occurs in a part of `hay` occurs in `hay`.
pub proof fn lemma_contains_transitive(hay: Seq<char>, mid: Seq<char>, needle: Seq<char>)
    requires
        contains_text(hay, mid),
        contains_text(mid, needle),
    ensures
        contains_text(hay, needle),
{
    let i = choose|i: int| occurs_at(hay, mid, i);
    let j = choose|j: int| occurs_at(mid, needle, j);
    assert forall|t: int| 0 <= t < needle.len() implies hay.subrange(
        i + j,
        i + j + needle.len(),
    )[t] == needle[t] by {
        assert(mid.subrange(j, j + needle.len())[t] == needle[t]);
        assert(hay.subrange(i, i + mid.len())[j + t] == mid[j + t]);
    }
    assert(hay.subrange(i + j, i + j + needle.len()) =~= needle);
    assert(occurs_at(hay, needle, i + j));
}

/// Folding two texts character by character gives the same text exactly when
/// they are the same ignoring case.
pub proof fn lemma_ascii_fold_equal(a: Seq<char>, b: Seq<char>)
    ensures
        (fold_ascii(a) == fold_ascii(b)) <==> same_ignoring_ascii_case(a, b),
{
    let fa = fold_ascii(a);
    let fb = fold_ascii(b);
    assert(fa.len() == a.len() && fb.len() == b.len());
    if fa == fb {
        assert forall|j: int| 0 <= j < a.len() implies ascii_lower(#[trigger] a[j]) == ascii_lower(
            b[j],
        ) by {
            assert(fa[j] == ascii_lower(a[j]));
            assert(fb[j] == ascii_lower(b[j]));
        }
    }
    if same_ignoring_ascii_case(a, b) {
        assert(fa =~= fb);
    }
}

/// The number that a string of decimal digits stands for.
pub open spec fn digits_value(d: Seq<char>) -> int
    decreases d.len(),
{
    if d.len() == 0 {
        0
    } else {
        digits_value(d.drop_last()) * 10 + (d.last() as int - 48)
    }
}

/// Law: the decimal text of a number is never empty and reads back as that
/// number.
pub proof fn lemma_decimal_reads_back(n: nat)
    ensures
        decimal(n).len() >= 1,
        digits_value(decimal(n)) == n,
    decreases n,
{
    if n < 10 {
        assert(decimal(n).drop_last() =~= Seq::<char>::empty());
        assert(digit_char(n) as int == 48 + n);
        assert(decimal(n).last() == digit_char(n));
        assert(digits_value(decimal(n)) == digits_value(decimal(n).drop_last()) * 10 + (
        decimal(n).last() as int - 48));
    } else {
        lemma_decimal_reads_back(n / 10);
        assert(decimal(n).drop_last() =~= decimal(n / 10));
        assert(digit_char(n % 10) as int == 48 + n % 10);
        assert(decimal(n).last() == digit_char(n % 10));
        assert(digits_value(decimal(n)) == digits_value(decimal(n).drop_last()) * 10 + (
        decimal(n).last() as int - 48));
        assert(n == (n / 10) * 10 + n % 10);
    }
}

/// Law: two numbers with the same decimal text are the same number.
pub proof fn lemma_decimal_injective(a: nat, b: nat)
    ensures
        decimal(a) == decimal(b) ==> a == b,
{
    lemma_decimal_reads_back(a);
    lemma_decimal_reads_back(b);
}

} // verus!
