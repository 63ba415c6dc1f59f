//! Text of a change and of the summary line, plain or coloured by sign.

use vstd::prelude::*;
use vstd::string::StringExecFns;
use yansi::Paint;
use crate::engine::{spec_sign, ChangeResult, Sign};
use crate::rounding::abs;

verus! {

/// `String::push` appends one character.
pub assume_specification[ String::push ](s: &mut String, c: char)
    ensures
        final(s)@ == old(s)@.push(c),
;

/// The character of a decimal digit.
pub open spec fn digit_char(d: int) -> char
    recommends
        0 <= d < 10,
{
    if d == 0 {
        '0'
    } else if d == 1 {
        '1'
    } else if d == 2 {
        '2'
    } else if d == 3 {
        '3'
    } else if d == 4 {
        '4'
    } else if d == 5 {
        '5'
    } else if d == 6 {
        '6'
    } else if d == 7 {
        '7'
    } else if d == 8 {
        '8'
    } else {
        '9'
    }
}

/// Decimal digits of `n`, most significant first, without leading zeros.
pub open spec fn spec_decimal(n: nat) -> Seq<char>
    decreases n,
{
    if n < 10 {
        seq![digit_char(n as int)]
    } else {
        spec_decimal(n / 10).push(digit_char((n % 10) as int))
    }
}

/// What stands before the digits of a change: `+` for a rise, `-` for a
/// fall, nothing for no change.
pub open spec fn spec_sign_prefix(hundredths: int) -> Seq<char> {
    match spec_sign(hundredths) {
        Sign::Positive => seq!['+'],
        Sign::Negative => seq!['-'],
        Sign::Neutral => Seq::empty(),
    }
}

/// Text of a change given in hundredths of a percent: sign, whole percent,
/// a point, two decimals and a percent sign, as in `+10.53%`, `-0.07%`,
/// `0.00%`.
pub open spec fn spec_format_change(hundredths: int) -> Seq<char> {
    let m = abs(hundredths);
    spec_sign_prefix(hundredths) + spec_decimal((m / 100) as nat) + seq![
        '.',
        digit_char((m / 10) % 10),
        digit_char(m % 10),
        '%',
    ]
}

/// `text` between the escape sequence that sets the foreground colour
/// `colour` and the one that resets it.
pub open spec fn spec_painted(colour: char, text: Seq<char>) -> Seq<char> {
    seq!['\x1b', '[', '3', colour, 'm'] + text + seq!['\x1b', '[', '0', 'm']
}

/// The colour digit of a sign: green for a rise, red for a fall, white for
/// no change.
pub open spec fn spec_colour(sign: Sign) -> char {
    match sign {
        Sign::Positive => '2',
        Sign::Negative => '1',
        Sign::Neutral => '7',
    }
}

/// One segment of the summary line: label, colon, space, the text of the
/// change and a tab.
pub open spec fn spec_segment(label: Seq<char>, text: Seq<char>) -> Seq<char> {
    label + seq![':', ' '] + text + seq!['\t']
}

/// The head of the summary line: pair, ` | $`, price and a tab.
pub open spec fn spec_head(pair: Seq<char>, price: Seq<char>) -> Seq<char> {
    pair + seq![' ', '|', ' ', '$'] + price + seq!['\t']
}

/// The summary line over the first `n` rows, with `texts[i]` as the text of
/// row `i`.
pub open spec fn spec_line(
    pair: Seq<char>,
    price: Seq<char>,
    labels: Seq<Seq<char>>,
    texts: Seq<Seq<char>>,
    n: nat,
) -> Seq<char>
    decreases n,
{
    if n == 0 {
        spec_head(pair, price)
    } else {
        spec_line(pair, price, labels, texts, (n - 1) as nat) + spec_segment(
            labels[n - 1],
            texts[n - 1],
        )
    }
}

/// Labels of `rows`, in order.
pub open spec fn spec_labels_of(rows: Seq<ChangeResult>) -> Seq<Seq<char>> {
    Seq::new(rows.len(), |i: int| rows[i].label@)
}

/// Plain texts of the changes of `rows`, in order.
pub open spec fn spec_texts_of(rows: Seq<ChangeResult>) -> Seq<Seq<char>> {
    Seq::new(rows.len(), |i: int| spec_format_change(rows[i].hundredths as int))
}

/// `text` is the plain text of `row`, or that text in the colour of the
/// row's sign.
pub open spec fn is_rendering_of(text: Seq<char>, row: ChangeResult) -> bool {
    let plain = spec_format_change(row.hundredths as int);
    text == plain || text == spec_painted(spec_colour(spec_sign(row.hundredths as int)), plain)
}

/// `line` is the summary line of `rows` assembled from `texts`, and each of
/// `texts` is a rendering of its row.
pub open spec fn is_line_over(
    line: Seq<char>,
    pair: Seq<char>,
    price: Seq<char>,
    rows: Seq<ChangeResult>,
    texts: Seq<Seq<char>>,
) -> bool {
    &&& texts.len() == rows.len()
    &&& forall|k: int| 0 <= k < rows.len() ==> is_rendering_of(#[trigger] texts[k], rows[k])
    &&& line == spec_line(pair, price, spec_labels_of(rows), texts, rows.len())
}

/// `line` is a summary line of `rows` in which each change stands plain or
/// in the colour of its sign.
pub open spec fn is_painted_line(
    line: Seq<char>,
    pair: Seq<char>,
    price: Seq<char>,
    rows: Seq<ChangeResult>,
) -> bool {
    exists|texts: Seq<Seq<char>>| #[trigger] is_line_over(line, pair, price, rows, texts)
}

fn digit(d: u128) -> (c: char)
    requires
        d < 10,
    ensures
        c == digit_char(d as int),
{
    if d == 0 {
        '0'
    } else if d == 1 {
        '1'
    } else if d == 2 {
        '2'
    } else if d == 3 {
        '3'
    } else if d == 4 {
        '4'
    } else if d == 5 {
        '5'
    } else if d == 6 {
        '6'
    } else if d == 7 {
        '7'
    } else if d == 8 {
        '8'
    } else {
        '9'
    }
}

fn push_decimal(s: &mut String, n: u128)
    ensures
        final(s)@ == old(s)@ + spec_decimal(n as nat),
    decreases n,
{
    if n >= 10 {
        push_decimal(s, n / 10);
    }
    s.push(digit(n % 10));
    assert(s@ =~= old(s)@ + spec_decimal(n as nat));
}

/// Text of a change given in hundredths of a percent.
pub fn format_change(hundredths: i128) -> (s: String)
    ensures
        s@ == spec_format_change(hundredths as int),
{
    let mut s = String::new();
    let m: u128 = if hundredths >= 0 {
        hundredths as u128
    } else {
        (-(hundredths + 1)) as u128 + 1
    };
    if hundredths > 0 {
        s.push('+');
    } else if hundredths < 0 {
        s.push('-');
    }
    push_decimal(&mut s, m / 100);
    s.push('.');
    s.push(digit((m / 10) % 10));
    s.push(digit(m % 10));
    s.push('%');
    assert(s@ =~= spec_format_change(hundredths as int));
    s
}

/// `Paint::green` and the `Display` of what it returns: the text as it is
/// while painting is switched off, else between the codes for a green
/// foreground and for a reset.
#[verifier::external_body]
fn paint_green(text: &str) -> (r: String)
    ensures
        r@ == text@ || r@ == spec_painted('2', text@),
{
    Paint::green(text).to_string()
}

/// `Paint::red` and the `Display` of what it returns: the text as it is
/// while painting is switched off, else between the codes for a red
/// foreground and for a reset.
#[verifier::external_body]
fn paint_red(text: &str) -> (r: String)
    ensures
        r@ == text@ || r@ == spec_painted('1', text@),
{
    Paint::red(text).to_string()
}

/// `Paint::white` and the `Display` of what it returns: the text as it is
/// while painting is switched off, else between the codes for a white
/// foreground and for a reset.
#[verifier::external_body]
fn paint_white(text: &str) -> (r: String)
    ensures
        r@ == text@ || r@ == spec_painted('7', text@),
{
    Paint::white(text).to_string()
}

/// Text of the change of `row` in the colour of its sign. Whether the colour
/// codes are there depends on the painter's global switch.
pub fn paint_change(row: &ChangeResult) -> (s: String)
    ensures
        is_rendering_of(s@, *row),
{
    let plain = format_change(row.hundredths);
    match row.sign() {
        Sign::Positive => paint_green(plain.as_str()),
        Sign::Negative => paint_red(plain.as_str()),
        Sign::Neutral => paint_white(plain.as_str()),
    }
}

/// Views of `texts`, in order.
pub open spec fn spec_views_of(texts: Seq<String>) -> Seq<Seq<char>> {
    Seq::new(texts.len(), |i: int| texts[i]@)
}

fn assemble(pair: &str, price: &str, rows: &Vec<ChangeResult>, texts: &Vec<String>) -> (s: String)
    requires
        rows@.len() == texts@.len(),
    ensures
        s@ == spec_line(
            pair@,
            price@,
            spec_labels_of(rows@),
            spec_views_of(texts@),
            rows@.len(),
        ),
{
    let ghost labels = spec_labels_of(rows@);
    let ghost views = spec_views_of(texts@);
    let mut s = String::new();
    s.append(pair);
    s.append(" | $");
    s.append(price);
    s.push('\t');
    proof {
        reveal_strlit(" | $");
        assert(s@ =~= spec_head(pair@, price@));
    }
    let mut i: usize = 0;
    while i < rows.len()
        invariant
            0 <= i <= rows@.len(),
            rows@.len() == texts@.len(),
            labels == spec_labels_of(rows@),
            views == spec_views_of(texts@),
            s@ == spec_line(pair@, price@, labels, views, i as nat),
        decreases rows@.len() - i,
    {
        let ghost before = s@;
        s.append(rows[i].label);
        s.append(": ");
        s.append(texts[i].as_str());
        s.push('\t');
        proof {
            reveal_strlit(": ");
            assert(s@ =~= before + spec_segment(labels[i as int], views[i as int]));
        }
        i += 1;
    }
    s
}

/// The summary line of `rows` with `texts[i]` as the text of row `i`: the
/// head, then one segment per row in order. `None` unless there is one text
/// for each row.
pub fn assemble_line(pair: &str, price: &str, rows: &Vec<ChangeResult>, texts: &Vec<String>) -> (s:
    Option<String>)
    ensures
        s.is_some() <==> rows@.len() == texts@.len(),
        s.is_some() ==> s.unwrap()@ == spec_line(
            pair@,
            price@,
            spec_labels_of(rows@),
            spec_views_of(texts@),
            rows@.len(),
        ),
{
    if rows.len() != texts.len() {
        None
    } else {
        Some(assemble(pair, price, rows, texts))
    }
}

/// The summary line of `rows` in plain text.
pub fn format_line(pair: &str, price: &str, rows: &Vec<ChangeResult>) -> (s: String)
    ensures
        s@ == spec_line(
            pair@,
            price@,
            spec_labels_of(rows@),
            spec_texts_of(rows@),
            rows@.len(),
        ),
{
    let mut texts: Vec<String> = Vec::new();
    let mut i: usize = 0;
    while i < rows.len()
        invariant
            0 <= i <= rows@.len(),
            texts@.len() == i,
            forall|k: int|
                0 <= k < i ==> (#[trigger] texts@[k])@ == spec_format_change(
                    rows@[k].hundredths as int,
                ),
        decreases rows@.len() - i,
    {
        texts.push(format_change(rows[i].hundredths));
        i += 1;
    }
    assert(spec_views_of(texts@) =~= spec_texts_of(rows@));
    assemble(pair, price, rows, &texts)
}

/// The summary line of `rows` with each change in the colour of its sign:
/// the line assembled from some texts of which each is the plain or the
/// coloured text of its row.
pub fn paint_line(pair: &str, price: &str, rows: &Vec<ChangeResult>) -> (s: String)
    ensures
        is_painted_line(s@, pair@, price@, rows@),
{
    let mut texts: Vec<String> = Vec::new();
    let mut i: usize = 0;
    while i < rows.len()
        invariant
            0 <= i <= rows@.len(),
            texts@.len() == i,
            forall|k: int| 0 <= k < i ==> is_rendering_of((#[trigger] texts@[k])@, rows@[k]),
        decreases rows@.len() - i,
    {
        texts.push(paint_change(&rows[i]));
        i += 1;
    }
    let s = assemble(pair, price, rows, &texts);
    assert(is_line_over(s@, pair@, price@, rows@, spec_views_of(texts@)));
    s
}

} // verus!
