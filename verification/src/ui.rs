use vstd::prelude::*;

use crate::app::{ActiveColumn, App};

verus! {

/// The colour of a column's border.
#[derive(PartialEq, Eq, Structural, Clone, Copy, Debug)]
pub enum Accent {
    Cyan,
    Magenta,
    DarkGray,
}

/// The colour a price is shown in: short prices green, middle ones yellow,
/// long ones red.
#[derive(PartialEq, Eq, Structural, Clone, Copy, Debug)]
pub enum PriceTone {
    Green,
    Yellow,
    Red,
}

/// One line of a list column.
pub struct ListLine {
    pub text: String,
    pub selected: bool,
}

/// What a list column shows: its border colour and its lines.
pub struct ColumnView {
    pub accent: Accent,
    pub items: Vec<ListLine>,
}

/// One row of the odds table.
pub struct OddsRow {
    pub name: String,
    pub price: String,
    pub tone: PriceTone,
}

/// What the analysis column shows for the selected event.
pub struct OddsView {
    pub rows: Vec<OddsRow>,
    pub prediction: String,
}

/// The character of a decimal digit.
pub open spec fn digit(d: int) -> char {
    if d == 0 {
        '0'
    } else if d == 1 {
        '1'
    } else if d == 2 {
        '2'
    } else if d == 3 {
        '3'
    } else if d == 4 {
        '4'
    } else if d == 5 {
        '5'
    } else if d == 6 {
        '6'
    } else if d == 7 {
        '7'
    } else if d == 8 {
        '8'
    } else {
        '9'
    }
}

/// The decimal notation of `n`, without leading zeros.
pub open spec fn decimal(n: nat) -> Seq<char>
    decreases n,
{
    if n < 10 {
        seq![digit(n as int)]
    } else {
        decimal(n / 10) + seq![digit((n % 10) as int)]
    }
}

/// A price given in hundredths, written with two decimals (`185` is "1.85").
pub open spec fn price_text(hundredths: nat) -> Seq<char> {
    decimal(hundredths / 100) + seq!['.', digit(((hundredths / 10) % 10) as int), digit(
        (hundredths % 10) as int,
    )]
}

/// The colour of a price given in hundredths: below 2.00 green, below 4.00
/// yellow, red from 4.00 on.
pub open spec fn tone_of(hundredths: nat) -> PriceTone {
    if hundredths < 200 {
        PriceTone::Green
    } else if hundredths < 400 {
        PriceTone::Yellow
    } else {
        PriceTone::Red
    }
}

/// A list line: the text after one space.
pub open spec fn line_text(text: Seq<char>) -> Seq<char> {
    seq![' '] + text
}

fn digit_str(d: u32) -> (r: &'static str)
    requires
        d < 10,
    ensures
        r@ == seq![digit(d as int)],
{
    proof {
        reveal_strlit("0");
        reveal_strlit("1");
        reveal_strlit("2");
        reveal_strlit("3");
        reveal_strlit("4");
        reveal_strlit("5");
        reveal_strlit("6");
        reveal_strlit("7");
        reveal_strlit("8");
        reveal_strlit("9");
    }
    if d == 0 {
        "0"
    } else if d == 1 {
        "1"
    } else if d == 2 {
        "2"
    } else if d == 3 {
        "3"
    } else if d == 4 {
        "4"
    } else if d == 5 {
        "5"
    } else if d == 6 {
        "6"
    } else if d == 7 {
        "7"
    } else if d == 8 {
        "8"
    } else {
        "9"
    }
}

fn append_decimal(s: &mut String, n: u32)
    ensures
        final(s)@ == old(s)@ + decimal(n as nat),
    decreases n,
{
    if n >= 10 {
        append_decimal(s, n / 10);
    }
    s.append(digit_str(n % 10));
}

/// Writes a price with two decimals, as the odds table shows it.
pub fn format_price(hundredths: u32) -> (r: String)
    ensures
        r@ == price_text(hundredths as nat),
{
    let mut s = String::new();
    append_decimal(&mut s, hundredths / 100);
    proof {
        reveal_strlit(".");
    }
    s.append(".");
    s.append(digit_str((hundredths / 10) % 10));
    s.append(digit_str(hundredths % 10));
    s
}

/// The colour a price is shown in.
pub fn price_tone(hundredths: u32) -> (r: PriceTone)
    ensures
        r == tone_of(hundredths as nat),
{
    if hundredths < 200 {
        PriceTone::Green
    } else if hundredths < 400 {
        PriceTone::Yellow
    } else {
        PriceTone::Red
    }
}

fn list_line(text: &String, selected: bool) -> (r: ListLine)
    ensures
        r.text@ == line_text(text@),
        r.selected == selected,
{
    proof {
        reveal_strlit(" ");
    }
    let mut t = " ".to_owned();
    t.append(text.as_str());
    ListLine { text: t, selected }
}

/// The sports column: one line per sport, the selected one highlighted; the
/// border is cyan while the column is active.
pub fn sports_column(app: &App) -> (r: ColumnView)
    ensures
        r.accent == (if app.active_column == ActiveColumn::Sports {
            Accent::Cyan
        } else {
            Accent::DarkGray
        }),
        r.items@.len() == app.sports@.len(),
        forall|i: int|
            0 <= i < app.sports@.len() ==> {
                &&& (#[trigger] r.items@[i]).text@ == line_text(app.sports@[i].name@)
                &&& r.items@[i].selected == (i == app.selected_sport)
            },
{
    let accent = match app.active_column {
        ActiveColumn::Sports => Accent::Cyan,
        ActiveColumn::Matches => Accent::DarkGray,
    };
    let mut items: Vec<ListLine> = Vec::new();
    let mut i: usize = 0;
    while i < app.sports.len()
        invariant
            i <= app.sports@.len(),
            items@.len() == i,
            forall|j: int|
                0 <= j < i ==> {
                    &&& (#[trigger] items@[j]).text@ == line_text(app.sports@[j].name@)
                    &&& items@[j].selected == (j == app.selected_sport)
                },
        decreases app.sports@.len() - i,
    {
        items.push(list_line(&app.sports[i].name, i == app.selected_sport));
        i = i + 1;
    }
    ColumnView { accent, items }
}

/// The events column: one line per event of the selected sport, the selected
/// one highlighted, and no line when no sport is selected; the border is
/// magenta while the column is active.
pub fn matches_column(app: &App) -> (r: ColumnView)
    ensures
        r.accent == (if app.active_column == ActiveColumn::Matches {
            Accent::Magenta
        } else {
            Accent::DarkGray
        }),
        r.items@.len() == app.match_count(),
        app.selected_sport < app.sports@.len() ==> forall|i: int|
            0 <= i < app.match_count() ==> {
                &&& (#[trigger] r.items@[i]).text@ == line_text(
                    app.sports@[app.selected_sport as int].matches@[i].title@,
                )
                &&& r.items@[i].selected == (i == app.selected_match)
            },
{
    let accent = match app.active_column {
        ActiveColumn::Matches => Accent::Magenta,
        ActiveColumn::Sports => Accent::DarkGray,
    };
    let mut items: Vec<ListLine> = Vec::new();
    if app.selected_sport < app.sports.len() {
        let sport = &app.sports[app.selected_sport];
        let mut i: usize = 0;
        while i < sport.matches.len()
            invariant
                app.selected_sport < app.sports@.len(),
                *sport == app.sports@[app.selected_sport as int],
                i <= sport.matches@.len(),
                items@.len() == i,
                forall|j: int|
                    0 <= j < i ==> {
                        &&& (#[trigger] items@[j]).text@ == line_text(sport.matches@[j].title@)
                        &&& items@[j].selected == (j == app.selected_match)
                    },
            decreases sport.matches@.len() - i,
        {
            items.push(list_line(&sport.matches[i].title, i == app.selected_match));
            i = i + 1;
        }
    }
    ColumnView { accent, items }
}

/// The analysis column: for the selected event, its prices (name, price with
/// two decimals, colour) and its prediction; nothing when no event is selected.
pub fn odds_column(app: &App) -> (r: Option<OddsView>)
    ensures
        r is Some <==> (app.selected_sport < app.sports@.len() && app.selected_match
            < app.match_count()),
        r matches Some(view) ==> {
            let event = app.sports@[app.selected_sport as int].matches@[app.selected_match as int];
            &&& view.prediction@ == event.prediction@
            &&& view.rows@.len() == event.odds@.len()
            &&& forall|i: int|
                0 <= i < event.odds@.len() ==> {
                    &&& (#[trigger] view.rows@[i]).name@ == event.odds@[i].name@
                    &&& view.rows@[i].price@ == price_text(
                        event.odds@[i].price_hundredths as nat,
                    )
                    &&& view.rows@[i].tone == tone_of(event.odds@[i].price_hundredths as nat)
                }
        },
{
    if app.selected_sport >= app.sports.len() {
        return None;
    }
    let sport = &app.sports[app.selected_sport];
    if app.selected_match >= sport.matches.len() {
        return None;
    }
    let event = &sport.matches[app.selected_match];
    let mut rows: Vec<OddsRow> = Vec::new();
    let mut i: usize = 0;
    while i < event.odds.len()
        invariant
            i <= event.odds@.len(),
            rows@.len() == i,
            forall|j: int|
                0 <= j < i ==> {
                    &&& (#[trigger] rows@[j]).name@ == event.odds@[j].name@
                    &&& rows@[j].price@ == price_text(event.odds@[j].price_hundredths as nat)
                    &&& rows@[j].tone == tone_of(event.odds@[j].price_hundredths as nat)
                },
        decreases event.odds@.len() - i,
    {
        let odd = &event.odds[i];
        rows.push(
            OddsRow {
                name: odd.name.clone(),
                price: format_price(odd.price_hundredths),
                tone: price_tone(odd.price_hundredths),
            },
        );
        i = i + 1;
    }
    Some(OddsView { rows, prediction: event.prediction.clone() })
}


/// The value of a decimal digit character (0 for any other character).
pub open spec fn digit_value(c: char) -> int {
    if c == '1' {
        1
    } else if c == '2' {
        2
    } else if c == '3' {
        3
    } else if c == '4' {
        4
    } else if c == '5' {
        5
    } else if c == '6' {
        6
    } else if c == '7' {
        7
    } else if c == '8' {
        8
    } else if c == '9' {
        9
    } else {
        0
    }
}

/// Whether `c` is one of the characters `0` to `9`.
pub open spec fn is_digit(c: char) -> bool {
    c == '0' || c == '1' || c == '2' || c == '3' || c == '4' || c == '5' || c == '6' || c == '7'
        || c == '8' || c == '9'
}

/// The number that a string of digits denotes.
pub open spec fn value_of(s: Seq<char>) -> int
    decreases s.len(),
{
    if s.len() == 0 {
        0
    } else {
        value_of(s.drop_last()) * 10 + digit_value(s.last())
    }
}

/// The order of the colours, from short prices to long ones.
pub open spec fn tone_rank(t: PriceTone) -> int {
    match t {
        PriceTone::Green => 0,
        PriceTone::Yellow => 1,
        PriceTone::Red => 2,
    }
}

proof fn lemma_value_of_push(s: Seq<char>, c: char)
    ensures
        value_of(s.push(c)) == value_of(s) * 10 + digit_value(c),
{
    assert(s.push(c).drop_last() =~= s);
}

proof fn lemma_digit(d: int)
    requires
        0 <= d < 10,
    ensures
        is_digit(digit(d)),
        digit_value(digit(d)) == d,
        (digit(d) == '0') == (d == 0),
{
}

/// The decimal notation of `n` is a non-empty string of digits denoting `n`,
/// starting with `0` only when `n` is zero.
pub proof fn lemma_decimal_denotes(n: nat)
    ensures
        decimal(n).len() >= 1,
        forall|i: int| 0 <= i < decimal(n).len() ==> is_digit(#[trigger] decimal(n)[i]),
        value_of(decimal(n)) == n,
        decimal(n)[0] == '0' ==> n == 0,
    decreases n,
{
    if n < 10 {
        lemma_digit(n as int);
        lemma_value_of_push(Seq::<char>::empty(), digit(n as int));
        assert(seq![digit(n as int)] =~= Seq::<char>::empty().push(digit(n as int)));
    } else {
        lemma_decimal_denotes(n / 10);
        lemma_digit((n % 10) as int);
        let d = digit((n % 10) as int);
        assert(decimal(n) =~= decimal(n / 10).push(d));
        lemma_value_of_push(decimal(n / 10), d);
        assert(n == (n / 10) * 10 + n % 10);
    }
}

/// A price's text reads back to the price: it is the integer part in decimal
/// (digits only, no leading zero), a point, and exactly two digits that denote
/// the hundredths.
pub proof fn lemma_price_text_reads_back(h: nat)
    ensures
        ({
            let t = price_text(h);
            let k = t.len() - 3;
            &&& t.len() >= 4
            &&& t[k] == '.'
            &&& forall|i: int| 0 <= i < t.len() && i != k ==> is_digit(#[trigger] t[i])
            &&& value_of(t.take(k)) == h / 100
            &&& (t[0] == '0' ==> k == 1)
            &&& value_of(t.skip(k + 1)) == h % 100
            &&& digit_value(t[k + 1]) == (h % 100) / 10
            &&& digit_value(t[k + 2]) == h % 10
        }),
{
    let t = price_text(h);
    let int_part = decimal(h / 100);
    lemma_decimal_denotes(h / 100);
    let d1 = digit(((h / 10) % 10) as int);
    let d0 = digit((h % 10) as int);
    lemma_digit(((h / 10) % 10) as int);
    lemma_digit((h % 10) as int);
    let k = t.len() - 3;
    assert(k == int_part.len());
    assert(t.take(k) =~= int_part);
    assert(t.skip(k + 1) =~= Seq::<char>::empty().push(d1).push(d0));
    lemma_value_of_push(Seq::<char>::empty(), d1);
    lemma_value_of_push(Seq::<char>::empty().push(d1), d0);
    assert(Seq::<char>::empty().push(d1).drop_last() =~= Seq::<char>::empty());
    assert((h / 10) % 10 == (h % 100) / 10);
    assert(((h % 100) / 10) * 10 + h % 10 == h % 100);
    assert forall|i: int| 0 <= i < t.len() && i != k implies is_digit(#[trigger] t[i]) by {
        if i < k {
            assert(t[i] == int_part[i]);
        }
    }
}

/// The colour is red exactly from 4.00 on, yellow exactly from 2.00 up to
/// 4.00, green exactly below 2.00; so a longer price never gets the colour of
/// a shorter one.
pub proof fn lemma_tone_thresholds(p: nat, q: nat)
    ensures
        (tone_of(p) == PriceTone::Red) == (p >= 400),
        (tone_of(p) == PriceTone::Yellow) == (200 <= p < 400),
        (tone_of(p) == PriceTone::Green) == (p < 200),
        p <= q ==> tone_rank(tone_of(p)) <= tone_rank(tone_of(q)),
{
}

} // verus!
