use oddatui::app::{App, Key, Input};
use oddatui::ui::{format_price, matches_column, odds_column, price_tone, sports_column, Accent, PriceTone};

#[test]
fn prices_have_two_decimals() {
    assert_eq!(format_price(185), "1.85");
    assert_eq!(format_price(350), "3.50");
    assert_eq!(format_price(400), "4.00");
    assert_eq!(format_price(5), "0.05");
    assert_eq!(format_price(0), "0.00");
    assert_eq!(format_price(123456), "1234.56");
    assert_eq!(format_price(u32::MAX), "42949672.95");
}

#[test]
fn price_tones_follow_the_thresholds() {
    assert_eq!(price_tone(185), PriceTone::Green);
    assert_eq!(price_tone(199), PriceTone::Green);
    assert_eq!(price_tone(200), PriceTone::Yellow);
    assert_eq!(price_tone(399), PriceTone::Yellow);
    assert_eq!(price_tone(400), PriceTone::Red);
    assert_eq!(price_tone(800), PriceTone::Red);
}

#[test]
fn sports_column_highlights_the_selected_sport() {
    let mut app = App::new();
    app.next_sport();
    let view = sports_column(&app);
    assert_eq!(view.accent, Accent::Cyan);
    let texts: Vec<&str> = view.items.iter().map(|l| l.text.as_str()).collect();
    assert_eq!(texts, vec![" Calcio", " Basket (NBA)", " Tennis"]);
    let selected: Vec<bool> = view.items.iter().map(|l| l.selected).collect();
    assert_eq!(selected, vec![false, true, false]);
    app.toggle_column();
    assert_eq!(sports_column(&app).accent, Accent::DarkGray);
}

#[test]
fn matches_column_lists_the_selected_sport() {
    let mut app = App::new();
    let view = matches_column(&app);
    assert_eq!(view.accent, Accent::DarkGray);
    assert_eq!(view.items.len(), 2);
    assert_eq!(view.items[0].text, " Vincente Serie A 24/25");
    assert!(view.items[0].selected);
    assert_eq!(view.items[1].text, " Vincente Champions League");
    assert!(!view.items[1].selected);
    app.step(Input::Key { code: Key::Tab, pressed: true });
    assert_eq!(matches_column(&app).accent, Accent::Magenta);
    app.sports.clear();
    assert!(matches_column(&app).items.is_empty());
}

#[test]
fn odds_column_shows_the_selected_event() {
    let mut app = App::new();
    app.next_match();
    let view = odds_column(&app).expect("an event is selected");
    assert_eq!(view.rows.len(), 3);
    assert_eq!(view.rows[0].name, "Real Madrid");
    assert_eq!(view.rows[0].price, "3.00");
    assert_eq!(view.rows[0].tone, PriceTone::Yellow);
    assert_eq!(view.rows[2].name, "Bayern");
    assert_eq!(view.rows[2].price, "6.50");
    assert_eq!(view.rows[2].tone, PriceTone::Red);
    assert!(view.prediction.starts_with("Con l'aggiunta"));
    let mut app = App::new();
    let first = odds_column(&app).unwrap();
    assert_eq!(first.rows[0].tone, PriceTone::Green);
    app.selected_match = 5;
    assert!(odds_column(&app).is_none());
    app.selected_match = 0;
    app.selected_sport = 9;
    assert!(odds_column(&app).is_none());
}
