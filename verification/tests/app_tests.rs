use oddatui::app::{ActiveColumn, App, Input, Key, MatchMock, OddMock, SportMock};

fn press(app: &mut App, code: Key) {
    app.step(Input::Key { code, pressed: true });
}

fn sport(name: &str, events: usize) -> SportMock {
    let mut matches = Vec::new();
    for i in 0..events {
        matches.push(MatchMock {
            title: format!("{} {}", name, i),
            odds: vec![OddMock { name: "A".to_string(), price_hundredths: 150 }],
            prediction: String::new(),
        });
    }
    SportMock { name: name.to_string(), matches }
}

#[test]
fn new_app_starts_on_first_sport() {
    let app = App::new();
    assert!(app.running);
    assert_eq!(app.active_column, ActiveColumn::Sports);
    assert_eq!(app.selected_sport, 0);
    assert_eq!(app.selected_match, 0);
    assert_eq!(app.sports.len(), 3);
    assert_eq!(app.sports[0].name, "Calcio");
    assert_eq!(app.sports[1].name, "Basket (NBA)");
    assert_eq!(app.sports[2].name, "Tennis");
    assert_eq!(app.sports[0].matches.len(), 2);
    assert_eq!(app.sports[0].matches[1].title, "Vincente Champions League");
    assert_eq!(app.sports[0].matches[0].odds[0].name, "Inter");
    assert_eq!(app.sports[0].matches[0].odds[0].price_hundredths, 185);
    assert_eq!(app.sports[2].matches[0].odds[2].name, "N. Djokovic");
    assert_eq!(app.sports[2].matches[0].odds[2].price_hundredths, 450);
    assert!(app.sports[0].matches[1].prediction.contains("Mbappé"));
}

#[test]
fn next_sport_moves_and_resets_match() {
    let mut app = App::new();
    app.selected_match = 1;
    app.next_sport();
    assert_eq!(app.selected_sport, 1);
    assert_eq!(app.selected_match, 0);
    app.next_sport();
    assert_eq!(app.selected_sport, 2);
    app.next_sport();
    assert_eq!(app.selected_sport, 2);
}

#[test]
fn prev_sport_stops_at_first() {
    let mut app = App::new();
    app.prev_sport();
    assert_eq!(app.selected_sport, 0);
    app.next_sport();
    app.next_sport();
    app.prev_sport();
    assert_eq!(app.selected_sport, 1);
    assert_eq!(app.selected_match, 0);
}

#[test]
fn next_and_prev_match_stay_within_the_sport() {
    let mut app = App::new();
    app.next_match();
    assert_eq!(app.selected_match, 1);
    app.next_match();
    assert_eq!(app.selected_match, 1);
    app.prev_match();
    assert_eq!(app.selected_match, 0);
    app.prev_match();
    assert_eq!(app.selected_match, 0);
    app.next_sport();
    app.next_match();
    assert_eq!(app.selected_match, 0);
}

#[test]
fn next_match_without_a_selected_sport_does_nothing() {
    let mut app = App::new();
    app.sports = Vec::new();
    app.next_match();
    assert_eq!(app.selected_match, 0);
    app.next_sport();
    assert_eq!(app.selected_sport, 0);
}

#[test]
fn toggle_twice_is_identity() {
    let mut app = App::new();
    app.toggle_column();
    assert_eq!(app.active_column, ActiveColumn::Matches);
    app.toggle_column();
    assert_eq!(app.active_column, ActiveColumn::Sports);
}

#[test]
fn quit_stops_running() {
    let mut app = App::new();
    app.quit();
    assert!(!app.running);
    let mut app = App::new();
    press(&mut app, Key::Char('q'));
    assert!(!app.running);
    let mut app = App::new();
    press(&mut app, Key::Esc);
    assert!(!app.running);
}

#[test]
fn keys_move_in_the_active_column() {
    let mut app = App::new();
    press(&mut app, Key::Down);
    assert_eq!(app.selected_sport, 1);
    press(&mut app, Key::Char('k'));
    assert_eq!(app.selected_sport, 0);
    press(&mut app, Key::Tab);
    assert_eq!(app.active_column, ActiveColumn::Matches);
    press(&mut app, Key::Char('j'));
    assert_eq!(app.selected_match, 1);
    assert_eq!(app.selected_sport, 0);
    press(&mut app, Key::Up);
    assert_eq!(app.selected_match, 0);
    press(&mut app, Key::Right);
    assert_eq!(app.active_column, ActiveColumn::Sports);
    press(&mut app, Key::Left);
    assert_eq!(app.active_column, ActiveColumn::Matches);
    assert!(app.running);
}

#[test]
fn ignored_inputs_change_nothing() {
    let mut app = App::new();
    app.step(Input::Key { code: Key::Down, pressed: false });
    app.step(Input::Idle);
    app.step(Input::Other);
    press(&mut app, Key::Char('x'));
    press(&mut app, Key::Other);
    assert!(app.running);
    assert_eq!(app.selected_sport, 0);
    assert_eq!(app.selected_match, 0);
    assert_eq!(app.active_column, ActiveColumn::Sports);
    app.tick();
}

#[test]
fn next_then_prev_sport_returns() {
    let mut app = App::new();
    app.sports = vec![sport("a", 3), sport("b", 1)];
    app.selected_match = 2;
    app.next_sport();
    app.prev_sport();
    assert_eq!(app.selected_sport, 0);
    assert_eq!(app.selected_match, 0);
}

#[test]
fn selection_stays_in_range_over_many_keys() {
    let mut app = App::new();
    app.sports = vec![sport("a", 3), sport("b", 1), sport("c", 0)];
    let keys = [Key::Tab, Key::Down, Key::Down, Key::Down, Key::Tab, Key::Down,
        Key::Down, Key::Up, Key::Down, Key::Down, Key::Char('j'), Key::Tab, Key::Up];
    for key in keys {
        press(&mut app, key);
        assert!(app.selected_sport < app.sports.len());
        let count = app.sports[app.selected_sport].matches.len();
        assert!(app.selected_match == 0 || app.selected_match < count);
    }
}
