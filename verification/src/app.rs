use vstd::prelude::*;

verus! {

/// The column of the screen that the up and down keys move in.
#[derive(PartialEq, Eq, Structural, Clone, Copy, Debug)]
pub enum ActiveColumn {
    Sports,
    Matches,
}

/// One selection of an antepost market with its price.
///
/// The price is kept in hundredths (decimal odds 1.85 are stored as 185):
/// every price of the catalogue has two decimals, and the screen shows
/// prices with two decimals.
pub struct OddMock {
    pub name: String,
    pub price_hundredths: u32,
}

/// An antepost event with its prices and a short predictive comment.
pub struct MatchMock {
    pub title: String,
    pub odds: Vec<OddMock>,
    pub prediction: String,
}

/// A sport with the events listed under it.
pub struct SportMock {
    pub name: String,
    pub matches: Vec<MatchMock>,
}

/// A key the application reacts to.
#[derive(PartialEq, Eq, Structural, Clone, Copy, Debug)]
pub enum Key {
    Char(char),
    Esc,
    Tab,
    Left,
    Right,
    Up,
    Down,
    Other,
}

/// What one turn of the event loop observed.
#[derive(PartialEq, Eq, Structural, Clone, Copy, Debug)]
pub enum Input {
    /// No event arrived before the poll timed out.
    Idle,
    /// A key event; `pressed` is false for releases and repeats.
    Key { code: Key, pressed: bool },
    /// Any other terminal event (resize, mouse, focus, paste).
    Other,
}

/// Application state
pub struct App {
    /// Is the application running?
    pub running: bool,
    pub active_column: ActiveColumn,
    pub sports: Vec<SportMock>,
    pub selected_sport: usize,
    pub selected_match: usize,
}

/// The column that `Tab` switches to from `column`.
pub open spec fn toggled(column: ActiveColumn) -> ActiveColumn {
    match column {
        ActiveColumn::Sports => ActiveColumn::Matches,
        ActiveColumn::Matches => ActiveColumn::Sports,
    }
}

pub open spec fn odd_is(odd: OddMock, name: &str, price_hundredths: u32) -> bool {
    odd.name@ == name@ && odd.price_hundredths == price_hundredths
}

pub open spec fn odds_are(
    odds: Seq<OddMock>,
    n0: &str,
    p0: u32,
    n1: &str,
    p1: u32,
    n2: &str,
    p2: u32,
) -> bool {
    &&& odds.len() == 3
    &&& odd_is(odds[0], n0, p0)
    &&& odd_is(odds[1], n1, p1)
    &&& odd_is(odds[2], n2, p2)
}

pub open spec fn match_is(m: MatchMock, title: &str, prediction: &str) -> bool {
    m.title@ == title@ && m.prediction@ == prediction@
}

/// The catalogue that the application starts with.
pub open spec fn is_mock_catalog(sports: Seq<SportMock>) -> bool {
    &&& sports.len() == 3
    &&& sports[0].name@ == "Calcio"@
    &&& sports[0].matches@.len() == 2
    &&& match_is(
        sports[0].matches@[0],
        "Vincente Serie A 24/25",
        "L'Inter ha mantenuto l'ossatura della squadra campione, rendendola la favorita statistica.",
    )
    &&& odds_are(sports[0].matches@[0].odds@, "Inter", 185, "Juventus", 350, "Napoli", 400)
    &&& match_is(
        sports[0].matches@[1],
        "Vincente Champions League",
        "Con l'aggiunta di Mbappé, il Real Madrid domina i modelli predittivi.",
    )
    &&& odds_are(sports[0].matches@[1].odds@, "Real Madrid", 300, "Man City", 325, "Bayern", 650)
    &&& sports[1].name@ == "Basket (NBA)"@
    &&& sports[1].matches@.len() == 1
    &&& match_is(
        sports[1].matches@[0],
        "NBA Championship Winner",
        "I Celtics vantano il miglior net rating proiettato per la stagione.",
    )
    &&& odds_are(
        sports[1].matches@[0].odds@,
        "Boston Celtics",
        400,
        "Denver Nuggets",
        550,
        "OKC Thunder",
        800,
    )
    &&& sports[2].name@ == "Tennis"@
    &&& sports[2].matches@.len() == 1
    &&& match_is(
        sports[2].matches@[0],
        "Wimbledon 2025 Men",
        "L'algoritmo rileva un vantaggio marginale di Alcaraz sull'erba rispetto a Sinner.",
    )
    &&& odds_are(
        sports[2].matches@[0].odds@,
        "C. Alcaraz",
        220,
        "J. Sinner",
        275,
        "N. Djokovic",
        450,
    )
}

fn odd(name: &str, price_hundredths: u32) -> (r: OddMock)
    ensures
        odd_is(r, name, price_hundredths),
{
    OddMock { name: name.to_owned(), price_hundredths }
}

fn three_odds(n0: &str, p0: u32, n1: &str, p1: u32, n2: &str, p2: u32) -> (r: Vec<OddMock>)
    ensures
        odds_are(r@, n0, p0, n1, p1, n2, p2),
{
    let mut odds: Vec<OddMock> = Vec::new();
    odds.push(odd(n0, p0));
    odds.push(odd(n1, p1));
    odds.push(odd(n2, p2));
    odds
}

fn event(title: &str, odds: Vec<OddMock>, prediction: &str) -> (r: MatchMock)
    ensures
        match_is(r, title, prediction),
        r.odds == odds,
{
    MatchMock { title: title.to_owned(), odds, prediction: prediction.to_owned() }
}

impl App {
    /// How many events the selected sport lists (none when no sport is selected).
    pub open spec fn match_count(self) -> nat {
        if self.selected_sport < self.sports@.len() {
            self.sports@[self.selected_sport as int].matches@.len()
        } else {
            0
        }
    }

    /// Each selection points at an entry that exists, or rests on the first place.
    pub open spec fn selection_in_range(self) -> bool {
        &&& (self.selected_sport == 0 || self.selected_sport < self.sports@.len())
        &&& (self.selected_match == 0 || self.selected_match < self.match_count())
    }

    pub open spec fn after_quit(self) -> App {
        App { running: false, ..self }
    }

    pub open spec fn after_toggle(self) -> App {
        App { active_column: toggled(self.active_column), ..self }
    }

    pub open spec fn after_next_sport(self) -> App {
        if self.selected_sport + 1 < self.sports@.len() {
            App { selected_sport: (self.selected_sport + 1) as usize, selected_match: 0, ..self }
        } else {
            self
        }
    }

    pub open spec fn after_prev_sport(self) -> App {
        if self.selected_sport > 0 {
            App { selected_sport: (self.selected_sport - 1) as usize, selected_match: 0, ..self }
        } else {
            self
        }
    }

    pub open spec fn after_next_match(self) -> App {
        if self.selected_sport < self.sports@.len() && self.selected_match + 1
            < self.match_count() {
            App { selected_match: (self.selected_match + 1) as usize, ..self }
        } else {
            self
        }
    }

    pub open spec fn after_prev_match(self) -> App {
        if self.selected_match > 0 {
            App { selected_match: (self.selected_match - 1) as usize, ..self }
        } else {
            self
        }
    }

    /// The move that the down keys make in the active column.
    pub open spec fn after_down(self) -> App {
        match self.active_column {
            ActiveColumn::Sports => self.after_next_sport(),
            ActiveColumn::Matches => self.after_next_match(),
        }
    }

    /// The move that the up keys make in the active column.
    pub open spec fn after_up(self) -> App {
        match self.active_column {
            ActiveColumn::Sports => self.after_prev_sport(),
            ActiveColumn::Matches => self.after_prev_match(),
        }
    }

    /// What a pressed key does: `q` and `Esc` quit; `Tab`, left and right switch
    /// column; down and `j` move down; up and `k` move up; other keys do nothing.
    pub open spec fn after_key(self, key: Key) -> App {
        match key {
            Key::Char(c) => if c == 'q' {
                self.after_quit()
            } else if c == 'j' {
                self.after_down()
            } else if c == 'k' {
                self.after_up()
            } else {
                self
            },
            Key::Esc => self.after_quit(),
            Key::Tab | Key::Left | Key::Right => self.after_toggle(),
            Key::Down => self.after_down(),
            Key::Up => self.after_up(),
            Key::Other => self,
        }
    }

    /// What one turn of the event loop does with what it observed.
    pub open spec fn after_input(self, input: Input) -> App {
        match input {
            Input::Key { code, pressed } => if pressed {
                self.after_key(code)
            } else {
                self
            },
            _ => self,
        }
    }

    /// Construct a new instance of [`App`] over the built-in catalogue.
    pub fn new() -> (app: App)
        ensures
            app.running,
            app.active_column == ActiveColumn::Sports,
            app.selected_sport == 0,
            app.selected_match == 0,
            is_mock_catalog(app.sports@),
            app.selection_in_range(),
    {
        let mut calcio: Vec<MatchMock> = Vec::new();
        calcio.push(
            event(
                "Vincente Serie A 24/25",
                three_odds("Inter", 185, "Juventus", 350, "Napoli", 400),
                "L'Inter ha mantenuto l'ossatura della squadra campione, rendendola la favorita statistica.",
            ),
        );
        calcio.push(
            event(
                "Vincente Champions League",
                three_odds("Real Madrid", 300, "Man City", 325, "Bayern", 650),
                "Con l'aggiunta di Mbappé, il Real Madrid domina i modelli predittivi.",
            ),
        );
        let mut basket: Vec<MatchMock> = Vec::new();
        basket.push(
            event(
                "NBA Championship Winner",
                three_odds("Boston Celtics", 400, "Denver Nuggets", 550, "OKC Thunder", 800),
                "I Celtics vantano il miglior net rating proiettato per la stagione.",
            ),
        );
        let mut tennis: Vec<MatchMock> = Vec::new();
        tennis.push(
            event(
                "Wimbledon 2025 Men",
                three_odds("C. Alcaraz", 220, "J. Sinner", 275, "N. Djokovic", 450),
                "L'algoritmo rileva un vantaggio marginale di Alcaraz sull'erba rispetto a Sinner.",
            ),
        );
        let mut sports: Vec<SportMock> = Vec::new();
        sports.push(SportMock { name: "Calcio".to_owned(), matches: calcio });
        sports.push(SportMock { name: "Basket (NBA)".to_owned(), matches: basket });
        sports.push(SportMock { name: "Tennis".to_owned(), matches: tennis });
        App {
            running: true,
            active_column: ActiveColumn::Sports,
            sports,
            selected_sport: 0,
            selected_match: 0,
        }
    }

    /// Called when a turn of the loop passes without input; it changes nothing.
    pub fn tick(&self) {
    }

    pub fn quit(&mut self)
        ensures
            *final(self) == old(self).after_quit(),
    {
        self.running = false;
    }

    /// Selects the next sport, if there is one, and the first of its events.
    pub fn next_sport(&mut self)
        ensures
            *final(self) == old(self).after_next_sport(),
    {
        if self.sports.len() > 0 && self.selected_sport < self.sports.len() - 1 {
            self.selected_sport = self.selected_sport + 1;
            self.selected_match = 0;
        }
    }

    /// Selects the previous sport, if there is one, and the first of its events.
    pub fn prev_sport(&mut self)
        ensures
            *final(self) == old(self).after_prev_sport(),
    {
        if self.selected_sport > 0 {
            self.selected_sport = self.selected_sport - 1;
            self.selected_match = 0;
        }
    }

    /// Selects the next event of the selected sport, if there is one.
    pub fn next_match(&mut self)
        ensures
            *final(self) == old(self).after_next_match(),
    {
        if self.selected_sport < self.sports.len() {
            let count: usize = self.sports[self.selected_sport].matches.len();
            if count > 0 && self.selected_match < count - 1 {
                self.selected_match = self.selected_match + 1;
            }
        }
    }

    /// Selects the previous event, if there is one.
    pub fn prev_match(&mut self)
        ensures
            *final(self) == old(self).after_prev_match(),
    {
        if self.selected_match > 0 {
            self.selected_match = self.selected_match - 1;
        }
    }

    /// Switches between the sports column and the events column.
    pub fn toggle_column(&mut self)
        ensures
            *final(self) == old(self).after_toggle(),
    {
        self.active_column =
        match self.active_column {
            ActiveColumn::Sports => ActiveColumn::Matches,
            ActiveColumn::Matches => ActiveColumn::Sports,
        };
    }

    /// Moves down in the active column.
    fn move_down(&mut self)
        ensures
            *final(self) == old(self).after_down(),
    {
        match self.active_column {
            ActiveColumn::Sports => self.next_sport(),
            ActiveColumn::Matches => self.next_match(),
        }
    }

    /// Moves up in the active column.
    fn move_up(&mut self)
        ensures
            *final(self) == old(self).after_up(),
    {
        match self.active_column {
            ActiveColumn::Sports => self.prev_sport(),
            ActiveColumn::Matches => self.prev_match(),
        }
    }

    /// Reacts to a pressed key.
    pub fn handle_key(&mut self, key: Key)
        ensures
            *final(self) == old(self).after_key(key),
    {
        match key {
            Key::Char(c) => {
                if c == 'q' {
                    self.quit();
                } else if c == 'j' {
                    self.move_down();
                } else if c == 'k' {
                    self.move_up();
                }
            },
            Key::Esc => self.quit(),
            Key::Tab | Key::Left | Key::Right => self.toggle_column(),
            Key::Down => self.move_down(),
            Key::Up => self.move_up(),
            Key::Other => {},
        }
    }

    /// One turn of the event loop after the screen was drawn: a pressed key is
    /// handled, a timed-out poll ticks, anything else is ignored.
    pub fn step(&mut self, input: Input)
        ensures
            *final(self) == old(self).after_input(input),
    {
        match input {
            Input::Idle => self.tick(),
            Input::Key { code, pressed } => {
                if pressed {
                    self.handle_key(code);
                }
            },
            Input::Other => {},
        }
    }
}

/// Every move of the keyboard keeps each selection on an entry that exists
/// (or on the first place), whatever turn of the loop comes next.
pub proof fn lemma_input_keeps_selection_in_range(app: App, input: Input)
    requires
        app.selection_in_range(),
    ensures
        app.after_input(input).selection_in_range(),
        app.after_quit().selection_in_range(),
        app.after_toggle().selection_in_range(),
        app.after_next_sport().selection_in_range(),
        app.after_prev_sport().selection_in_range(),
        app.after_next_match().selection_in_range(),
        app.after_prev_match().selection_in_range(),
{
}

/// No turn of the loop changes the catalogue.
pub proof fn lemma_input_keeps_catalog(app: App, input: Input)
    ensures
        app.after_input(input).sports == app.sports,
{
}

/// Switching column twice comes back to the same state.
pub proof fn lemma_toggle_twice(app: App)
    ensures
        app.after_toggle().after_toggle() == app,
{
}

/// Changing sport always selects the first event of the new sport, and the
/// event moves never change the selected sport.
pub proof fn lemma_sport_change_resets_match(app: App)
    ensures
        app.after_next_sport().selected_sport != app.selected_sport
            ==> app.after_next_sport().selected_match == 0,
        app.after_prev_sport().selected_sport != app.selected_sport
            ==> app.after_prev_sport().selected_match == 0,
        app.after_next_match().selected_sport == app.selected_sport,
        app.after_prev_match().selected_sport == app.selected_sport,
{
}

/// Moving up after a move down to the next sport returns to the sport the
/// user started from, on its first event.
pub proof fn lemma_prev_sport_undoes_next_sport(app: App)
    requires
        app.selected_sport + 1 < app.sports@.len(),
    ensures
        app.after_next_sport().after_prev_sport() == (App { selected_match: 0, ..app }),
{
    assert(app.sports.len() == app.sports@.len());
}

/// Moving down after a move up to the previous sport returns to the sport the
/// user started from, on its first event.
pub proof fn lemma_next_sport_undoes_prev_sport(app: App)
    requires
        0 < app.selected_sport < app.sports@.len(),
    ensures
        app.after_prev_sport().after_next_sport() == (App { selected_match: 0, ..app }),
{
}

/// Moving up after a move down to the next event returns to the same state.
pub proof fn lemma_prev_match_undoes_next_match(app: App)
    requires
        app.selected_sport < app.sports@.len(),
        app.selected_match + 1 < app.match_count(),
    ensures
        app.after_next_match().after_prev_match() == app,
{
    let matches = app.sports@[app.selected_sport as int].matches;
    assert(matches.len() == matches@.len());
}

/// Moving down after a move up to the previous event returns to the same state.
pub proof fn lemma_next_match_undoes_prev_match(app: App)
    requires
        app.selection_in_range(),
        app.selected_match > 0,
    ensures
        app.after_prev_match().after_next_match() == app,
{
}

/// A move past either end of a list leaves the state as it was.
pub proof fn lemma_moves_stop_at_the_ends(app: App)
    ensures
        app.selected_sport + 1 >= app.sports@.len() ==> app.after_next_sport() == app,
        app.selected_sport == 0 ==> app.after_prev_sport() == app,
        app.selected_match + 1 >= app.match_count() ==> app.after_next_match() == app,
        app.selected_match == 0 ==> app.after_prev_match() == app,
{
}

/// `q` and `Esc` stop the loop and change nothing else; releases, idle
/// turns and other events change nothing at all.
pub proof fn lemma_quit_and_ignored_inputs(app: App, code: Key)
    ensures
        app.after_key(Key::Char('q')) == (App { running: false, ..app }),
        app.after_key(Key::Esc) == (App { running: false, ..app }),
        app.after_input(Input::Key { code, pressed: false }) == app,
        app.after_input(Input::Idle) == app,
        app.after_input(Input::Other) == app,
        app.after_key(Key::Other) == app,
{
}


/// `k` and Up do the same, and so do `j` and Down. In the sports column they
/// move to the previous or next sport, and the event selection goes back to
/// the first event; in the events column they move to the previous or next
/// event of the selected sport and never change the sport. No move passes an
/// end of its list, and nothing else changes.
pub proof fn lemma_up_down_keys_follow_the_active_column(app: App)
    ensures
        app.after_key(Key::Char('k')) == app.after_key(Key::Up),
        app.after_key(Key::Char('j')) == app.after_key(Key::Down),
        ({
            let up = app.after_input(Input::Key { code: Key::Char('k'), pressed: true });
            let down = app.after_input(Input::Key { code: Key::Char('j'), pressed: true });
            let s = app.selected_sport;
            let m = app.selected_match;
            &&& up.running == app.running && down.running == app.running
            &&& up.active_column == app.active_column && down.active_column == app.active_column
            &&& up.sports == app.sports && down.sports == app.sports
            &&& app.active_column == ActiveColumn::Sports ==> {
                &&& up.selected_sport == (if s > 0 { s - 1 } else { s as int })
                &&& up.selected_match == (if s > 0 { 0 } else { m as int })
                &&& down.selected_sport == (if s + 1 < app.sports@.len() { s + 1 } else { s as int })
                &&& down.selected_match == (if s + 1 < app.sports@.len() { 0 } else { m as int })
            }
            &&& app.active_column == ActiveColumn::Matches ==> {
                &&& up.selected_sport == s && down.selected_sport == s
                &&& up.selected_match == (if m > 0 { m - 1 } else { m as int })
                &&& down.selected_match == (if s < app.sports@.len() && m + 1
                    < app.sports@[s as int].matches@.len() {
                    m + 1
                } else {
                    m as int
                })
            }
        }),
{
    assert(app.sports.len() == app.sports@.len());
    if app.selected_sport < app.sports@.len() {
        let matches = app.sports@[app.selected_sport as int].matches;
        assert(matches.len() == matches@.len());
    }
}

/// Tab, Left and Right each switch to the other column and change nothing
/// else; `q` and Esc stop the loop and change nothing else.
pub proof fn lemma_column_and_quit_keys(app: App)
    ensures
        app.after_input(Input::Key { code: Key::Tab, pressed: true }) == (App {
            active_column: if app.active_column == ActiveColumn::Sports {
                ActiveColumn::Matches
            } else {
                ActiveColumn::Sports
            },
            ..app
        }),
        app.after_input(Input::Key { code: Key::Left, pressed: true }) == (App {
            active_column: if app.active_column == ActiveColumn::Sports {
                ActiveColumn::Matches
            } else {
                ActiveColumn::Sports
            },
            ..app
        }),
        app.after_input(Input::Key { code: Key::Right, pressed: true }) == (App {
            active_column: if app.active_column == ActiveColumn::Sports {
                ActiveColumn::Matches
            } else {
                ActiveColumn::Sports
            },
            ..app
        }),
        app.after_input(Input::Key { code: Key::Tab, pressed: true }).active_column
            != app.active_column,
        app.after_input(Input::Key { code: Key::Char('q'), pressed: true }) == (App {
            running: false,
            ..app
        }),
        app.after_input(Input::Key { code: Key::Esc, pressed: true }) == (App {
            running: false,
            ..app
        }),
{
}

} // verus!
