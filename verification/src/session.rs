//! Where the application stands: which screen is open, and whether it is
//! asked to pause or to end.

use vstd::prelude::*;
use crate::action::Action;

verus! {

/// The screens that a key binding can belong to.
#[derive(Debug, Copy, Clone, PartialEq, Eq, Hash, Structural)]
pub enum Mode {
    Home,
    Game,
    All,
}

/// The number under which a game is kept.
#[derive(Copy, Clone, Debug, PartialEq, Eq, PartialOrd, Ord, Structural)]
pub struct GameId(pub usize);

/// Hands out the numbers of the games, counting up from 0.
#[derive(Debug)]
pub struct GameIds {
    next: usize,
}

impl GameIds {
    /// The number that is handed out next.
    pub closed spec fn upcoming(&self) -> usize {
        self.next
    }

    /// A counter that starts at 0.
    pub fn new() -> (ids: GameIds)
        ensures
            ids.upcoming() == 0,
    {
        GameIds { next: 0 }
    }
}

impl Default for GameIds {
    fn default() -> (ids: GameIds)
        ensures
            ids.upcoming() == 0,
    {
        GameIds::new()
    }
}

impl GameId {
    /// The next number of `ids`. After the largest number the count starts
    /// again at 0.
    pub fn new(ids: &mut GameIds) -> (id: GameId)
        ensures
            id.0 == old(ids).upcoming(),
            final(ids).upcoming() == (if old(ids).upcoming() == usize::MAX {
                0
            } else {
                old(ids).upcoming() + 1
            }),
    {
        let id = GameId(ids.next);
        ids.next = if ids.next == usize::MAX {
            0
        } else {
            ids.next + 1
        };
        id
    }
}

/// The screen that is shown.
#[derive(Clone, Copy, Debug, PartialEq, Eq, Structural)]
pub enum Screen {
    Home,
    Game(GameId),
}

impl Default for Screen {
    fn default() -> (screen: Screen)
        ensures
            screen == Screen::Home,
    {
        Screen::Home
    }
}

impl Screen {
    /// The mode whose key bindings apply on this screen.
    pub open spec fn mode(self) -> Mode {
        match self {
            Screen::Home => Mode::Home,
            Screen::Game(_) => Mode::Game,
        }
    }
}

/// The mode whose key bindings apply on `screen`.
pub fn get_screen_mode(screen: Screen) -> (mode: Mode)
    ensures
        mode == screen.mode(),
{
    match screen {
        Screen::Home => Mode::Home,
        Screen::Game(_) => Mode::Game,
    }
}

/// What the terminal has to do for an action, beside what the session notes.
#[derive(Clone, Copy, Debug, PartialEq, Eq, Structural)]
pub enum Effect {
    Nothing,
    /// Forget the keys typed since the last tick.
    ForgetKeys,
    ClearScreen,
    Resize(u16, u16),
    Render,
}

/// What the event loop does after a round of actions.
#[derive(Clone, Copy, Debug, PartialEq, Eq, Structural)]
pub enum Step {
    Continue,
    /// Leave the terminal, come back, and draw afresh.
    Suspend,
    /// Stop the terminal and end the loop.
    Quit,
}

/// The screen that is open and the two requests that end or pause the loop.
#[derive(Clone, Copy, Debug, PartialEq, Eq, Structural)]
pub struct Session {
    pub should_quit: bool,
    pub should_suspend: bool,
    pub screen: Screen,
}

impl Default for Session {
    fn default() -> (session: Session)
        ensures
            session == Session::opening(),
    {
        Session::new()
    }
}

impl Session {
    /// The home screen, with nothing asked for.
    pub open spec fn opening() -> Session {
        Session { should_quit: false, should_suspend: false, screen: Screen::Home }
    }

    /// The session after `action`: quitting, suspending and resuming are
    /// noted, a game is opened, and `Back` leads from a game to the home
    /// screen. Any other action leaves the session as it is.
    pub open spec fn after(self, action: Action) -> Session {
        match action {
            Action::Quit => Session { should_quit: true, ..self },
            Action::Suspend => Session { should_suspend: true, ..self },
            Action::Resume => Session { should_suspend: false, ..self },
            Action::OpenGame(id) => Session { screen: Screen::Game(id), ..self },
            Action::Back => match self.screen {
                Screen::Game(_) => Session { screen: Screen::Home, ..self },
                Screen::Home => self,
            },
            _ => self,
        }
    }

    /// What the terminal has to do for `action`.
    pub open spec fn effect_of(action: Action) -> Effect {
        match action {
            Action::Tick => Effect::ForgetKeys,
            Action::ClearScreen => Effect::ClearScreen,
            Action::Resize(w, h) => Effect::Resize(w, h),
            Action::Render => Effect::Render,
            _ => Effect::Nothing,
        }
    }

    /// What the loop does next: a request to suspend is served before one to
    /// quit.
    pub open spec fn next_step(self) -> Step {
        if self.should_suspend {
            Step::Suspend
        } else if self.should_quit {
            Step::Quit
        } else {
            Step::Continue
        }
    }

    /// The session that the application starts with.
    pub fn new() -> (session: Session)
        ensures
            session == Session::opening(),
    {
        Session { should_quit: false, should_suspend: false, screen: Screen::Home }
    }

    /// Notes what `action` changes and says what is left for the terminal.
    pub fn handle_action(&mut self, action: &Action) -> (effect: Effect)
        ensures
            *final(self) == old(self).after(*action),
            effect == Self::effect_of(*action),
    {
        match action {
            Action::Tick => Effect::ForgetKeys,
            Action::Quit => {
                self.should_quit = true;
                Effect::Nothing
            },
            Action::Suspend => {
                self.should_suspend = true;
                Effect::Nothing
            },
            Action::Resume => {
                self.should_suspend = false;
                Effect::Nothing
            },
            Action::ClearScreen => Effect::ClearScreen,
            Action::Resize(w, h) => Effect::Resize(*w, *h),
            Action::Render => Effect::Render,
            Action::OpenGame(game_id) => {
                self.open_game(*game_id);
                Effect::Nothing
            },
            Action::Back => {
                match self.screen {
                    Screen::Game(_) => self.back(),
                    Screen::Home => {},
                }
                Effect::Nothing
            },
            _ => Effect::Nothing,
        }
    }

    /// Shows the game `game_id`.
    pub fn open_game(&mut self, game_id: GameId)
        ensures
            *final(self) == (Session { screen: Screen::Game(game_id), ..*old(self) }),
    {
        self.screen = Screen::Game(game_id);
    }

    /// Shows the home screen.
    pub fn back(&mut self)
        ensures
            *final(self) == (Session { screen: Screen::Home, ..*old(self) }),
    {
        self.screen = Screen::Home;
    }

    /// What the loop does after the actions of a round are handled.
    pub fn step(&self) -> (step: Step)
        ensures
            step == self.next_step(),
    {
        if self.should_suspend {
            Step::Suspend
        } else if self.should_quit {
            Step::Quit
        } else {
            Step::Continue
        }
    }
}

/// A text in lower case, as `str::to_lowercase` gives it.
pub uninterp spec fn lowercase(s: Seq<char>) -> Seq<char>;

/// `str::to_lowercase` of std: the text with each character replaced by its
/// lower-case form. The contract only names the result.
#[verifier::external_body]
fn to_lowercase(s: &str) -> (lower: String)
    ensures
        lower@ == lowercase(s@),
{
    s.to_lowercase()
}

/// Whether two names are the same but for the case of their letters.
pub open spec fn same_name(a: Seq<char>, b: Seq<char>) -> bool {
    lowercase(a) == lowercase(b)
}

/// Whether `i` is the place of the first game in `games` that goes by `name`.
pub open spec fn is_first_named(games: Seq<(GameId, String)>, name: Seq<char>, i: int) -> bool {
    &&& 0 <= i < games.len()
    &&& same_name(games[i].1@, name)
    &&& forall|j: int| 0 <= j < i ==> !same_name((#[trigger] games[j]).1@, name)
}

/// Whether the games are listed by their numbers, the smallest first.
pub open spec fn ascending(games: Seq<(GameId, String)>) -> bool {
    forall|i: int, j: int|
        0 <= i < j < games.len() ==> (#[trigger] games[i]).0.0 < (#[trigger] games[j]).0.0
}

/// The number of the first game in `games` whose name is `name`, the case of
/// the letters set aside; nothing where no game goes by that name. Where the
/// games are listed by their numbers, it is the smallest number of a game of
/// that name.
pub fn find_game(games: &Vec<(GameId, String)>, name: &str) -> (found: Option<GameId>)
    ensures
        match found {
            Some(id) => exists|i: int| is_first_named(games@, name@, i) && games[i].0 == id,
            None => forall|i: int|
                0 <= i < games.len() ==> !same_name((#[trigger] games[i]).1@, name@),
        },
        ascending(games@) ==> (found matches Some(id) ==> forall|j: int|
            0 <= j < games.len() && same_name((#[trigger] games[j]).1@, name@) ==> id.0
                <= games[j].0.0),
{
    let wanted = to_lowercase(name);
    let mut i: usize = 0;
    while i < games.len()
        invariant
            i <= games.len(),
            wanted@ == lowercase(name@),
            forall|j: int| 0 <= j < i ==> !same_name((#[trigger] games[j]).1@, name@),
        decreases games.len() - i,
    {
        let candidate = to_lowercase(games[i].1.as_str());
        if candidate == wanted {
            assert(is_first_named(games@, name@, i as int));
            return Some(games[i].0);
        }
        i += 1;
    }
    None
}

} // verus!
