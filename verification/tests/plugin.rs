use djinn::games::WinState;
use djinn::plugins::python::{entry_point, LoadError, PythonPluginManager};
use pyo3::Python;

const COUNTER: &str = "
class Counter:
    def __init__(self):
        self.moves = []

    def name(self):
        return 'Counter'

    def thumbnail(self):
        return '#'

    def display(self):
        return str(len(self.moves))

    def display_size(self):
        return (3, 1)

    def move_history(self):
        return list(self.moves)

    def win_state(self):
        if len(self.moves) >= 3:
            return len(self.moves) % 2 == 1
        return None

    def is_valid_move(self, move):
        return move in ('1', '2')

    def play_move(self, move):
        self.moves.append(move)

    def computer_move(self):
        return '1'

    def reset(self):
        self.moves = []
";

#[test]
fn the_class_is_named_after_the_module() {
    assert_eq!(entry_point("hex"), "Hex");
    assert_eq!(entry_point("connect_four"), "ConnectFour");
}

#[test]
fn a_plugin_is_loaded_and_played() {
    let loaded = Python::with_gil(|py| PythonPluginManager::new(py).load_plugin("plugins/counter.py", COUNTER));
    let mut game = loaded.expect("the plugin loads");
    assert_eq!(game.name().unwrap(), "Counter");
    assert_eq!(game.thumbnail().unwrap(), "#");
    assert_eq!(game.display_size().unwrap(), (3, 1));
    assert!(game.win_state().unwrap().is_none());
    assert!(game.is_valid_move("2").unwrap());
    assert!(!game.is_valid_move("3").unwrap());
    game.play_move("1").unwrap();
    game.play_move("2").unwrap();
    assert_eq!(game.move_history().unwrap(), vec!["1".to_string(), "2".to_string()]);
    assert_eq!(game.display().unwrap(), "2");
    assert_eq!(game.computer_move().unwrap(), "1");
    game.play_move("1").unwrap();
    assert!(matches!(game.win_state().unwrap(), Some(WinState::Decisive)));
    game.reset().unwrap();
    assert!(game.move_history().unwrap().is_empty());
}

#[test]
fn a_module_without_the_class_is_refused() {
    let loaded = Python::with_gil(|py| PythonPluginManager::new(py).load_plugin("other.py", COUNTER));
    match loaded {
        Err(LoadError::MissingEntryPoint { class, .. }) => assert_eq!(class, "Other"),
        _ => panic!("a missing class was expected"),
    }
}

// A position of the interpreter behind the search, and the same game in Rust.

use djinn::minimax::{best_move, minimax, Player, State, Value};
use djinn::plugins::python::{decode_win_state, AdapterError, ForeignState};

const PILE: &str = "
class Pile:
    def __init__(self, stones=6, maximising=True):
        self.stones = stones
        self.maximising = maximising

    def at(self, stones, maximising):
        return Pile(stones, maximising)

    def is_terminal(self):
        return self.stones == 0

    def heuristic_value(self):
        if self.stones == 0:
            return float('-inf') if self.maximising else float('inf')
        share = self.stones % 3 - 0.5
        return share if self.maximising else -share

    def is_maximising_player(self):
        return self.maximising

    def actions(self):
        return [str(take) for take in (1, 2, 3) if take <= self.stones]

    def result(self, action):
        return Pile(self.stones - int(action), not self.maximising)
";

/// A score of the interpreter as a score of the search: the order and the
/// negation of the numbers are kept.
fn value_of(x: f64) -> Value {
    assert!(!x.is_nan());
    if x == f64::INFINITY {
        return Value::infinity();
    }
    if x == f64::NEG_INFINITY {
        return Value::neg_infinity();
    }
    let size = (x.to_bits() & (u64::MAX >> 1)) as i64;
    Value::finite(if x.is_sign_negative() { -size } else { size }).expect("a finite score")
}

struct Foreign(ForeignState);

impl State<String> for Foreign {
    type Position = ();

    fn is_terminal(&self) -> bool {
        self.0.is_terminal().expect("Failed to call Python method 'is_terminal'")
    }

    fn evaluation(&self) -> Value {
        let raw: f64 = Python::with_gil(|py| {
            self.0
                .handle()
                .call_method0(py, "heuristic_value")
                .expect("Failed to call Python method 'heuristic_value'")
                .extract(py)
                .expect("Failed to extract f64 from Python")
        });
        value_of(raw)
    }

    fn current_player(&self) -> Player {
        self.0.current_player().expect("Failed to call Python method 'is_maximising_player'")
    }

    fn actions(&self) -> Vec<String> {
        self.0.actions().expect("Failed to call Python method 'actions'")
    }

    fn result(&self, action: &String) -> Self {
        Foreign(self.0.result(action).expect("Failed to call Python method 'result'"))
    }
}

#[derive(Clone, Debug, PartialEq)]
struct Native {
    stones: u32,
    maximising: bool,
}

impl State<String> for Native {
    type Position = ();

    fn is_terminal(&self) -> bool {
        self.stones == 0
    }

    fn evaluation(&self) -> Value {
        if self.stones == 0 {
            return value_of(if self.maximising { f64::NEG_INFINITY } else { f64::INFINITY });
        }
        let share = (self.stones % 3) as f64 - 0.5;
        value_of(if self.maximising { share } else { -share })
    }

    fn current_player(&self) -> Player {
        Player::from_maximising(self.maximising)
    }

    fn actions(&self) -> Vec<String> {
        (1..=3).filter(|take| *take <= self.stones).map(|take| take.to_string()).collect()
    }

    fn result(&self, action: &String) -> Self {
        let take: u32 = action.parse().expect("a number of stones");
        Native { stones: self.stones - take, maximising: !self.maximising }
    }
}

fn foreign_pile(stones: u32, maximising: bool) -> Foreign {
    let loaded =
        Python::with_gil(|py| PythonPluginManager::new(py).load_plugin("games/pile.py", PILE));
    let root = loaded.expect("the module loads");
    let object = Python::with_gil(|py| {
        root.handle().call_method1(py, "at", (stones, maximising)).expect("a position")
    });
    Foreign(ForeignState::new(object))
}

#[test]
fn a_position_of_the_interpreter_answers_like_the_same_game_in_rust() {
    for stones in 0..=7 {
        for maximising in [true, false] {
            let foreign = foreign_pile(stones, maximising);
            let native = Native { stones, maximising };
            assert_eq!(foreign.is_terminal(), native.is_terminal());
            assert_eq!(foreign.evaluation(), native.evaluation());
            assert_eq!(foreign.current_player(), native.current_player());
            assert_eq!(foreign.actions(), native.actions());
            for depth in 0..5 {
                assert_eq!(minimax(&foreign, depth), minimax(&native, depth));
            }
        }
    }
}

#[test]
fn the_interpreter_and_rust_choose_the_same_move() {
    for stones in 1..=7 {
        for maximising in [true, false] {
            let foreign = foreign_pile(stones, maximising);
            let native = Native { stones, maximising };
            for depth in 0..6 {
                assert_eq!(best_move(&foreign, depth), best_move(&native, depth));
            }
        }
    }
}

#[test]
fn a_call_that_fails_names_its_method() {
    let loaded =
        Python::with_gil(|py| PythonPluginManager::new(py).load_plugin("games/pile.py", PILE));
    let game = loaded.expect("the module loads");
    // A position is no game for the screen: it has no name.
    let failure: AdapterError = game.name().expect_err("the method is missing");
    assert_eq!(failure.method, "name");
    assert!(failure.to_string().starts_with("adapter call failed: name, "));
    assert!(failure.to_string().ends_with(&failure.reason));
    let failure = game.win_state().expect_err("the method is missing");
    assert_eq!(failure.method, "win_state");

    let state = ForeignState::new(Python::with_gil(|py| game.handle().clone_ref(py)));
    let failure = state.result("seven").err().expect("the action is no number");
    assert_eq!(failure.method, "result");
}

#[test]
fn a_source_that_does_not_load_is_refused() {
    let broken = Python::with_gil(|py| {
        PythonPluginManager::new(py).load_plugin("broken.py", "class Broken(:\n")
    });
    assert!(matches!(broken, Err(LoadError::Module(_))));
    let demanding = Python::with_gil(|py| {
        PythonPluginManager::new(py)
            .load_plugin("demanding.py", "class Demanding:\n    def __init__(self, size):\n        pass\n")
    });
    match demanding {
        Err(LoadError::Construction { class, .. }) => assert_eq!(class, "Demanding"),
        _ => panic!("a class that cannot be constructed was expected"),
    }
    let nameless = Python::with_gil(|py| PythonPluginManager::new(py).load_plugin("..", ""));
    assert!(matches!(nameless, Err(LoadError::InvalidPath)));
}

#[test]
fn the_end_of_a_game_is_decoded() {
    assert!(matches!(decode_win_state(Some(true)), Some(WinState::Decisive)));
    assert!(matches!(decode_win_state(Some(false)), Some(WinState::Draw)));
    assert!(decode_win_state(None).is_none());
}

#[test]
fn a_module_is_loaded_under_a_given_name() {
    let loaded = Python::with_gil(|py| {
        PythonPluginManager::new(py).load_module("counter", "counter.py", COUNTER)
    });
    assert_eq!(loaded.expect("the module loads").name().unwrap(), "Counter");
    let missing = Python::with_gil(|py| {
        PythonPluginManager::new(py).load_module("tic_tac_toe", "tic_tac_toe.py", COUNTER)
    });
    match missing {
        Err(LoadError::MissingEntryPoint { class, .. }) => assert_eq!(class, "TicTacToe"),
        _ => panic!("a missing class was expected"),
    }
}

#[test]
fn a_path_without_a_stem_or_a_file_name_is_refused() {
    let named = |stem: Option<&str>, file: Option<&str>| {
        Python::with_gil(|py| {
            PythonPluginManager::new(py).load_named(
                stem.map(String::from),
                file.map(String::from),
                COUNTER,
            )
        })
    };
    assert!(matches!(named(None, Some("counter.py")), Err(LoadError::InvalidPath)));
    assert!(matches!(named(Some("counter"), None), Err(LoadError::InvalidPath)));
    assert!(matches!(named(None, None), Err(LoadError::InvalidPath)));
    assert_eq!(named(Some("counter"), Some("counter.py")).unwrap().name().unwrap(), "Counter");
    match named(Some("snake_game"), Some("snake_game.py")) {
        Err(LoadError::MissingEntryPoint { class, .. }) => assert_eq!(class, "SnakeGame"),
        _ => panic!("a missing class was expected"),
    }
}
