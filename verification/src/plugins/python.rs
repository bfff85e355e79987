//! Games and positions that live in the Python interpreter.
//!
//! Every operation is one call into the interpreter, made while holding its
//! lock. What comes back is converted to a value of this library, and a call
//! that fails, or returns a value of the wrong shape, is an error that names
//! the method.

use vstd::prelude::*;
use std::fmt::Write;
use convert_case::{Case, Casing};
use pyo3::prelude::{PyAnyMethods, PyModule};
use pyo3::{Py, PyAny, PyErr, PyObject, Python};
use crate::games::WinState;
use crate::minimax::player::Player;

verus! {

/// The token of pyo3 that shows that the interpreter's lock is held.
#[verifier::external_type_specification]
#[verifier::external_body]
pub struct ExPython<'py>(Python<'py>);

/// A handle of pyo3 to an object of the interpreter.
#[verifier::external_type_specification]
#[verifier::external_body]
#[verifier::reject_recursive_types(T)]
pub struct ExPy<T>(Py<T>);

/// The type of pyo3 for any object of the interpreter.
#[verifier::external_type_specification]
#[verifier::external_body]
pub struct ExPyAny(PyAny);

/// The type of pyo3 for a module of the interpreter.
#[verifier::external_type_specification]
#[verifier::external_body]
pub struct ExPyModule(PyModule);

/// The error of pyo3: an exception raised in the interpreter.
#[verifier::external_type_specification]
#[verifier::external_body]
pub struct ExPyErr(PyErr);

/// A call into the interpreter that did not give what was asked for.
#[derive(Debug)]
pub struct AdapterError {
    /// The method that was called.
    pub method: String,
    /// What the interpreter said.
    pub reason: String,
}

/// The words that open the message of an `AdapterError`.
pub open spec fn failure_prefix() -> Seq<char> {
    "adapter call failed: "@
}

impl AdapterError {
    /// The message: the prefix, the method, a comma, and the reason.
    pub open spec fn text(self) -> Seq<char> {
        failure_prefix() + self.method@ + ", "@ + self.reason@
    }

    /// The error as one line of text.
    pub fn to_string(&self) -> (text: String)
        ensures
            text@ == self.text(),
    {
        let mut text = String::from_str("adapter call failed: ");
        text.append(self.method.as_str());
        text.append(", ");
        text.append(self.reason.as_str());
        text
    }
}

/// `PyErr`'s `Display` of pyo3, written into a text: the exception as the
/// interpreter words it, as far as it can be worded. Nothing is claimed of
/// the text.
#[verifier::external_body]
fn describe(error: &PyErr) -> String {
    let mut text = String::new();
    let _ = write!(text, "{}", error);
    text
}

/// What a call of the method `method` has given, as this library says it: the
/// value where the call gave one, else the error that names the method, with
/// the interpreter's words as the reason.
pub fn translate<T>(method: &str, raw: Result<T, PyErr>) -> (outcome: Result<T, AdapterError>)
    ensures
        match raw {
            Ok(value) => outcome == Ok::<T, AdapterError>(value),
            Err(_) => outcome matches Err(failure) && failure.method@ == method@,
        },
{
    match raw {
        Ok(value) => Ok(value),
        Err(error) => Err(
            AdapterError { method: String::from_str(method), reason: describe(&error) },
        ),
    }
}

/// `Py::call_method0` and `Py::extract` of pyo3 under `Python::with_gil`:
/// calls the method `name` of `object` without arguments and reads the result
/// as text. Nothing is claimed of what comes back.
#[verifier::external_body]
fn call_for_string(object: &PyObject, name: &str) -> Result<String, PyErr> {
    Python::with_gil(|py| object.call_method0(py, name)?.extract::<String>(py))
}

/// `Py::call_method0` and `Py::extract` of pyo3 under `Python::with_gil`:
/// calls the method `name` of `object` without arguments and reads the result
/// as a truth value. Nothing is claimed of what comes back.
#[verifier::external_body]
fn call_for_bool(object: &PyObject, name: &str) -> Result<bool, PyErr> {
    Python::with_gil(|py| object.call_method0(py, name)?.extract::<bool>(py))
}

/// `Py::call_method0` and `Py::extract` of pyo3 under `Python::with_gil`:
/// calls the method `name` of `object` without arguments and reads the result
/// as a pair of numbers. Nothing is claimed of what comes back.
#[verifier::external_body]
fn call_for_size(object: &PyObject, name: &str) -> Result<(u16, u16), PyErr> {
    Python::with_gil(|py| object.call_method0(py, name)?.extract::<(u16, u16)>(py))
}

/// `Py::call_method0` and `Py::extract` of pyo3 under `Python::with_gil`:
/// calls the method `name` of `object` without arguments and reads the result
/// as a list of texts. Nothing is claimed of what comes back.
#[verifier::external_body]
fn call_for_strings(object: &PyObject, name: &str) -> Result<Vec<String>, PyErr> {
    Python::with_gil(|py| object.call_method0(py, name)?.extract::<Vec<String>>(py))
}

/// `Py::call_method0` and `Py::extract` of pyo3 under `Python::with_gil`:
/// calls the method `name` of `object` without arguments and reads the result
/// as a truth value or `None`. Nothing is claimed of what comes back.
#[verifier::external_body]
fn call_for_optional_bool(object: &PyObject, name: &str) -> Result<Option<bool>, PyErr> {
    Python::with_gil(|py| object.call_method0(py, name)?.extract::<Option<bool>>(py))
}

/// `Py::call_method0` of pyo3 under `Python::with_gil`: calls the method
/// `name` of `object` without arguments and drops the result.
#[verifier::external_body]
fn call_for_nothing(object: &PyObject, name: &str) -> Result<(), PyErr> {
    Python::with_gil(|py| object.call_method0(py, name).map(|_| ()))
}

/// `Py::call_method1` and `Py::extract` of pyo3 under `Python::with_gil`:
/// calls the method `name` of `object` with the one argument `argument` and
/// reads the result as a truth value. Nothing is claimed of what comes back.
#[verifier::external_body]
fn call_with_for_bool(object: &PyObject, name: &str, argument: &str) -> Result<bool, PyErr> {
    Python::with_gil(|py| object.call_method1(py, name, (argument,))?.extract::<bool>(py))
}

/// `Py::call_method1` of pyo3 under `Python::with_gil`: calls the method
/// `name` of `object` with the one argument `argument` and drops the result.
#[verifier::external_body]
fn call_with_for_nothing(object: &PyObject, name: &str, argument: &str) -> Result<(), PyErr> {
    Python::with_gil(|py| object.call_method1(py, name, (argument,)).map(|_| ()))
}

/// `Py::call_method1` of pyo3 under `Python::with_gil`: calls the method
/// `name` of `object` with the one argument `argument` and hands back the
/// object that it returns. Nothing is claimed of what comes back.
#[verifier::external_body]
fn call_with_for_object(object: &PyObject, name: &str, argument: &str) -> Result<PyObject, PyErr> {
    Python::with_gil(|py| object.call_method1(py, name, (argument,)))
}

/// Calls the method `method` of `object` without arguments for text.
/// The method that is called is the one that a failure names.
fn ask_for_string(object: &PyObject, method: &str) -> (outcome: Result<String, AdapterError>)
    ensures
        outcome matches Err(failure) ==> failure.method@ == method@,
{
    translate(method, call_for_string(object, method))
}

/// Calls the method `method` of `object` without arguments for a truth value.
/// The method that is called is the one that a failure names.
fn ask_for_bool(object: &PyObject, method: &str) -> (outcome: Result<bool, AdapterError>)
    ensures
        outcome matches Err(failure) ==> failure.method@ == method@,
{
    translate(method, call_for_bool(object, method))
}

/// Calls the method `method` of `object` without arguments for a pair of numbers.
/// The method that is called is the one that a failure names.
fn ask_for_size(object: &PyObject, method: &str) -> (outcome: Result<(u16, u16), AdapterError>)
    ensures
        outcome matches Err(failure) ==> failure.method@ == method@,
{
    translate(method, call_for_size(object, method))
}

/// Calls the method `method` of `object` without arguments for a list of texts.
/// The method that is called is the one that a failure names.
fn ask_for_strings(object: &PyObject, method: &str) -> (outcome: Result<
    Vec<String>,
    AdapterError,
>)
    ensures
        outcome matches Err(failure) ==> failure.method@ == method@,
{
    translate(method, call_for_strings(object, method))
}

/// Calls the method `method` of `object` without arguments for a truth value or nothing.
/// The method that is called is the one that a failure names.
fn ask_for_optional_bool(object: &PyObject, method: &str) -> (outcome: Result<
    Option<bool>,
    AdapterError,
>)
    ensures
        outcome matches Err(failure) ==> failure.method@ == method@,
{
    translate(method, call_for_optional_bool(object, method))
}

/// Calls the method `method` of `object` without arguments for nothing.
/// The method that is called is the one that a failure names.
fn ask_for_nothing(object: &PyObject, method: &str) -> (outcome: Result<(), AdapterError>)
    ensures
        outcome matches Err(failure) ==> failure.method@ == method@,
{
    translate(method, call_for_nothing(object, method))
}

/// Calls the method `method` of `object` with the one argument `argument`
/// for a truth value. The method that is called is the one that a failure
/// names.
fn ask_with_for_bool(object: &PyObject, method: &str, argument: &str) -> (outcome: Result<
    bool,
    AdapterError,
>)
    ensures
        outcome matches Err(failure) ==> failure.method@ == method@,
{
    translate(method, call_with_for_bool(object, method, argument))
}

/// Calls the method `method` of `object` with the one argument `argument`
/// for nothing. The method that is called is the one that a failure
/// names.
fn ask_with_for_nothing(object: &PyObject, method: &str, argument: &str) -> (outcome: Result<
    (),
    AdapterError,
>)
    ensures
        outcome matches Err(failure) ==> failure.method@ == method@,
{
    translate(method, call_with_for_nothing(object, method, argument))
}

/// Calls the method `method` of `object` with the one argument `argument`
/// for an object. The method that is called is the one that a failure
/// names.
fn ask_with_for_object(object: &PyObject, method: &str, argument: &str) -> (outcome: Result<
    PyObject,
    AdapterError,
>)
    ensures
        outcome matches Err(failure) ==> failure.method@ == method@,
{
    translate(method, call_with_for_object(object, method, argument))
}

/// How a game of the interpreter reports its end, as this library says it:
/// true for decisive, false for a draw, nothing while the game goes on.
pub fn decode_win_state(raw: Option<bool>) -> (state: Option<WinState>)
    ensures
        state == (match raw {
            Some(true) => Some(WinState::Decisive),
            Some(false) => Some(WinState::Draw),
            None => None,
        }),
{
    match raw {
        Some(decisive) => Some(WinState::from(decisive)),
        None => None,
    }
}

/// A game that an object of the interpreter plays.
pub struct Plugin(PyObject);

impl Plugin {
    /// The object of the interpreter that plays the game.
    pub closed spec fn object(&self) -> PyObject {
        self.0
    }

    /// The game that `object` plays.
    pub fn new(object: PyObject) -> (plugin: Plugin)
        ensures
            plugin.object() == object,
    {
        Plugin(object)
    }

    /// The object of the interpreter that plays the game.
    pub fn handle(&self) -> (object: &PyObject)
        ensures
            *object == self.object(),
    {
        &self.0
    }

    /// The name of the game: the method `name`.
    pub fn name(&self) -> (outcome: Result<String, AdapterError>)
        ensures
            outcome matches Err(e) ==> e.method@ == "name"@,
    {
        ask_for_string(&self.0, "name")
    }

    /// A small picture of the game: the method `thumbnail`.
    pub fn thumbnail(&self) -> (outcome: Result<String, AdapterError>)
        ensures
            outcome matches Err(e) ==> e.method@ == "thumbnail"@,
    {
        ask_for_string(&self.0, "thumbnail")
    }

    /// The board as text: the method `display`.
    pub fn display(&self) -> (outcome: Result<String, AdapterError>)
        ensures
            outcome matches Err(e) ==> e.method@ == "display"@,
    {
        ask_for_string(&self.0, "display")
    }

    /// The width and height of the board as text: the method `display_size`.
    pub fn display_size(&self) -> (outcome: Result<(u16, u16), AdapterError>)
        ensures
            outcome matches Err(e) ==> e.method@ == "display_size"@,
    {
        ask_for_size(&self.0, "display_size")
    }

    /// The moves played so far: the method `move_history`.
    pub fn move_history(&self) -> (outcome: Result<Vec<String>, AdapterError>)
        ensures
            outcome matches Err(e) ==> e.method@ == "move_history"@,
    {
        ask_for_strings(&self.0, "move_history")
    }

    /// How the game ended, if it has: the method `win_state`.
    pub fn win_state(&self) -> (outcome: Result<Option<WinState>, AdapterError>)
        ensures
            outcome matches Err(e) ==> e.method@ == "win_state"@,
    {
        match ask_for_optional_bool(&self.0, "win_state") {
            Ok(raw) => Ok(decode_win_state(raw)),
            Err(failure) => Err(failure),
        }
    }

    /// Whether `move_` can be played now: the method `is_valid_move`.
    pub fn is_valid_move(&self, move_: &str) -> (outcome: Result<bool, AdapterError>)
        ensures
            outcome matches Err(e) ==> e.method@ == "is_valid_move"@,
    {
        ask_with_for_bool(&self.0, "is_valid_move", move_)
    }

    /// Plays `move_`: the method `play_move`. The game goes on in the same
    /// object of the interpreter.
    pub fn play_move(&mut self, move_: &str) -> (outcome: Result<(), AdapterError>)
        ensures
            outcome matches Err(e) ==> e.method@ == "play_move"@,
            final(self).object() == old(self).object(),
    {
        ask_with_for_nothing(&self.0, "play_move", move_)
    }

    /// The move that the game answers with: the method `computer_move`.
    pub fn computer_move(&self) -> (outcome: Result<String, AdapterError>)
        ensures
            outcome matches Err(e) ==> e.method@ == "computer_move"@,
    {
        ask_for_string(&self.0, "computer_move")
    }

    /// Back to the opening position: the method `reset`. The game stays in
    /// the same object of the interpreter.
    pub fn reset(&mut self) -> (outcome: Result<(), AdapterError>)
        ensures
            outcome matches Err(e) ==> e.method@ == "reset"@,
            final(self).object() == old(self).object(),
    {
        ask_for_nothing(&self.0, "reset")
    }
}

/// A position that an object of the interpreter holds, for the search.
///
/// The evaluation is a floating-point number on the other side and is read
/// where such numbers can be handled.
pub struct ForeignState(PyObject);

impl ForeignState {
    /// The object of the interpreter that holds the position.
    pub closed spec fn object(&self) -> PyObject {
        self.0
    }

    /// The position that `object` holds.
    pub fn new(object: PyObject) -> (state: ForeignState)
        ensures
            state.object() == object,
    {
        ForeignState(object)
    }

    /// The object of the interpreter that holds the position.
    pub fn handle(&self) -> (object: &PyObject)
        ensures
            *object == self.object(),
    {
        &self.0
    }

    /// Whether the game is over: the method `is_terminal`.
    pub fn is_terminal(&self) -> (outcome: Result<bool, AdapterError>)
        ensures
            outcome matches Err(e) ==> e.method@ == "is_terminal"@,
    {
        ask_for_bool(&self.0, "is_terminal")
    }

    /// Whose turn it is: the method `is_maximising_player`.
    pub fn current_player(&self) -> (outcome: Result<Player, AdapterError>)
        ensures
            outcome matches Err(e) ==> e.method@ == "is_maximising_player"@,
    {
        match ask_for_bool(&self.0, "is_maximising_player") {
            Ok(maximising) => Ok(Player::from_maximising(maximising)),
            Err(failure) => Err(failure),
        }
    }

    /// The legal actions: the method `actions`.
    pub fn actions(&self) -> (outcome: Result<Vec<String>, AdapterError>)
        ensures
            outcome matches Err(e) ==> e.method@ == "actions"@,
    {
        ask_for_strings(&self.0, "actions")
    }

    /// The position after `action`, a new object of the interpreter: the
    /// method `result`.
    pub fn result(&self, action: &str) -> (outcome: Result<ForeignState, AdapterError>)
        ensures
            outcome matches Err(e) ==> e.method@ == "result"@,
    {
        match ask_with_for_object(&self.0, "result", action) {
            Ok(next) => Ok(ForeignState(next)),
            Err(failure) => Err(failure),
        }
    }
}

/// Why a plugin could not be loaded.
#[derive(Debug)]
pub enum LoadError {
    /// The source could not be read.
    Unreadable(String),
    /// The path names no file.
    InvalidPath,
    /// The source does not load as a module.
    Module(String),
    /// The module has no class of the expected name.
    MissingEntryPoint { class: String, reason: String },
    /// The class could not be constructed without arguments.
    Construction { class: String, reason: String },
}

/// A text in Pascal case, as `convert_case` gives it.
pub uninterp spec fn pascal_case(s: Seq<char>) -> Seq<char>;

/// `Casing::to_case` of convert_case with `Case::Pascal`: the words of the
/// text, each with a capital first letter, joined without a delimiter. The
/// contract only names the result.
#[verifier::external_body]
fn to_pascal_case(s: &str) -> (class: String)
    ensures
        class@ == pascal_case(s@),
{
    s.to_case(Case::Pascal)
}

/// The name of the class that a plugin has to define: the name of its module
/// in Pascal case, such as `Hex` for `hex`.
pub fn entry_point(module_name: &str) -> (class: String)
    ensures
        class@ == pascal_case(module_name@),
{
    to_pascal_case(module_name)
}

/// `Path::file_stem` of std, for a path that is text: the name of the file
/// without its extension, where the path names a file and that name is text.
/// Nothing is claimed of the result, which follows the platform's rules.
#[verifier::external_body]
fn file_stem(path: &str) -> Option<String> {
    std::path::Path::new(path).file_stem().and_then(|stem| stem.to_str()).map(String::from)
}

/// `Path::file_name` of std, for a path that is text: the last component of
/// the path, where it names a file and that name is text. Nothing is claimed
/// of the result, which follows the platform's rules.
#[verifier::external_body]
fn file_name(path: &str) -> Option<String> {
    std::path::Path::new(path).file_name().and_then(|name| name.to_str()).map(String::from)
}

/// `PyModule::from_code_bound` of pyo3: compiles `code` and runs it as the
/// module `module_name`, from the file `file_name`. Nothing is claimed of
/// what comes back.
#[verifier::external_body]
fn module_from_code(py: Python<'_>, code: &str, file_name: &str, module_name: &str) -> Result<
    Py<PyModule>,
    PyErr,
> {
    PyModule::from_code_bound(py, code, file_name, module_name).map(|module| module.unbind())
}

/// `getattr` of pyo3 on a module: the attribute `name` of `module`. Nothing
/// is claimed of what comes back.
#[verifier::external_body]
fn attribute(py: Python<'_>, module: &Py<PyModule>, name: &str) -> Result<PyObject, PyErr> {
    module.bind(py).getattr(name).map(|found| found.unbind())
}

/// `Py::call0` of pyo3: calls `class` without arguments. Nothing is claimed
/// of what comes back.
#[verifier::external_body]
fn construct(py: Python<'_>, class: &PyObject) -> Result<PyObject, PyErr> {
    class.call0(py)
}

/// Loads plugins while the interpreter's lock is held.
pub struct PythonPluginManager<'py>(Python<'py>);

impl<'py> PythonPluginManager<'py> {
    /// The token of the lock under which the manager works.
    pub closed spec fn lock(&self) -> Python<'py> {
        self.0
    }

    /// A manager that works under the lock that `py` stands for.
    pub fn new(py: Python<'py>) -> (manager: Self)
        ensures
            manager.lock() == py,
    {
        Self(py)
    }

    /// Runs `code` as the module `module_name` from the file `file_name`,
    /// looks up the class that `entry_point` names for the module, and
    /// constructs it without arguments. Each step that fails gives its own
    /// error.
    pub fn load_module(&self, module_name: &str, file_name: &str, code: &str) -> (outcome: Result<
        Plugin,
        LoadError,
    >)
        ensures
            match outcome {
                Ok(_) => true,
                Err(LoadError::Module(_)) => true,
                Err(LoadError::MissingEntryPoint { class, reason }) => class@ == pascal_case(
                    module_name@,
                ),
                Err(LoadError::Construction { class, reason }) => class@ == pascal_case(
                    module_name@,
                ),
                Err(_) => false,
            },
    {
        let class_name = entry_point(module_name);
        let module = match module_from_code(self.0, code, file_name, module_name) {
            Ok(module) => module,
            Err(error) => {
                return Err(LoadError::Module(describe(&error)));
            },
        };
        let class = match attribute(self.0, &module, class_name.as_str()) {
            Ok(class) => class,
            Err(error) => {
                return Err(
                    LoadError::MissingEntryPoint { class: class_name, reason: describe(&error) },
                );
            },
        };
        match construct(self.0, &class) {
            Ok(object) => Ok(Plugin(object)),
            Err(error) => Err(
                LoadError::Construction { class: class_name, reason: describe(&error) },
            ),
        }
    }

    /// Loads the plugin whose source is `code`, given what its path has for
    /// a stem and for a file name: without either the path names no file and
    /// is refused; else the module is named by the stem and loaded as
    /// `load_module` says.
    pub fn load_named(&self, stem: Option<String>, file: Option<String>, code: &str) -> (outcome:
        Result<Plugin, LoadError>)
        ensures
            (outcome matches Err(LoadError::InvalidPath)) <==> (stem is None || file is None),
            match outcome {
                Err(LoadError::MissingEntryPoint { class, reason }) => stem matches Some(s)
                    && class@ == pascal_case(s@),
                Err(LoadError::Construction { class, reason }) => stem matches Some(s) && class@
                    == pascal_case(s@),
                Err(LoadError::Unreadable(_)) => false,
                _ => true,
            },
    {
        let module_name = match stem {
            Some(stem) => stem,
            None => {
                return Err(LoadError::InvalidPath);
            },
        };
        let file = match file {
            Some(name) => name,
            None => {
                return Err(LoadError::InvalidPath);
            },
        };
        self.load_module(module_name.as_str(), file.as_str(), code)
    }

    /// Loads the plugin whose source `code` was read from `path`: the stem
    /// and the file name of the path are taken as the platform reads them,
    /// and the plugin is loaded as `load_named` says of them.
    pub fn load_plugin(&self, path: &str, code: &str) -> (outcome: Result<Plugin, LoadError>)
        ensures
            match outcome {
                Err(LoadError::MissingEntryPoint { class, reason }) => exists|module: Seq<char>|
                    class@ == #[trigger] pascal_case(module),
                Err(LoadError::Construction { class, reason }) => exists|module: Seq<char>|
                    class@ == #[trigger] pascal_case(module),
                Err(LoadError::Unreadable(_)) => false,
                _ => true,
            },
    {
        self.load_named(file_stem(path), file_name(path), code)
    }
}

} // verus!
