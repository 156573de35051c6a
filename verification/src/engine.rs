use vstd::prelude::*;
use mlua::{Chunk, Function, Lua, Table};
use crate::bindings::{bind_clear, bind_get_pixel, bind_set_palette, bind_set_pixel};
use crate::error::EngineFailure;
use crate::shared::SharedScreen;

verus! {

/// `mlua::Lua`: one instance of the scripting engine with all its script
/// state. Opaque to the verifier.
#[verifier::external_type_specification]
#[verifier::external_body]
pub struct ExLua(Lua);

/// `mlua::Table`: a handle to a table that lives inside an engine.
#[verifier::external_type_specification]
#[verifier::external_body]
pub struct ExTable<'lua>(Table<'lua>);

/// `mlua::Function`: a handle to a function that lives inside an engine.
#[verifier::external_type_specification]
#[verifier::external_body]
pub struct ExFunction<'lua>(Function<'lua>);

/// `mlua::Chunk`: source text on its way to being run.
#[verifier::external_type_specification]
#[verifier::external_body]
pub struct ExChunk<'lua, 'a>(Chunk<'lua, 'a>);

/// `mlua::Error`: the engine's own error value.
#[verifier::external_type_specification]
#[verifier::external_body]
pub struct ExError(mlua::Error);

/// `mlua::Lua::new`: a fresh engine with the safe standard libraries
/// loaded. Nothing is claimed of its state.
#[verifier::external_body]
fn new_state() -> Lua {
    Lua::new()
}

/// `mlua::Lua::globals`: a handle to the engine's table of global
/// variables.
#[verifier::external_body]
fn globals<'lua>(lua: &'lua Lua) -> Table<'lua> {
    lua.globals()
}

/// `mlua::Table::set` with a string key and an integer value. Nothing is
/// claimed of the outcome: the table may carry a metatable that runs
/// script code and fails.
#[verifier::external_body]
fn set_integer<'lua>(table: &Table<'lua>, name: &str, value: u64) -> Result<
    (),
    mlua::Error,
> {
    table.set(name, value)
}

/// `mlua::Table::set` with a string key and a function value. Nothing is
/// claimed of the outcome.
#[verifier::external_body]
fn set_function<'lua>(
    table: &Table<'lua>,
    name: &str,
    function: Function<'lua>,
) -> Result<(), mlua::Error> {
    table.set(name, function)
}

/// `mlua::Table::get` with a string key, read as an optional function:
/// `None` stands for a `nil` entry, an entry of any other kind is an
/// error. Nothing is claimed of which of these comes back.
#[verifier::external_body]
fn get_function<'lua>(table: &Table<'lua>, name: &str) -> Result<
    Option<Function<'lua>>,
    mlua::Error,
> {
    table.get(name)
}

/// `mlua::Lua::load`: wraps source text into a chunk. The text is neither
/// parsed nor run yet.
#[verifier::external_body]
fn load<'lua, 'a>(lua: &'lua Lua, source: &'a str) -> Chunk<'lua, 'a> {
    lua.load(source)
}

/// `mlua::Chunk::set_name`: names the chunk for error messages. Fails on
/// a name that the engine cannot hold.
#[verifier::external_body]
fn set_name<'lua, 'a>(chunk: Chunk<'lua, 'a>, name: &str) -> Result<
    Chunk<'lua, 'a>,
    mlua::Error,
> {
    chunk.set_name(name)
}

/// `mlua::Chunk::exec`: parses the chunk and runs its top-level code,
/// which may call back into the drawing functions bound to the engine.
/// Returns only when the script does. Nothing is claimed of the outcome.
#[verifier::external_body]
fn exec<'lua, 'a>(chunk: Chunk<'lua, 'a>) -> Result<(), mlua::Error> {
    chunk.exec()
}

/// `mlua::Function::call` without arguments, results discarded. Returns
/// only when the script does. Nothing is claimed of the outcome.
#[verifier::external_body]
fn call<'lua>(function: &Function<'lua>) -> Result<(), mlua::Error> {
    function.call(())
}

/// `mlua::Function::call` with one integer argument, results discarded.
/// Returns only when the script does. Nothing is claimed of the outcome.
#[verifier::external_body]
fn call_with<'lua>(function: &Function<'lua>, argument: u128) -> Result<
    (),
    mlua::Error,
> {
    function.call(argument)
}

/// Tells the variants of `mlua::Error` apart: a `SyntaxError` gives its
/// message, every other variant the text that its `Display` impl prints.
#[verifier::external_body]
fn failure(error: mlua::Error) -> EngineFailure {
    match error {
        mlua::Error::SyntaxError { message, .. } => EngineFailure::Syntax(message),
        other => EngineFailure::Other(other.to_string()),
    }
}

/// A value that the host publishes for scripts to read.
#[derive(Debug, Clone, Copy, PartialEq, Eq, Structural)]
pub enum Global {
    /// The width of the screen, `W` to scripts.
    Width,
    /// The height of the screen, `H` to scripts.
    Height,
    /// The frame counter, `time` to scripts.
    Time,
}

impl Global {
    /// The name under which scripts find the value.
    pub open spec fn script_name(self) -> Seq<char> {
        match self {
            Global::Width => "W"@,
            Global::Height => "H"@,
            Global::Time => "time"@,
        }
    }

    /// The name under which scripts find the value.
    pub fn name(self) -> (name: &'static str)
        ensures
            name@ == self.script_name(),
    {
        match self {
            Global::Width => "W",
            Global::Height => "H",
            Global::Time => "time",
        }
    }
}

/// One of the drawing calls that scripts are given.
#[derive(Debug, Clone, Copy, PartialEq, Eq, Structural)]
pub enum DrawingCall {
    /// `cls(color)`: set every cell.
    Clear,
    /// `pget(x, y)`: read one cell.
    GetPixel,
    /// `pset(x, y, color)`: write one cell.
    SetPixel,
    /// `pal(index, r, g, b)`: overwrite one palette entry.
    SetPalette,
}

impl DrawingCall {
    /// The name under which scripts find the call.
    pub open spec fn script_name(self) -> Seq<char> {
        match self {
            DrawingCall::Clear => "cls"@,
            DrawingCall::GetPixel => "pget"@,
            DrawingCall::SetPixel => "pset"@,
            DrawingCall::SetPalette => "pal"@,
        }
    }

    /// The name under which scripts find the call.
    pub fn name(self) -> (name: &'static str)
        ensures
            name@ == self.script_name(),
    {
        match self {
            DrawingCall::Clear => "cls",
            DrawingCall::GetPixel => "pget",
            DrawingCall::SetPixel => "pset",
            DrawingCall::SetPalette => "pal",
        }
    }
}

/// A function that a script may define for the host to call.
#[derive(Debug, Clone, Copy, PartialEq, Eq, Structural)]
pub enum Entry {
    /// `Init()`, called once after every load.
    Init,
    /// `Render(t)`, called once per frame with a timestamp in
    /// milliseconds.
    Render(u128),
}

impl Entry {
    /// The name under which the host looks the function up.
    pub open spec fn script_name(self) -> Seq<char> {
        match self {
            Entry::Init => "Init"@,
            Entry::Render(_) => "Render"@,
        }
    }

    /// The name under which the host looks the function up.
    pub fn name(self) -> (name: &'static str)
        ensures
            name@ == self.script_name(),
    {
        match self {
            Entry::Init => "Init",
            Entry::Render(_) => "Render",
        }
    }
}

/// One thing asked of the script engine.
pub enum Request {
    /// Make a drawing call available to scripts under its name, to work
    /// on the screen that the handle names.
    Bind(DrawingCall, SharedScreen),
    /// Set a global to an integer value.
    Publish(Global, u64),
    /// Parse and run source text as a chunk of the given name.
    Run { source: Seq<char>, name: Seq<char> },
    /// Call an entry point if the script defines it.
    Invoke(Entry),
}

/// How the engine answered one request.
pub enum Answer {
    /// It did what was asked.
    Done,
    /// It was asked to call an entry point that the script does not
    /// define, and called nothing. This is no failure.
    Absent,
    /// It failed, for the reason given.
    Failed(EngineFailure),
}

impl Answer {
    /// The answer that a request with nothing to hand back stands for.
    pub open spec fn of(r: Result<(), EngineFailure>) -> Answer {
        match r {
            Ok(()) => Answer::Done,
            Err(fault) => Answer::Failed(fault),
        }
    }

    /// The answer that the result of `Engine::invoke` stands for: `true`
    /// for an entry point that was called and returned, `false` for one
    /// that the script does not define.
    pub open spec fn of_invoke(r: Result<bool, EngineFailure>) -> Answer {
        match r {
            Ok(true) => Answer::Done,
            Ok(false) => Answer::Absent,
            Err(fault) => Answer::Failed(fault),
        }
    }
}

/// One request made of the engine, with the answer it got.
pub struct Exchange {
    pub request: Request,
    pub answer: Answer,
}

/// Runs a chunk if it could be named: a chunk whose name the engine
/// refused is not run, and the refusal is the failure.
pub fn run_named<'lua, 'a>(named: Result<Chunk<'lua, 'a>, mlua::Error>) -> (r: Result<
    (),
    mlua::Error,
>)
    ensures
        named matches Err(refusal) ==> r == Err::<(), mlua::Error>(refusal),
{
    match named {
        Err(refusal) => Err(refusal),
        Ok(chunk) => exec(chunk),
    }
}

/// Calls an entry point that a lookup found, with the arguments that the
/// entry carries, and reports `true` once it has returned. Where the
/// lookup found nothing, nothing is called and the report is `false`:
/// that a script leaves an entry point out is no failure.
pub fn call_found<'lua>(found: Option<Function<'lua>>, entry: Entry) -> (r: Result<
    bool,
    EngineFailure,
>)
    ensures
        found is None ==> r == Ok::<bool, EngineFailure>(false),
        found is Some ==> r is Err || r == Ok::<bool, EngineFailure>(true),
{
    match found {
        None => Ok(false),
        Some(function) => {
            let outcome = match entry {
                Entry::Init => call(&function),
                Entry::Render(now_ms) => call_with(&function, now_ms),
            };
            match outcome {
                Err(e) => Err(failure(e)),
                Ok(()) => Ok(true),
            }
        },
    }
}

/// A script engine together with the record of everything that was ever
/// asked of it and of how it answered, in order. What the scripts do in
/// answer is theirs to decide; the record says what they were given the
/// chance to do and what came back.
pub struct Engine {
    lua: Lua,
    history: Ghost<Seq<Exchange>>,
}

impl Engine {
    /// Every request made of this engine so far with its answer, oldest
    /// first.
    pub closed spec fn history(&self) -> Seq<Exchange> {
        self.history@
    }

    /// A fresh engine of which nothing has been asked.
    pub fn new() -> (engine: Engine)
        ensures
            engine.history() == Seq::<Exchange>::empty(),
    {
        Engine { lua: new_state(), history: Ghost(Seq::empty()) }
    }

    /// Binds a drawing call, working on the screen that `screen` names,
    /// to its script name. The request goes on record, with that screen
    /// and with the answer that is returned.
    pub fn bind(&mut self, drawing: DrawingCall, screen: &SharedScreen) -> (r: Result<
        (),
        EngineFailure,
    >)
        ensures
            final(self).history() == old(self).history().push(
                Exchange { request: Request::Bind(drawing, *screen), answer: Answer::of(r) },
            ),
    {
        let handle = screen.clone();
        let made = match drawing {
            DrawingCall::Clear => bind_clear(&self.lua, handle),
            DrawingCall::GetPixel => bind_get_pixel(&self.lua, handle),
            DrawingCall::SetPixel => bind_set_pixel(&self.lua, handle),
            DrawingCall::SetPalette => bind_set_palette(&self.lua, handle),
        };
        let r = match made {
            Err(e) => Err(failure(e)),
            Ok(function) => {
                let table = globals(&self.lua);
                match set_function(&table, drawing.name(), function) {
                    Err(e) => Err(failure(e)),
                    Ok(()) => Ok(()),
                }
            },
        };
        self.history = Ghost(
            self.history@.push(
                Exchange { request: Request::Bind(drawing, *screen), answer: Answer::of(r) },
            ),
        );
        r
    }

    /// Sets the global that scripts read `global` from to `value`. The
    /// request goes on record with the answer that is returned.
    pub fn publish(&mut self, global: Global, value: u64) -> (r: Result<(), EngineFailure>)
        ensures
            final(self).history() == old(self).history().push(
                Exchange { request: Request::Publish(global, value), answer: Answer::of(r) },
            ),
    {
        let table = globals(&self.lua);
        let r = match set_integer(&table, global.name(), value) {
            Err(e) => Err(failure(e)),
            Ok(()) => Ok(()),
        };
        self.history = Ghost(
            self.history@.push(
                Exchange { request: Request::Publish(global, value), answer: Answer::of(r) },
            ),
        );
        r
    }

    /// Hands `source` to the engine as a chunk called `name`, to be parsed
    /// and to have its top-level code run. A name that the engine refuses
    /// is a failure, and the chunk is then not run. The request goes on
    /// record with the answer that is returned.
    pub fn run(&mut self, source: &str, name: &str) -> (r: Result<(), EngineFailure>)
        ensures
            final(self).history() == old(self).history().push(
                Exchange {
                    request: Request::Run { source: source@, name: name@ },
                    answer: Answer::of(r),
                },
            ),
    {
        let r = match run_named(set_name(load(&self.lua, source), name)) {
            Err(e) => Err(failure(e)),
            Ok(()) => Ok(()),
        };
        self.history = Ghost(
            self.history@.push(
                Exchange {
                    request: Request::Run { source: source@, name: name@ },
                    answer: Answer::of(r),
                },
            ),
        );
        r
    }

    /// Looks the entry point up and calls it if the script defines it.
    /// Returns `true` after a call that returned, `false` where there was
    /// nothing to call, and the failure where the lookup or the call
    /// failed. The request goes on record with the answer that is
    /// returned.
    pub fn invoke(&mut self, entry: Entry) -> (r: Result<bool, EngineFailure>)
        ensures
            final(self).history() == old(self).history().push(
                Exchange { request: Request::Invoke(entry), answer: Answer::of_invoke(r) },
            ),
    {
        let table = globals(&self.lua);
        let r = match get_function(&table, entry.name()) {
            Err(e) => Err(failure(e)),
            Ok(found) => call_found(found, entry),
        };
        self.history = Ghost(
            self.history@.push(
                Exchange { request: Request::Invoke(entry), answer: Answer::of_invoke(r) },
            ),
        );
        r
    }
}

} // verus!
