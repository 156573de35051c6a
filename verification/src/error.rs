use vstd::prelude::*;
use vstd::string::*;
use crate::text::{decimal, push_decimal};

verus! {

/// A drawing call named a cell that is not on the screen.
#[derive(Debug, Clone, Copy, PartialEq, Eq, Structural)]
pub struct OutOfBounds {
    pub x: usize,
    pub y: usize,
    pub width: usize,
    pub height: usize,
}

/// An output buffer does not hold exactly four bytes per screen cell.
#[derive(Debug, Clone, Copy, PartialEq, Eq, Structural)]
pub struct SizeMismatch {
    pub width: usize,
    pub height: usize,
    pub actual: usize,
}

impl OutOfBounds {
    /// The text of the message that names the coordinate and the screen.
    pub open spec fn text(self) -> Seq<char> {
        "pixel ("@ + decimal(self.x as nat) + ", "@ + decimal(self.y as nat)
            + ") is outside the "@ + decimal(self.width as nat) + "x"@ + decimal(
            self.height as nat,
        ) + " screen"@
    }

    /// A message for the script's author, such as
    /// `pixel (400, 1) is outside the 320x240 screen`.
    pub fn message(&self) -> (message: String)
        ensures
            message@ == self.text(),
    {
        let mut message = String::from_str("pixel (");
        push_decimal(&mut message, self.x);
        message.append(", ");
        push_decimal(&mut message, self.y);
        message.append(") is outside the ");
        push_decimal(&mut message, self.width);
        message.append("x");
        push_decimal(&mut message, self.height);
        message.append(" screen");
        message
    }
}

impl SizeMismatch {
    /// The text of the message that names the buffer and the screen.
    pub open spec fn text(self) -> Seq<char> {
        "frame buffer of "@ + decimal(self.actual as nat) + " bytes does not fit a "@ + decimal(
            self.width as nat,
        ) + "x"@ + decimal(self.height as nat) + " screen"@
    }

    /// A message for the host, such as
    /// `frame buffer of 16 bytes does not fit a 320x240 screen`.
    pub fn message(&self) -> (message: String)
        ensures
            message@ == self.text(),
    {
        let mut message = String::from_str("frame buffer of ");
        push_decimal(&mut message, self.actual);
        message.append(" bytes does not fit a ");
        push_decimal(&mut message, self.width);
        message.append("x");
        push_decimal(&mut message, self.height);
        message.append(" screen");
        message
    }
}

/// What the scripting engine reported when it refused or aborted a request.
#[derive(Debug, Clone, PartialEq, Eq)]
pub enum EngineFailure {
    /// The source text is not a well-formed chunk.
    Syntax(String),
    /// Anything else, described in the engine's own words.
    Other(String),
}

/// Everything that can go wrong while running a scripted effect.
#[derive(Debug, Clone, PartialEq, Eq)]
pub enum EffectError {
    /// The script file could not be read; holds the reason.
    ScriptLoad(String),
    /// The script source does not parse.
    ScriptCompile(String),
    /// The script, one of its callbacks or a drawing call raised an error.
    ScriptRuntime(String),
    /// The presentation buffer has the wrong length.
    SizeMismatch(SizeMismatch),
}

impl EffectError {
    /// The error that stands for an engine failure: a syntax failure is a
    /// compile error, every other failure a runtime error, with the
    /// engine's message kept as it is.
    pub open spec fn of_engine(failure: EngineFailure) -> EffectError {
        match failure {
            EngineFailure::Syntax(message) => EffectError::ScriptCompile(message),
            EngineFailure::Other(message) => EffectError::ScriptRuntime(message),
        }
    }

    /// Turns an engine failure into the error reported to the host.
    pub fn from_engine(failure: EngineFailure) -> (e: EffectError)
        ensures
            e == EffectError::of_engine(failure),
    {
        match failure {
            EngineFailure::Syntax(message) => EffectError::ScriptCompile(message),
            EngineFailure::Other(message) => EffectError::ScriptRuntime(message),
        }
    }

    /// Whether the error was raised by the scripting engine, as opposed to
    /// the file system or the presentation surface.
    pub open spec fn is_engine(self) -> bool {
        self is ScriptCompile || self is ScriptRuntime
    }

    /// The text of the error's message.
    pub open spec fn text(self) -> Seq<char> {
        match self {
            EffectError::ScriptLoad(reason) => "cannot read the script: "@ + reason@,
            EffectError::ScriptCompile(message) => "syntax error: "@ + message@,
            EffectError::ScriptRuntime(message) => message@,
            EffectError::SizeMismatch(mismatch) => mismatch.text(),
        }
    }

    /// A message that says what went wrong, for a log or a console.
    pub fn message(&self) -> (message: String)
        ensures
            message@ == self.text(),
    {
        match self {
            EffectError::ScriptLoad(reason) => {
                String::from_str("cannot read the script: ").concat(reason.as_str())
            },
            EffectError::ScriptCompile(message) => {
                String::from_str("syntax error: ").concat(message.as_str())
            },
            EffectError::ScriptRuntime(message) => message.clone(),
            EffectError::SizeMismatch(mismatch) => mismatch.message(),
        }
    }
}

} // verus!
