use vstd::prelude::*;

verus! {

/// Code that the key poll reports when no key was pressed during the wait.
pub const NO_KEY: i32 = -1;

pub const KEY_ESC: i32 = 27;
pub const KEY_SPACE: i32 = 32;
pub const KEY_PLUS: i32 = 43;
pub const KEY_MINUS: i32 = 45;
pub const KEY_EQUALS: i32 = 61;
pub const KEY_UNDERSCORE: i32 = 95;
pub const KEY_B: i32 = 98;
pub const KEY_C: i32 = 99;
pub const KEY_D: i32 = 100;
pub const KEY_H: i32 = 104;
pub const KEY_Z: i32 = 122;

/// One user action, decoded from a single key code.
#[derive(Clone, Copy, Debug, PartialEq, Eq, Structural)]
pub enum Command {
    Quit,
    ToggleGreyscale,
    ToggleEdges,
    ToggleBlur,
    ToggleInvert,
    ResetThresholds,
    IncreaseLow,
    DecreaseLow,
    IncreaseHigh,
    DecreaseHigh,
    ShowHelp,
    /// A key was pressed that has no binding; it carries the raw code.
    Unmapped(i32),
    /// No key was pressed.
    NoKey,
}

/// The binding table: the command that each key code stands for.
pub open spec fn command_of(code: i32) -> Command {
    if code == KEY_ESC {
        Command::Quit
    } else if code == KEY_SPACE {
        Command::ToggleEdges
    } else if code == KEY_C {
        Command::ToggleInvert
    } else if code == KEY_B {
        Command::ToggleBlur
    } else if code == KEY_Z {
        Command::ToggleGreyscale
    } else if code == KEY_D {
        Command::ResetThresholds
    } else if code == KEY_PLUS {
        Command::IncreaseLow
    } else if code == KEY_EQUALS {
        Command::DecreaseLow
    } else if code == KEY_UNDERSCORE {
        Command::IncreaseHigh
    } else if code == KEY_MINUS {
        Command::DecreaseHigh
    } else if code == KEY_H {
        Command::ShowHelp
    } else if code == NO_KEY {
        Command::NoKey
    } else {
        Command::Unmapped(code)
    }
}

/// The key code bound to a command, if the table binds one to it.
pub open spec fn binding_of(cmd: Command) -> Option<i32> {
    match cmd {
        Command::Quit => Some(KEY_ESC),
        Command::ToggleEdges => Some(KEY_SPACE),
        Command::ToggleInvert => Some(KEY_C),
        Command::ToggleBlur => Some(KEY_B),
        Command::ToggleGreyscale => Some(KEY_Z),
        Command::ResetThresholds => Some(KEY_D),
        Command::IncreaseLow => Some(KEY_PLUS),
        Command::DecreaseLow => Some(KEY_EQUALS),
        Command::IncreaseHigh => Some(KEY_UNDERSCORE),
        Command::DecreaseHigh => Some(KEY_MINUS),
        Command::ShowHelp => Some(KEY_H),
        Command::Unmapped(_) => None,
        Command::NoKey => None,
    }
}

/// Decodes a raw key code through the binding table.
pub fn map_key(code: i32) -> (r: Command)
    ensures
        r == command_of(code),
{
    match code {
        KEY_ESC => Command::Quit,
        KEY_SPACE => Command::ToggleEdges,
        KEY_C => Command::ToggleInvert,
        KEY_B => Command::ToggleBlur,
        KEY_Z => Command::ToggleGreyscale,
        KEY_D => Command::ResetThresholds,
        KEY_PLUS => Command::IncreaseLow,
        KEY_EQUALS => Command::DecreaseLow,
        KEY_UNDERSCORE => Command::IncreaseHigh,
        KEY_MINUS => Command::DecreaseHigh,
        KEY_H => Command::ShowHelp,
        NO_KEY => Command::NoKey,
        _ => Command::Unmapped(code),
    }
}

/// The key code bound to a command, or `None` for `Unmapped` and `NoKey`.
pub fn key_for(cmd: Command) -> (r: Option<i32>)
    ensures
        r == binding_of(cmd),
{
    match cmd {
        Command::Quit => Some(KEY_ESC),
        Command::ToggleEdges => Some(KEY_SPACE),
        Command::ToggleInvert => Some(KEY_C),
        Command::ToggleBlur => Some(KEY_B),
        Command::ToggleGreyscale => Some(KEY_Z),
        Command::ResetThresholds => Some(KEY_D),
        Command::IncreaseLow => Some(KEY_PLUS),
        Command::DecreaseLow => Some(KEY_EQUALS),
        Command::IncreaseHigh => Some(KEY_UNDERSCORE),
        Command::DecreaseHigh => Some(KEY_MINUS),
        Command::ShowHelp => Some(KEY_H),
        Command::Unmapped(_) => None,
        Command::NoKey => None,
    }
}

/// The binding table is one to one. Every bound code decodes to the command
/// that it is documented for and to no other: a command with a binding is
/// decoded from that code and from no other code. Every code outside the
/// table decodes to `Unmapped` of itself, except the no-key code, which
/// decodes to `NoKey`.
pub proof fn lemma_bindings_one_to_one(code: i32, cmd: Command)
    ensures
        binding_of(cmd) is Some ==> (binding_of(cmd) == Some(code) <==> command_of(code) == cmd),
        binding_of(command_of(code)) is None ==> (code == NO_KEY <==> command_of(code)
            == Command::NoKey),
        binding_of(command_of(code)) is None && code != NO_KEY ==> command_of(code)
            == Command::Unmapped(code),
{
}

} // verus!
