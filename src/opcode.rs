use vstd::prelude::*;

verus! {

/// The opcode carried in the `Type` field of a command. `NoOp` (wire number
/// 0) is the default and asks for nothing.
///
/// Opcodes are grouped by numeric range: authentication from 100,
/// broadcast from 200, assets from 300. The gaps are kept free for
/// future groups.
#[derive(Clone, Copy, Debug, PartialEq, Eq, Structural)]
pub enum Commands {
    NoOp,
    AuthenticateRequest,
    AuthenticateSend,
    AuthenticateFail,
    AuthenticateSuccess,
    BroadcastRequest,
    BroadcastResponse,
    BroadcastGetRequest,
    Scene2DRequest,
    Scene2DResponse,
}

/// The number that stands for an opcode on the wire.
pub open spec fn code_of(c: Commands) -> i32 {
    match c {
        Commands::NoOp => 0,
        Commands::AuthenticateRequest => 100,
        Commands::AuthenticateSend => 101,
        Commands::AuthenticateFail => 102,
        Commands::AuthenticateSuccess => 103,
        Commands::BroadcastRequest => 200,
        Commands::BroadcastResponse => 201,
        Commands::BroadcastGetRequest => 202,
        Commands::Scene2DRequest => 300,
        Commands::Scene2DResponse => 301,
    }
}

/// The opcode that a wire number stands for, if any.
pub open spec fn opcode_of(n: i32) -> Option<Commands> {
    if n == 0 {
        Some(Commands::NoOp)
    } else if n == 100 {
        Some(Commands::AuthenticateRequest)
    } else if n == 101 {
        Some(Commands::AuthenticateSend)
    } else if n == 102 {
        Some(Commands::AuthenticateFail)
    } else if n == 103 {
        Some(Commands::AuthenticateSuccess)
    } else if n == 200 {
        Some(Commands::BroadcastRequest)
    } else if n == 201 {
        Some(Commands::BroadcastResponse)
    } else if n == 202 {
        Some(Commands::BroadcastGetRequest)
    } else if n == 300 {
        Some(Commands::Scene2DRequest)
    } else if n == 301 {
        Some(Commands::Scene2DResponse)
    } else {
        None
    }
}

impl Commands {
    /// The wire number of this opcode.
    pub fn code(self) -> (r: i32)
        ensures
            r == code_of(self),
    {
        match self {
            Commands::NoOp => 0,
            Commands::AuthenticateRequest => 100,
            Commands::AuthenticateSend => 101,
            Commands::AuthenticateFail => 102,
            Commands::AuthenticateSuccess => 103,
            Commands::BroadcastRequest => 200,
            Commands::BroadcastResponse => 201,
            Commands::BroadcastGetRequest => 202,
            Commands::Scene2DRequest => 300,
            Commands::Scene2DResponse => 301,
        }
    }

    /// The opcode for a wire number; `None` for a number outside the set.
    pub fn from_code(n: i32) -> (r: Option<Commands>)
        ensures
            r == opcode_of(n),
    {
        match n {
            0 => Some(Commands::NoOp),
            100 => Some(Commands::AuthenticateRequest),
            101 => Some(Commands::AuthenticateSend),
            102 => Some(Commands::AuthenticateFail),
            103 => Some(Commands::AuthenticateSuccess),
            200 => Some(Commands::BroadcastRequest),
            201 => Some(Commands::BroadcastResponse),
            202 => Some(Commands::BroadcastGetRequest),
            300 => Some(Commands::Scene2DRequest),
            301 => Some(Commands::Scene2DResponse),
            _ => None,
        }
    }
}

impl Default for Commands {
    fn default() -> (r: Commands)
        ensures
            r == Commands::NoOp,
    {
        Commands::NoOp
    }
}

/// Decoding the wire number of an opcode gives the opcode back.
pub proof fn lemma_code_round_trip(c: Commands)
    ensures
        opcode_of(code_of(c)) == Some(c),
{
}

/// Two distinct opcodes never share a wire number.
pub proof fn lemma_code_injective(a: Commands, b: Commands)
    ensures
        code_of(a) == code_of(b) ==> a == b,
{
}

} // verus!
