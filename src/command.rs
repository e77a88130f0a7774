use vstd::prelude::*;
use crate::clock::now_seconds;
use crate::fields::Fields;
use crate::opcode::{opcode_of, Commands};

verus! {

/// The envelope exchanged with clients.
///
/// `Id` is the session handle the command is addressed to (or comes from),
/// `Timestamp` is in seconds since the Unix epoch, and the values of
/// `BinaryData` are base64 text.
pub struct Command {
    pub BinaryData: Fields,
    pub Data: Fields,
    pub Id: i64,
    pub Timestamp: i64,
    pub Type: Commands,
}

/// What a command holds, as mathematical values.
pub struct CommandView {
    pub id: i64,
    pub kind: Commands,
    pub timestamp: i64,
    pub data: Map<Seq<char>, Seq<char>>,
    pub binary: Map<Seq<char>, Seq<char>>,
}

impl View for Command {
    type V = CommandView;

    open spec fn view(&self) -> CommandView {
        CommandView {
            id: self.Id,
            kind: self.Type,
            timestamp: self.Timestamp,
            data: self.Data@,
            binary: self.BinaryData@,
        }
    }
}

/// Whether `c` is addressed to `id` with the given opcode and payloads,
/// whatever its timestamp.
pub open spec fn command_matches(
    c: CommandView,
    id: i64,
    kind: Commands,
    data: Map<Seq<char>, Seq<char>>,
    binary: Map<Seq<char>, Seq<char>>,
) -> bool {
    &&& c.id == id
    &&& c.kind == kind
    &&& c.data == data
    &&& c.binary == binary
}

/// A payload that does not have the shape of a command; `code` is the
/// opcode number it carried where that number names no opcode.
pub struct MalformedCommand {
    pub code: i32,
}

impl Command {
    /// Reads a command from the fields of its wire form, where the opcode is
    /// a number; a number that names no opcode makes it malformed.
    pub fn fromWire(id: i64, code: i32, timestamp: i64, data: Fields, binary: Fields) -> (r: Result<
        Command,
        MalformedCommand,
    >)
        ensures
            match opcode_of(code) {
                Some(kind) => r matches Ok(c) && c@ == (CommandView {
                    id,
                    kind,
                    timestamp,
                    data: data@,
                    binary: binary@,
                }),
                None => r matches Err(e) && e.code == code,
            },
    {
        match Commands::from_code(code) {
            Some(kind) => Ok(Command::new(id, kind, timestamp, data, binary)),
            None => Err(MalformedCommand { code }),
        }
    }

    /// A command with every field given.
    pub fn new(id: i64, kind: Commands, timestamp: i64, data: Fields, binary: Fields) -> (r:
        Command)
        ensures
            r@ == (CommandView { id, kind, timestamp, data: data@, binary: binary@ }),
    {
        Command { BinaryData: binary, Data: data, Id: id, Timestamp: timestamp, Type: kind }
    }
}

impl Clone for Command {
    fn clone(&self) -> (r: Command)
        ensures
            r@ == self@,
    {
        Command {
            BinaryData: self.BinaryData.clone(),
            Data: self.Data.clone(),
            Id: self.Id,
            Timestamp: self.Timestamp,
            Type: self.Type,
        }
    }
}

impl Default for Command {
    /// A `NoOp` command to handle 0 with no payload, stamped with the
    /// current time.
    fn default() -> (r: Command)
        ensures
            command_matches(r@, 0, Commands::NoOp, Map::empty(), Map::empty()),
            r.Timestamp >= 0,
    {
        Command {
            BinaryData: Fields::new(),
            Data: Fields::new(),
            Id: 0,
            Timestamp: now_seconds(),
            Type: Commands::NoOp,
        }
    }
}

} // verus!
