//! The serial link's fixed parameters and the two commands that travel on it.

use vstd::prelude::*;

verus! {

/// Parity checking on the link.
#[derive(Clone, Copy, Debug, PartialEq, Eq, Structural)]
pub enum Parity {
    Absent,
    Odd,
    Even,
}

/// Flow control on the link.
#[derive(Clone, Copy, Debug, PartialEq, Eq, Structural)]
pub enum FlowControl {
    Off,
    Software,
    Hardware,
}

/// The parameters the link is opened with.
#[derive(Clone, Copy, Debug, PartialEq, Eq, Structural)]
pub struct SerialLinkConfig {
    pub baud_rate: u32,
    pub data_bits: u8,
    pub parity: Parity,
    pub stop_bits: u8,
    pub flow_control: FlowControl,
    pub timeout_millis: u64,
}

/// The one configuration the device answers to: 115200 baud, eight data bits,
/// no parity, one stop bit, no flow control, and a read timeout of 50 ms.
pub open spec fn fixed_config() -> SerialLinkConfig {
    SerialLinkConfig {
        baud_rate: 115200,
        data_bits: 8,
        parity: Parity::Absent,
        stop_bits: 1,
        flow_control: FlowControl::Off,
        timeout_millis: 50,
    }
}

impl SerialLinkConfig {
    /// The configuration the device answers to.
    pub fn fixed() -> (config: SerialLinkConfig)
        ensures
            config == fixed_config(),
    {
        SerialLinkConfig {
            baud_rate: 115200,
            data_bits: 8,
            parity: Parity::Absent,
            stop_bits: 1,
            flow_control: FlowControl::Off,
            timeout_millis: 50,
        }
    }

    /// Whether this is the configuration the device answers to.
    pub fn is_fixed(&self) -> (fixed: bool)
        ensures
            fixed == (*self == fixed_config()),
    {
        self.baud_rate == 115200 && self.data_bits == 8 && matches!(self.parity, Parity::Absent)
            && self.stop_bits == 1 && matches!(self.flow_control, FlowControl::Off)
            && self.timeout_millis == 50
    }
}

/// A command of the device's serial protocol.
#[derive(Clone, Copy, Debug, PartialEq, Eq, Structural)]
pub enum Command {
    /// Ends whatever command the device may still be reading. No reply.
    Terminate,
    /// Asks for the current count rate. The reply is two bytes.
    Query,
}

impl Command {
    /// The command's text.
    pub open spec fn text(self) -> Seq<char> {
        match self {
            Command::Terminate => ">>"@,
            Command::Query => "<GETCPM>>"@,
        }
    }

    /// The bytes that go on the wire.
    pub open spec fn wire(self) -> Seq<u8> {
        match self {
            Command::Terminate => seq![0x3eu8, 0x3eu8],
            Command::Query => seq![
                0x3cu8,
                0x47u8,
                0x45u8,
                0x54u8,
                0x43u8,
                0x50u8,
                0x4du8,
                0x3eu8,
                0x3eu8,
            ],
        }
    }

    /// The bytes to write for this command.
    pub fn bytes(&self) -> (out: Vec<u8>)
        ensures
            out@ == self.wire(),
    {
        let mut out: Vec<u8> = Vec::new();
        match self {
            Command::Terminate => {
                out.push(0x3e);
                out.push(0x3e);
            },
            Command::Query => {
                out.push(0x3c);
                out.push(0x47);
                out.push(0x45);
                out.push(0x54);
                out.push(0x43);
                out.push(0x50);
                out.push(0x4d);
                out.push(0x3e);
                out.push(0x3e);
            },
        }
        assert(out@ =~= self.wire());
        out
    }
}

/// The wire form of a command is its text in ASCII, byte for character.
pub proof fn lemma_wire_is_ascii_text(command: Command)
    ensures
        command.wire().len() == command.text().len(),
        forall|i: int|
            0 <= i < command.text().len() ==> command.text()[i] as u32 == #[trigger] command.wire()[i] as u32,
        command == Command::Terminate ==> command.wire().len() == 2,
        command == Command::Query ==> command.wire().len() == 9,
{
    reveal_strlit(">>");
    reveal_strlit("<GETCPM>>");
}

} // verus!
