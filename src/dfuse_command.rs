//! The DfuSe command payloads carried by DNLOAD transaction 0.
use crate::error::Error;
use vstd::prelude::*;

verus! {

/// A DfuSe command.
#[derive(Debug, Clone, Copy, PartialEq, Eq, Structural)]
pub enum DfuseCommand {
    SetAddress(u32),
    ErasePage(u32),
    MassErase,
    ReadUnprotected,
}

/// The four bytes of `a`, least significant first.
pub open spec fn le_bytes(a: u32) -> Seq<u8> {
    seq![
        (a & 0xFF) as u8,
        ((a >> 8) & 0xFF) as u8,
        ((a >> 16) & 0xFF) as u8,
        ((a >> 24) & 0xFF) as u8,
    ]
}

/// The payload of a command: its opcode, then the address for the two
/// commands that carry one.
pub open spec fn encoding(c: DfuseCommand) -> Seq<u8> {
    match c {
        DfuseCommand::SetAddress(a) => seq![0x21u8] + le_bytes(a),
        DfuseCommand::ErasePage(a) => seq![0x41u8] + le_bytes(a),
        DfuseCommand::MassErase => seq![0x41u8],
        DfuseCommand::ReadUnprotected => seq![0x92u8],
    }
}

/// The command that an opcode alone names, if it names one.
pub open spec fn command_of(b: u8) -> Result<DfuseCommand, Error> {
    if b == 0x21 {
        Ok(DfuseCommand::SetAddress(0))
    } else if b == 0x41 {
        Ok(DfuseCommand::MassErase)
    } else if b == 0x92 {
        Ok(DfuseCommand::ReadUnprotected)
    } else {
        Err(Error::UnknownCommandByte(b))
    }
}

impl DfuseCommand {
    /// The payload bytes of this command.
    pub fn encode(&self) -> (r: Vec<u8>)
        ensures
            r@ == encoding(*self),
    {
        let mut buf: Vec<u8> = Vec::new();
        let address = match self {
            DfuseCommand::SetAddress(a) => {
                buf.push(0x21);
                Some(*a)
            },
            DfuseCommand::ErasePage(a) => {
                buf.push(0x41);
                Some(*a)
            },
            DfuseCommand::MassErase => {
                buf.push(0x41);
                None
            },
            DfuseCommand::ReadUnprotected => {
                buf.push(0x92);
                None
            },
        };
        if let Some(a) = address {
            buf.push((a & 0xFF) as u8);
            buf.push(((a >> 8) & 0xFF) as u8);
            buf.push(((a >> 16) & 0xFF) as u8);
            buf.push(((a >> 24) & 0xFF) as u8);
        }
        assert(buf@ =~= encoding(*self));
        buf
    }

    /// A short human-readable name.
    pub fn name(&self) -> &'static str {
        match self {
            DfuseCommand::SetAddress(_) => "Set address",
            DfuseCommand::ErasePage(_) | DfuseCommand::MassErase => "Page/Mass erase",
            DfuseCommand::ReadUnprotected => "Read unprotected",
        }
    }
}

impl From<DfuseCommand> for Vec<u8> {
    /// The payload bytes of `command`; see `DfuseCommand::encode`.
    fn from(command: DfuseCommand) -> (r: Vec<u8>)
        ensures
            r@ == encoding(command),
    {
        command.encode()
    }
}

impl vstd::std_specs::convert::FromSpecImpl<DfuseCommand> for Vec<u8> {
    /// A `Vec` cannot be written down at spec level; `from` states its
    /// result through `encoding` instead.
    open spec fn obeys_from_spec() -> bool {
        false
    }

    open spec fn from_spec(command: DfuseCommand) -> Vec<u8> {
        vstd::pervasive::arbitrary()
    }
}

impl TryFrom<u8> for DfuseCommand {
    type Error = Error;

    fn try_from(cmd: u8) -> (r: Result<DfuseCommand, Error>) {
        match cmd {
            0x21 => Ok(DfuseCommand::SetAddress(0)),
            0x41 => Ok(DfuseCommand::MassErase),
            0x92 => Ok(DfuseCommand::ReadUnprotected),
            b => Err(Error::UnknownCommandByte(b)),
        }
    }
}

impl vstd::std_specs::convert::TryFromSpecImpl<u8> for DfuseCommand {
    open spec fn obeys_try_from_spec() -> bool {
        true
    }

    open spec fn try_from_spec(cmd: u8) -> Result<DfuseCommand, Error> {
        command_of(cmd)
    }
}

/// A command that carries an address encodes as its opcode followed by the
/// address, least significant byte first.
pub proof fn lemma_address_commands_encoding(a: u32)
    ensures
        encoding(DfuseCommand::SetAddress(a)) =~= seq![
            0x21u8,
            (a & 0xFF) as u8,
            ((a >> 8) & 0xFF) as u8,
            ((a >> 16) & 0xFF) as u8,
            ((a >> 24) & 0xFF) as u8,
        ],
        encoding(DfuseCommand::ErasePage(a)) =~= seq![0x41u8] + le_bytes(a),
        encoding(DfuseCommand::ErasePage(a))[0] == 0x41,
        encoding(DfuseCommand::ErasePage(a)).subrange(1, 5) =~= le_bytes(a),
        encoding(DfuseCommand::MassErase) =~= seq![0x41u8],
        encoding(DfuseCommand::ReadUnprotected) =~= seq![0x92u8],
{
}

} // verus!
