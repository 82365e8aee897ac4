//! The operations of the PIN protocol and their codes.

use crate::cbor::{unsigned_node, Value, ValueView};
use crate::read::{as_unsigned, read_unsigned};
use crate::status_code::Ctap2StatusCode;
use vstd::prelude::*;

verus! {

/// The operations of the PIN protocol. There is no catch-all: a code that is
/// none of these is refused.
#[derive(Clone, Copy, Debug, PartialEq, Eq, Structural)]
pub enum ClientPinSubCommand {
    GetPinRetries,
    GetKeyAgreement,
    SetPin,
    ChangePin,
    GetPinUvAuthTokenUsingPin,
    GetPinUvAuthTokenUsingUv,
    GetUvRetries,
}

/// The code that a sub-command is written as.
pub open spec fn sub_command_code(subcommand: ClientPinSubCommand) -> u64 {
    match subcommand {
        ClientPinSubCommand::GetPinRetries => 0x01,
        ClientPinSubCommand::GetKeyAgreement => 0x02,
        ClientPinSubCommand::SetPin => 0x03,
        ClientPinSubCommand::ChangePin => 0x04,
        ClientPinSubCommand::GetPinUvAuthTokenUsingPin => 0x05,
        ClientPinSubCommand::GetPinUvAuthTokenUsingUv => 0x06,
        ClientPinSubCommand::GetUvRetries => 0x07,
    }
}

/// The node that a sub-command is written as: its code.
pub open spec fn encode_sub_command(subcommand: ClientPinSubCommand) -> ValueView {
    unsigned_node(sub_command_code(subcommand))
}

/// The sub-command with a code, where there is one.
pub open spec fn sub_command_of(code: u64) -> Result<ClientPinSubCommand, Ctap2StatusCode> {
    if code == 0x01 {
        Ok(ClientPinSubCommand::GetPinRetries)
    } else if code == 0x02 {
        Ok(ClientPinSubCommand::GetKeyAgreement)
    } else if code == 0x03 {
        Ok(ClientPinSubCommand::SetPin)
    } else if code == 0x04 {
        Ok(ClientPinSubCommand::ChangePin)
    } else if code == 0x05 {
        Ok(ClientPinSubCommand::GetPinUvAuthTokenUsingPin)
    } else if code == 0x06 {
        Ok(ClientPinSubCommand::GetPinUvAuthTokenUsingUv)
    } else if code == 0x07 {
        Ok(ClientPinSubCommand::GetUvRetries)
    } else {
        Err(Ctap2StatusCode::CTAP1_ERR_INVALID_PARAMETER)
    }
}

/// A sub-command is a non-negative integer that is one of the seven codes.
pub open spec fn decode_sub_command(v: ValueView) -> Result<ClientPinSubCommand, Ctap2StatusCode> {
    match as_unsigned(v) {
        Ok(code) => sub_command_of(code),
        Err(e) => Err(e),
    }
}

impl ClientPinSubCommand {
    /// Writes the sub-command as its code.
    pub fn encode(self) -> (r: Value)
        ensures
            r@ == encode_sub_command(self),
    {
        let code: u64 = match self {
            ClientPinSubCommand::GetPinRetries => 0x01,
            ClientPinSubCommand::GetKeyAgreement => 0x02,
            ClientPinSubCommand::SetPin => 0x03,
            ClientPinSubCommand::ChangePin => 0x04,
            ClientPinSubCommand::GetPinUvAuthTokenUsingPin => 0x05,
            ClientPinSubCommand::GetPinUvAuthTokenUsingUv => 0x06,
            ClientPinSubCommand::GetUvRetries => 0x07,
        };
        Value::unsigned(code)
    }

    /// Reads a sub-command, see [`decode_sub_command`].
    pub fn decode(cbor_value: &Value) -> (r: Result<ClientPinSubCommand, Ctap2StatusCode>)
        ensures
            r == decode_sub_command(cbor_value@),
    {
        let subcommand_int = read_unsigned(cbor_value)?;
        match subcommand_int {
            0x01 => Ok(ClientPinSubCommand::GetPinRetries),
            0x02 => Ok(ClientPinSubCommand::GetKeyAgreement),
            0x03 => Ok(ClientPinSubCommand::SetPin),
            0x04 => Ok(ClientPinSubCommand::ChangePin),
            0x05 => Ok(ClientPinSubCommand::GetPinUvAuthTokenUsingPin),
            0x06 => Ok(ClientPinSubCommand::GetPinUvAuthTokenUsingUv),
            0x07 => Ok(ClientPinSubCommand::GetUvRetries),
            _ => Err(Ctap2StatusCode::CTAP1_ERR_INVALID_PARAMETER),
        }
    }
}

/// Reading what was written for a sub-command gives that sub-command back.
pub proof fn sub_command_round_trip(subcommand: ClientPinSubCommand)
    ensures
        decode_sub_command(encode_sub_command(subcommand)) == Ok::<_, Ctap2StatusCode>(subcommand),
{
}

/// A non-negative integer that is none of the seven codes is refused.
pub proof fn sub_command_is_strict(code: u64)
    requires
        forall|subcommand: ClientPinSubCommand| code != #[trigger] sub_command_code(subcommand),
    ensures
        decode_sub_command(unsigned_node(code)) == Err::<ClientPinSubCommand, _>(
            Ctap2StatusCode::CTAP1_ERR_INVALID_PARAMETER,
        ),
{
    assert(code != sub_command_code(ClientPinSubCommand::GetPinRetries));
    assert(code != sub_command_code(ClientPinSubCommand::GetKeyAgreement));
    assert(code != sub_command_code(ClientPinSubCommand::SetPin));
    assert(code != sub_command_code(ClientPinSubCommand::ChangePin));
    assert(code != sub_command_code(ClientPinSubCommand::GetPinUvAuthTokenUsingPin));
    assert(code != sub_command_code(ClientPinSubCommand::GetPinUvAuthTokenUsingUv));
    assert(code != sub_command_code(ClientPinSubCommand::GetUvRetries));
}

} // verus!
