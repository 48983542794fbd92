use vstd::prelude::*;
use crate::cbor::encode_head;
use crate::cbor::encode_uint;
use crate::cbor::encode_bytes;
use crate::cbor::encode_text;
use crate::cbor::spec_cbor_map_head;
use crate::cbor::spec_cbor_array_head;
use crate::cbor::spec_cbor_uint;
use crate::cbor::spec_cbor_bytes;
use crate::cbor::spec_cbor_text;
use crate::cbor::spec_cbor_true;
use crate::pintoken::PinToken;
use crate::pintoken::authenticate;
use crate::pintoken::spec_authenticate;
use crate::sub_command_base::SubCommandBase;

verus! {

use vstd::utf8::encode_utf8;

/// The one-byte command identifier of authenticatorConfig.
pub const AUTHENTICATOR_CONFIG: u8 = 0x0d;

/// The authenticatorConfig subcommands this library can issue.
#[derive(Debug, Clone, PartialEq, Eq)]
pub enum SubCommand {
    ToggleAlwaysUv,
    SetMinPinLength(u8),
    SetMinPinLengthRpIds(Vec<String>),
    ForceChangePin,
}

impl SubCommandBase for SubCommand {
    open spec fn spec_id(&self) -> u8 {
        match self {
            SubCommand::ToggleAlwaysUv => 2,
            SubCommand::SetMinPinLength(_) => 3,
            SubCommand::SetMinPinLengthRpIds(_) => 3,
            SubCommand::ForceChangePin => 3,
        }
    }

    open spec fn spec_has_param(&self) -> bool {
        match self {
            SubCommand::ToggleAlwaysUv => false,
            _ => true,
        }
    }

    fn id(&self) -> (r: u8)
        ensures
            r == self.spec_id(),
    {
        match self {
            SubCommand::ToggleAlwaysUv => 2,
            SubCommand::SetMinPinLength(_) => 3,
            SubCommand::SetMinPinLengthRpIds(_) => 3,
            SubCommand::ForceChangePin => 3,
        }
    }

    fn has_param(&self) -> (r: bool)
        ensures
            r == self.spec_has_param(),
    {
        match self {
            SubCommand::SetMinPinLength(_) => true,
            SubCommand::SetMinPinLengthRpIds(_) => true,
            SubCommand::ForceChangePin => true,
            SubCommand::ToggleAlwaysUv => false,
        }
    }
}

/// Thirty-two bytes of 0xFF, the fixed prefix of every pinUvAuthParam
/// message.
pub open spec fn spec_ff32() -> Seq<u8> {
    Seq::new(32, |i: int| 0xffu8)
}

/// The CBOR items of an array of relying-party id strings, one text item
/// per string, in order.
pub open spec fn spec_text_items(items: Seq<String>) -> Seq<u8>
    decreases items.len(),
{
    if items.len() == 0 {
        Seq::empty()
    } else {
        spec_text_items(items.drop_last()) + spec_cbor_text(encode_utf8(items.last()@))
    }
}

/// The CBOR bytes of the subCommandParams map a subcommand carries; empty
/// for a subcommand that carries none.
pub open spec fn spec_config_params_cbor(c: &SubCommand) -> Seq<u8> {
    match c {
        SubCommand::ToggleAlwaysUv => Seq::empty(),
        SubCommand::SetMinPinLength(n) => spec_cbor_map_head(1) + spec_cbor_uint(1)
            + spec_cbor_uint(*n as u64),
        SubCommand::SetMinPinLengthRpIds(rpids) => spec_cbor_map_head(1) + spec_cbor_uint(2)
            + spec_cbor_array_head(rpids@.len() as u64) + spec_text_items(rpids@),
        SubCommand::ForceChangePin => spec_cbor_map_head(1) + spec_cbor_uint(3)
            + spec_cbor_true(),
    }
}

/// The message that the pinUvAuthParam of an authenticatorConfig command
/// signs: 32 bytes of 0xFF, the command identifier 0x0D, the subcommand id,
/// then the subCommandParams CBOR (empty when the subcommand carries none).
pub open spec fn spec_config_message(c: &SubCommand) -> Seq<u8> {
    spec_ff32() + seq![AUTHENTICATOR_CONFIG, c.spec_id()] + spec_config_params_cbor(c)
}

/// The full authenticatorConfig request payload for a subcommand under a
/// token key: the command byte, then a CBOR map holding the subcommand id
/// (0x01), the params map when one is carried (0x02), the PIN protocol
/// version 1 (0x03) and the 16-byte pinUvAuthParam (0x04).
pub open spec fn spec_config_payload(key: Seq<u8>, c: &SubCommand) -> Seq<u8> {
    let sig = spec_authenticate(key, spec_config_message(c));
    let entries = if c.spec_has_param() {
        spec_cbor_map_head(4) + spec_cbor_uint(1) + spec_cbor_uint(c.spec_id() as u64)
            + spec_cbor_uint(2) + spec_config_params_cbor(c)
    } else {
        spec_cbor_map_head(3) + spec_cbor_uint(1) + spec_cbor_uint(c.spec_id() as u64)
    };
    seq![AUTHENTICATOR_CONFIG] + entries + spec_cbor_uint(3) + spec_cbor_uint(1)
        + spec_cbor_uint(4) + spec_cbor_bytes(sig)
}

/// Appends 32 bytes of 0xFF to `out`.
pub fn push_ff32(out: &mut Vec<u8>)
    ensures
        final(out)@ == old(out)@ + spec_ff32(),
{
    let mut i: usize = 0;
    while i < 32
        invariant
            i <= 32,
            out@ == old(out)@ + spec_ff32().take(i as int),
        decreases 32 - i,
    {
        out.push(0xff);
        i = i + 1;
        proof {
            assert(out@ =~= old(out)@ + spec_ff32().take(i as int));
        }
    }
    proof {
        assert(spec_ff32().take(32) =~= spec_ff32());
    }
}

/// Appends the subCommandParams CBOR of `c` to `out` (nothing when the
/// subcommand carries no params).
fn encode_config_params(c: &SubCommand, out: &mut Vec<u8>)
    ensures
        final(out)@ == old(out)@ + spec_config_params_cbor(c),
{
    match c {
        SubCommand::ToggleAlwaysUv => {
            proof {
                assert(out@ =~= old(out)@ + spec_config_params_cbor(c));
            }
        },
        SubCommand::SetMinPinLength(n) => {
            encode_head(5, 1, out);
            encode_uint(1, out);
            encode_uint(*n as u64, out);
            proof {
                assert(out@ =~= old(out)@ + spec_config_params_cbor(c));
            }
        },
        SubCommand::SetMinPinLengthRpIds(rpids) => {
            encode_head(5, 1, out);
            encode_uint(2, out);
            encode_head(4, rpids.len() as u64, out);
            let ghost mid = out@;
            let mut i: usize = 0;
            while i < rpids.len()
                invariant
                    i <= rpids@.len(),
                    out@ == mid + spec_text_items(rpids@.take(i as int)),
                decreases rpids@.len() - i,
            {
                encode_text(rpids[i].as_str(), out);
                i = i + 1;
                proof {
                    assert(rpids@.take(i as int).drop_last() =~= rpids@.take(i as int - 1));
                    assert(out@ =~= mid + spec_text_items(rpids@.take(i as int)));
                }
            }
            proof {
                assert(rpids@.take(rpids@.len() as int) =~= rpids@);
                assert(out@ =~= old(out)@ + spec_config_params_cbor(c));
            }
        },
        SubCommand::ForceChangePin => {
            encode_head(5, 1, out);
            encode_uint(3, out);
            out.push(0xf5);
            proof {
                assert(out@ =~= old(out)@ + spec_config_params_cbor(c));
            }
        },
    }
}

/// Builds the authenticatorConfig request for `sub_command`, signed with
/// `pin_token`: the message 0xFF*32 || 0x0D || id || params is signed with
/// HMAC-SHA-256 truncated to 16 bytes, and the payload is the command byte
/// followed by the canonical CBOR parameter map.
pub fn create_payload(pin_token: &PinToken, sub_command: &SubCommand) -> (r: Vec<u8>)
    ensures
        r@ == spec_config_payload(pin_token.key@, sub_command),
{
    // The signed message: 0xFF*32 || 0x0D || id || params CBOR.
    let mut message: Vec<u8> = Vec::new();
    push_ff32(&mut message);
    message.push(AUTHENTICATOR_CONFIG);
    message.push(sub_command.id());
    encode_config_params(sub_command, &mut message);
    proof {
        assert(message@ =~= spec_config_message(sub_command));
    }
    let sig = authenticate(pin_token.key.as_slice(), message.as_slice());

    let mut payload: Vec<u8> = Vec::new();
    payload.push(AUTHENTICATOR_CONFIG);
    if sub_command.has_param() {
        encode_head(5, 4, &mut payload);
        encode_uint(1, &mut payload);
        encode_uint(sub_command.id() as u64, &mut payload);
        encode_uint(2, &mut payload);
        encode_config_params(sub_command, &mut payload);
    } else {
        encode_head(5, 3, &mut payload);
        encode_uint(1, &mut payload);
        encode_uint(sub_command.id() as u64, &mut payload);
    }
    encode_uint(3, &mut payload);
    encode_uint(1, &mut payload);
    encode_uint(4, &mut payload);
    encode_bytes(sig.as_slice(), &mut payload);
    proof {
        assert(payload@ =~= spec_config_payload(pin_token.key@, sub_command));
    }
    payload
}

/// Law: for every authenticatorConfig subcommand, the signed message is
/// exactly 32 bytes of 0xFF, then 0x0D, then the subcommand id, then the
/// subcommand's params CBOR (empty when it carries none); in particular it
/// is at least 34 bytes long and its fixed prefix is as stated.
pub proof fn lemma_config_message_shape(c: &SubCommand)
    ensures
        spec_config_message(c) == spec_ff32() + seq![AUTHENTICATOR_CONFIG, c.spec_id()]
            + spec_config_params_cbor(c),
        spec_config_message(c).len() == 34 + spec_config_params_cbor(c).len(),
        forall|i: int| 0 <= i < 32 ==> spec_config_message(c)[i] == 0xffu8,
        spec_config_message(c)[32] == AUTHENTICATOR_CONFIG,
        spec_config_message(c)[33] == c.spec_id(),
{
}

/// Law: two subcommands with the same id but different params CBOR sign
/// different messages — a change to any parameter byte changes the signed
/// message.
pub proof fn lemma_config_message_injective(c1: &SubCommand, c2: &SubCommand)
    requires
        c1.spec_id() == c2.spec_id(),
        spec_config_params_cbor(c1) != spec_config_params_cbor(c2),
    ensures
        spec_config_message(c1) != spec_config_message(c2),
{
    if spec_config_message(c1) == spec_config_message(c2) {
        assert(spec_config_message(c1).skip(34) =~= spec_config_params_cbor(c1));
        assert(spec_config_message(c2).skip(34) =~= spec_config_params_cbor(c2));
    }
}

} // verus!
