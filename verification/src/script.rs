//! The scripts that a spending input wraps: the redeem script of a
//! pay-to-script-hash spend and the witness script of a
//! pay-to-witness-script-hash spend.

use vstd::prelude::*;
use vstd::slice::slice_to_vec;
use vstd::string::{StrSliceExecFns, StringExecFns};

verus! {

/// A script as its serialized bytes.
#[derive(Debug, Clone, PartialEq, Eq)]
pub struct Script {
    pub bytes: Vec<u8>,
}

impl View for Script {
    type V = Seq<u8>;

    open spec fn view(&self) -> Seq<u8> {
        self.bytes@
    }
}

/// What is read of a transaction input.
#[derive(Debug, Clone, PartialEq, Eq)]
pub struct TxIn {
    pub script_sig: Script,
    pub witness: Vec<Vec<u8>>,
}

/// What is read of the output that an input spends.
#[derive(Debug, Clone, PartialEq, Eq)]
pub struct TxOut {
    pub script_pubkey: Script,
}

/// The scripts wrapped by a spend, where there are any.
#[derive(Debug, Clone, PartialEq, Eq)]
pub struct InnerScripts {
    pub redeem_script: Option<Script>,
    pub witness_script: Option<Script>,
}

/// The 23 bytes of a pay-to-script-hash output: hash the top item, push 20
/// bytes, compare.
pub open spec fn is_p2sh(script: Seq<u8>) -> bool {
    &&& script.len() == 23
    &&& script[0] == 0xa9u8
    &&& script[1] == 0x14u8
    &&& script[22] == 0x87u8
}

/// The 34 bytes of a version 0 witness program of 32 bytes.
pub open spec fn is_p2wsh(script: Seq<u8>) -> bool {
    &&& script.len() == 34
    &&& script[0] == 0x00u8
    &&& script[1] == 0x20u8
}

/// The bytes that the last instruction of `script` pushes: `None` where the
/// script is empty, where its last instruction is no push of bytes, or
/// where it cannot be read to its end.
pub uninterp spec fn last_pushed_bytes(script: Seq<u8>) -> Option<Seq<u8>>;

pub open spec fn script_view(script: Option<Script>) -> Option<Seq<u8>> {
    match script {
        Some(s) => Some(s@),
        None => None,
    }
}

/// The redeem script of a spend: what the input's script pushes last, where
/// the spent output pays to a script hash.
pub open spec fn spec_redeem_script(script_pubkey: Seq<u8>, last_push: Option<Seq<u8>>) -> Option<
    Seq<u8>,
> {
    if is_p2sh(script_pubkey) {
        last_push
    } else {
        None
    }
}

/// The witness script of a spend: the last item of the witness, where the
/// spent output, or the redeem script, is a witness script hash program.
pub open spec fn spec_witness_script(
    script_pubkey: Seq<u8>,
    redeem_script: Option<Seq<u8>>,
    witness: Seq<Vec<u8>>,
) -> Option<Seq<u8>> {
    if is_p2wsh(script_pubkey) || (redeem_script is Some && is_p2wsh(redeem_script.unwrap())) {
        if witness.len() > 0 {
            Some(witness.last()@)
        } else {
            None
        }
    } else {
        None
    }
}

/// Calls `bitcoin::Script::is_p2sh` on the bytes. That method compares the
/// length with 23 and three bytes with fixed opcodes, which is what
/// `is_p2sh` states.
#[verifier::external_body]
fn script_is_p2sh(script: &[u8]) -> (found: bool)
    ensures
        found == is_p2sh(script@),
{
    bitcoin::Script::from_bytes(script).is_p2sh()
}

/// Calls `bitcoin::Script::is_p2wsh` on the bytes. That method asks for 34
/// bytes that form a witness program of version 0 with a push of 32 bytes;
/// at that length this is what `is_p2wsh` states of the first two bytes.
#[verifier::external_body]
fn script_is_p2wsh(script: &[u8]) -> (found: bool)
    ensures
        found == is_p2wsh(script@),
{
    bitcoin::Script::from_bytes(script).is_p2wsh()
}

/// Walks `bitcoin::Script::instructions` to its last item and hands out the
/// bytes of that item where it is a push. The result is named, not stated.
#[verifier::external_body]
fn script_last_push(script: &[u8]) -> (pushed: Option<Vec<u8>>)
    ensures
        match pushed {
            Some(bytes) => last_pushed_bytes(script@) == Some(bytes@),
            None => last_pushed_bytes(script@) is None,
        },
{
    match bitcoin::Script::from_bytes(script).instructions().last() {
        Some(Ok(bitcoin::script::Instruction::PushBytes(bytes))) => Some(bytes.as_bytes().to_vec()),
        _ => None,
    }
}

/// Picks the wrapped scripts of a spend, given what the input's script
/// pushes last.
pub fn select_innerscripts(
    script_pubkey: &Script,
    last_push: Option<Vec<u8>>,
    witness: &Vec<Vec<u8>>,
) -> (inner: InnerScripts)
    ensures
        script_view(inner.redeem_script) == spec_redeem_script(
            script_pubkey@,
            match last_push {
                Some(bytes) => Some(bytes@),
                None => None,
            },
        ),
        script_view(inner.witness_script) == spec_witness_script(
            script_pubkey@,
            script_view(inner.redeem_script),
            witness@,
        ),
{
    let redeem_script = if script_is_p2sh(script_pubkey.bytes.as_slice()) {
        match last_push {
            Some(bytes) => Some(Script { bytes }),
            None => None,
        }
    } else {
        None
    };
    let wrapped = match &redeem_script {
        Some(script) => script_is_p2wsh(script.bytes.as_slice()),
        None => false,
    };
    let witness_script = if script_is_p2wsh(script_pubkey.bytes.as_slice()) || wrapped {
        if witness.len() > 0 {
            Some(Script { bytes: slice_to_vec(witness[witness.len() - 1].as_slice()) })
        } else {
            None
        }
    } else {
        None
    };
    InnerScripts { redeem_script, witness_script }
}

/// The witness script in the case of a witness script hash spend, and the
/// redeem script in the case of a script hash spend.
pub fn get_innerscripts(txin: &TxIn, prevout: &TxOut) -> (inner: InnerScripts)
    ensures
        script_view(inner.redeem_script) == spec_redeem_script(
            prevout.script_pubkey@,
            last_pushed_bytes(txin.script_sig@),
        ),
        script_view(inner.witness_script) == spec_witness_script(
            prevout.script_pubkey@,
            script_view(inner.redeem_script),
            txin.witness@,
        ),
{
    let last_push = script_last_push(txin.script_sig.bytes.as_slice());
    select_innerscripts(&prevout.script_pubkey, last_push, &txin.witness)
}

/// The assembly text of a script: its instructions by name, pushed bytes
/// in hex.
pub uninterp spec fn script_asm(script: Seq<u8>) -> Seq<char>;

/// Formats the script with the `Debug` of `bitcoin::Script`, which writes
/// the assembly text between `Script(` and `)`.
#[verifier::external_body]
fn script_debug_text(script: &[u8]) -> (text: String)
    ensures
        text@ == "Script("@ + script_asm(script@) + ")"@,
{
    format!("{:?}", bitcoin::Script::from_bytes(script))
}

/// Takes the assembly text out of a script's debug text: what stands
/// between the seven characters of the opening and the one that closes it.
pub fn asm_of_debug_text(text: &str) -> (assembly: String)
    requires
        text@.len() >= 8,
    ensures
        assembly@ == text@.subrange(7, text@.len() - 1),
{
    let len = text.unicode_len();
    String::from_str(text.substring_char(7, len - 1))
}

/// A script that can be written as assembly text.
pub trait ScriptToAsm {
    fn to_asm(&self) -> String;
}

impl ScriptToAsm for Script {
    fn to_asm(&self) -> (assembly: String)
        ensures
            assembly@ == script_asm(self@),
    {
        let text = script_debug_text(self.bytes.as_slice());
        proof {
            reveal_strlit("Script(");
            reveal_strlit(")");
        }
        let assembly = asm_of_debug_text(text.as_str());
        proof {
            assert(assembly@ =~= script_asm(self@));
        }
        assembly
    }
}

} // verus!
