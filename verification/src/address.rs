//! Script pubkeys of addresses, among them segwit addresses written with
//! this chain's own human-readable parts.

use vstd::prelude::*;
use vstd::string::StringExecFns;
use crate::script::Script;

verus! {

/// The networks of the chain.
#[derive(Clone, Copy, Debug, PartialEq, Eq, Structural)]
pub enum Network {
    Bitcoin,
    Testnet,
    Testnet4,
    Regtest,
    Signet,
}

/// What the general address parser makes of `addr` for `network`: the
/// script pubkey; `Err(None)` where the text is a segwit address with a
/// human-readable part that the parser does not know; else the parser's
/// message, also where the address belongs to another network.
pub uninterp spec fn upstream_script_pubkey(addr: Seq<char>, network: Network) -> Result<
    Seq<u8>,
    Option<Seq<char>>,
>;

/// What segwit decoding makes of `addr`: the human-readable part in lower
/// case, the witness version and the witness program, or the decoder's
/// message.
pub uninterp spec fn segwit_decoding(addr: Seq<char>) -> Result<(Seq<char>, u8, Seq<u8>), Seq<char>>;

/// The message with which a witness version or program is turned down.
pub uninterp spec fn witness_program_refusal(version: u8, program: Seq<u8>) -> Seq<char>;

/// A witness version is at most 16; a program has 2 to 40 bytes, and 20 or
/// 32 under version 0.
pub open spec fn witness_program_valid(version: u8, program: Seq<u8>) -> bool {
    &&& version <= 16
    &&& 2 <= program.len() <= 40
    &&& version == 0 ==> program.len() == 20 || program.len() == 32
}

/// The script that pays to a witness program: the opcode of the version,
/// then the program as one push.
pub open spec fn witness_script_bytes(version: u8, program: Seq<u8>) -> Seq<u8> {
    seq![
        if version == 0 {
            0x00u8
        } else {
            (0x50 + version) as u8
        },
        program.len() as u8,
    ] + program
}

/// The script pubkey that pays to a witness program, or the message with
/// which the version or the program is turned down.
pub open spec fn witness_program_script(version: u8, program: Seq<u8>) -> Result<
    Seq<u8>,
    Seq<char>,
> {
    if witness_program_valid(version, program) {
        Ok(witness_script_bytes(version, program))
    } else {
        Err(witness_program_refusal(version, program))
    }
}

/// The human-readable part of the segwit addresses of `network`.
pub open spec fn spec_expected_hrp(network: Network) -> Seq<char> {
    match network {
        Network::Bitcoin => "fc"@,
        Network::Testnet | Network::Testnet4 | Network::Signet => "tf"@,
        Network::Regtest => "fcrt"@,
    }
}

/// The message for an address of another network.
pub open spec fn invalid_network_text(expected: Seq<char>, got: Seq<char>) -> Seq<char> {
    "Address on invalid network: expected hrp '"@ + expected + "', got '"@ + got + "'"@
}

pub open spec fn script_result_view(result: Result<Script, String>) -> Result<Seq<u8>, Seq<char>> {
    match result {
        Ok(script) => Ok(script@),
        Err(message) => Err(message@),
    }
}

pub open spec fn decoded_view(decoded: Result<(String, u8, Vec<u8>), String>) -> Result<
    (Seq<char>, u8, Seq<u8>),
    Seq<char>,
> {
    match decoded {
        Ok((hrp, version, program)) => Ok((hrp@, version, program@)),
        Err(message) => Err(message@),
    }
}

pub open spec fn upstream_view(parsed: Result<Script, Option<String>>) -> Result<
    Seq<u8>,
    Option<Seq<char>>,
> {
    match parsed {
        Ok(script) => Ok(script@),
        Err(Some(message)) => Err(Some(message@)),
        Err(None) => Err(None),
    }
}

/// The script pubkey of a decoded segwit address of this chain: the
/// decoder's message where decoding failed; a message that names both
/// parts where the human-readable part is not the network's; else the
/// script of the witness program, or the message that turns it down.
pub open spec fn spec_flokicoin_script(
    decoded: Result<(Seq<char>, u8, Seq<u8>), Seq<char>>,
    network: Network,
) -> Result<Seq<u8>, Seq<char>> {
    match decoded {
        Err(message) => Err(message),
        Ok((hrp, version, program)) => if hrp != spec_expected_hrp(network) {
            Err(invalid_network_text(spec_expected_hrp(network), hrp))
        } else {
            witness_program_script(version, program)
        },
    }
}

/// The script pubkey of an address: what the general parser gives, and,
/// where it does not know the human-readable part, what this chain's own
/// segwit reading gives.
pub open spec fn spec_script_pubkey(
    upstream: Result<Seq<u8>, Option<Seq<char>>>,
    decoded: Result<(Seq<char>, u8, Seq<u8>), Seq<char>>,
    network: Network,
) -> Result<Seq<u8>, Seq<char>> {
    match upstream {
        Ok(script) => Ok(script),
        Err(Some(message)) => Err(message),
        Err(None) => spec_flokicoin_script(decoded, network),
    }
}

/// Parses with `bitcoin::Address::from_str`, asks `require_network` for the
/// network and takes `script_pubkey` of the checked address. An unknown
/// human-readable part comes back as `Err(None)`, every other error as its
/// `to_string`. The result is named, not stated.
#[verifier::external_body]
fn parse_upstream(addr: &str, network: Network) -> (parsed: Result<Script, Option<String>>)
    ensures
        upstream_view(parsed) == upstream_script_pubkey(addr@, network),
{
    let required = match network {
        Network::Bitcoin => bitcoin::Network::Bitcoin,
        Network::Testnet => bitcoin::Network::Testnet,
        Network::Testnet4 => bitcoin::Network::Testnet4,
        Network::Regtest => bitcoin::Network::Regtest,
        Network::Signet => bitcoin::Network::Signet,
    };
    match addr.parse::<bitcoin::Address<bitcoin::address::NetworkUnchecked>>() {
        Ok(parsed) => match parsed.require_network(required) {
            Ok(checked) => Ok(Script { bytes: checked.script_pubkey().into_bytes() }),
            Err(err) => Err(Some(err.to_string())),
        },
        Err(bitcoin::address::ParseError::UnknownHrp(_)) => Err(None),
        Err(err) => Err(Some(err.to_string())),
    }
}

/// Calls `bech32::segwit::decode` and hands out the human-readable part in
/// lower case, the witness version as a number and the program, or the
/// error's `to_string`. The result is named, not stated.
#[verifier::external_body]
fn decode_segwit(addr: &str) -> (decoded: Result<(String, u8, Vec<u8>), String>)
    ensures
        decoded_view(decoded) == segwit_decoding(addr@),
{
    match bitcoin::bech32::segwit::decode(addr) {
        Ok((hrp, version, program)) => Ok((hrp.to_lowercase(), version.to_u8(), program)),
        Err(err) => Err(err.to_string()),
    }
}

/// Builds the witness program with `bitcoin::WitnessVersion::try_from` and
/// `bitcoin::WitnessProgram::new` and takes its script from
/// `bitcoin::ScriptBuf::new_witness_program`. Those two checks accept
/// exactly what `witness_program_valid` states, and the script is the
/// version's opcode followed by one push of the program; the message of a
/// refusal is named.
#[verifier::external_body]
fn script_of_witness_program(version: u8, program: &[u8]) -> (script: Result<Script, String>)
    ensures
        match script {
            Ok(built) => witness_program_valid(version, program@) && built@ == witness_script_bytes(
                version,
                program@,
            ),
            Err(message) => !witness_program_valid(version, program@) && message@
                == witness_program_refusal(version, program@),
        },
{
    let version = match bitcoin::WitnessVersion::try_from(version) {
        Ok(version) => version,
        Err(err) => return Err(err.to_string()),
    };
    match bitcoin::WitnessProgram::new(version, program) {
        Ok(program) => Ok(Script { bytes: bitcoin::ScriptBuf::new_witness_program(&program).into_bytes() }),
        Err(err) => Err(err.to_string()),
    }
}

/// Writes the message for an address of another network.
fn invalid_network_message(expected: &str, got: &str) -> (message: String)
    ensures
        message@ == invalid_network_text(expected@, got@),
{
    let mut message = String::from_str("Address on invalid network: expected hrp '");
    message.append(expected);
    message.append("', got '");
    message.append(got);
    message.append("'");
    message
}

/// The human-readable part of the segwit addresses of `network`.
pub fn expected_hrp(network: Network) -> (hrp: &'static str)
    ensures
        hrp@ == spec_expected_hrp(network),
{
    match network {
        Network::Bitcoin => "fc",
        Network::Testnet | Network::Testnet4 | Network::Signet => "tf",
        Network::Regtest => "fcrt",
    }
}

/// The script pubkey of a segwit address of this chain, from what segwit
/// decoding made of it.
pub fn flokicoin_script_from_decoded(
    decoded: Result<(String, u8, Vec<u8>), String>,
    network: Network,
) -> (script: Result<Script, String>)
    ensures
        script_result_view(script) == spec_flokicoin_script(decoded_view(decoded), network),
{
    match decoded {
        Err(message) => Err(message),
        Ok((hrp, version, program)) => {
            let expected = expected_hrp(network);
            if hrp != expected.to_owned() {
                Err(invalid_network_message(expected, hrp.as_str()))
            } else {
                script_of_witness_program(version, program.as_slice())
            }
        },
    }
}

/// Reads a segwit address written with one of this chain's human-readable
/// parts.
pub fn parse_flokicoin_bech32(addr: &str, network: Network) -> (script: Result<Script, String>)
    ensures
        script_result_view(script) == spec_flokicoin_script(segwit_decoding(addr@), network),
{
    flokicoin_script_from_decoded(decode_segwit(addr), network)
}

/// Settles on the script pubkey of an address, given what the general
/// parser made of it: its script, its message, or, where it does not know
/// the human-readable part, this chain's own reading of the address.
pub fn script_pubkey_from_parsed(
    parsed: Result<Script, Option<String>>,
    addr: &str,
    network: Network,
) -> (script: Result<Script, String>)
    ensures
        script_result_view(script) == spec_script_pubkey(
            upstream_view(parsed),
            segwit_decoding(addr@),
            network,
        ),
{
    match parsed {
        Ok(script) => Ok(script),
        Err(Some(message)) => Err(message),
        Err(None) => parse_flokicoin_bech32(addr, network),
    }
}

/// Produces the script pubkey associated with an address. The general
/// parser is tried first; an address whose human-readable part it does not
/// know is read as a segwit address of this chain.
pub fn script_pubkey_from_address(addr: &str, network: Network) -> (script: Result<Script, String>)
    ensures
        script_result_view(script) == spec_script_pubkey(
            upstream_script_pubkey(addr@, network),
            segwit_decoding(addr@),
            network,
        ),
{
    script_pubkey_from_parsed(parse_upstream(addr, network), addr, network)
}

/// What the general address rules make of a script.
#[derive(Debug, Clone, PartialEq, Eq)]
pub enum AddressForm {
    /// A witness program, which is a segwit address.
    Segwit { version: u8, program: Vec<u8> },
    /// Any other address, in its text form.
    Other { text: String },
}

/// The plain value of an `AddressForm`.
pub enum AddressFormView {
    Segwit { version: u8, program: Seq<u8> },
    Other { text: Seq<char> },
}

impl View for AddressForm {
    type V = AddressFormView;

    open spec fn view(&self) -> AddressFormView {
        match *self {
            AddressForm::Segwit { version, program } => AddressFormView::Segwit {
                version,
                program: program@,
            },
            AddressForm::Other { text } => AddressFormView::Other { text: text@ },
        }
    }
}

/// The address that the general rules give to `script` on `network`:
/// `None` where the script is of no kind that has an address.
pub uninterp spec fn upstream_address(script: Seq<u8>, network: Network) -> Option<AddressFormView>;

/// The segwit address text of a witness program under a human-readable
/// part, or `None` where the encoder turns the program down.
pub uninterp spec fn segwit_encoding(hrp: Seq<char>, version: u8, program: Seq<u8>) -> Option<
    Seq<char>,
>;

pub open spec fn form_view(form: Option<AddressForm>) -> Option<AddressFormView> {
    match form {
        Some(f) => Some(f@),
        None => None,
    }
}

pub open spec fn text_view(text: Option<String>) -> Option<Seq<char>> {
    match text {
        Some(t) => Some(t@),
        None => None,
    }
}

/// The address text of a script: a witness program is written as a segwit
/// address under this chain's human-readable part for the network, any
/// other address as the general rules write it.
pub open spec fn spec_address_text(form: Option<AddressFormView>, network: Network) -> Option<
    Seq<char>,
> {
    match form {
        None => None,
        Some(AddressFormView::Segwit { version, program }) => segwit_encoding(
            spec_expected_hrp(network),
            version,
            program,
        ),
        Some(AddressFormView::Other { text }) => Some(text),
    }
}

/// Calls `bitcoin::Address::from_script` and reads the address with
/// `to_address_data`: the version and bytes of a witness program, or the
/// address's `to_string`. The result is named, not stated.
#[verifier::external_body]
fn address_of_script(script: &[u8], network: Network) -> (form: Option<AddressForm>)
    ensures
        form_view(form) == upstream_address(script@, network),
{
    let params = match network {
        Network::Bitcoin => bitcoin::Network::Bitcoin,
        Network::Testnet => bitcoin::Network::Testnet,
        Network::Testnet4 => bitcoin::Network::Testnet4,
        Network::Regtest => bitcoin::Network::Regtest,
        Network::Signet => bitcoin::Network::Signet,
    };
    let address = bitcoin::Address::from_script(bitcoin::Script::from_bytes(script), params).ok()?;
    Some(match address.to_address_data() {
        bitcoin::address::AddressData::Segwit { witness_program: p } => AddressForm::Segwit {
            version: p.version().to_num(),
            program: p.program().as_bytes().to_vec(),
        },
        _ => AddressForm::Other { text: address.to_string() },
    })
}

/// Calls `bech32::segwit::encode` under the human-readable part `hrp`,
/// which `bech32::Hrp::parse_unchecked` takes as it is. The result is
/// named, not stated.
#[verifier::external_body]
fn encode_segwit(hrp: &str, version: u8, program: &[u8]) -> (text: Option<String>)
    requires
        hrp@ == "fc"@ || hrp@ == "tf"@ || hrp@ == "fcrt"@,
    ensures
        text_view(text) == segwit_encoding(hrp@, version, program@),
{
    match bitcoin::bech32::Fe32::try_from(version) {
        Ok(v) => bitcoin::bech32::segwit::encode(bitcoin::bech32::Hrp::parse_unchecked(hrp), v, program).ok(),
        Err(_) => None,
    }
}

/// Writes the address of a script, given what the general rules make of
/// the script.
pub fn address_text_from_form(form: Option<AddressForm>, network: Network) -> (text: Option<String>)
    ensures
        text_view(text) == spec_address_text(form_view(form), network),
{
    match form {
        None => None,
        Some(AddressForm::Segwit { version, program }) => encode_segwit(
            expected_hrp(network),
            version,
            program.as_slice(),
        ),
        Some(AddressForm::Other { text }) => Some(text),
    }
}

/// A script that can be written as an address.
pub trait ScriptToAddr {
    /// The address of the script on `network`, where it has one.
    fn to_address_str(&self, network: Network) -> Option<String>;
}

impl ScriptToAddr for Script {
    fn to_address_str(&self, network: Network) -> (text: Option<String>)
        ensures
            text_view(text) == spec_address_text(upstream_address(self@, network), network),
    {
        address_text_from_form(address_of_script(self.bytes.as_slice(), network), network)
    }
}

} // verus!
