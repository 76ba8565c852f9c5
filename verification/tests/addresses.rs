use chain_store::address::{
    address_text_from_form, expected_hrp, flokicoin_script_from_decoded, parse_flokicoin_bech32,
    script_pubkey_from_address, script_pubkey_from_parsed, AddressForm, Network, ScriptToAddr,
};
use chain_store::script::{asm_of_debug_text, Script, ScriptToAsm};

fn script(bytes: &[u8]) -> Script {
    Script { bytes: bytes.to_vec() }
}

fn p2wpkh() -> Script {
    let mut bytes = vec![0x00u8, 0x14];
    bytes.extend_from_slice(&[
        0x75, 0x1e, 0x76, 0xe8, 0x19, 0x91, 0x96, 0xd4, 0x54, 0x94, 0x1c, 0x45, 0xd1, 0xb3, 0xa3,
        0x23, 0xf1, 0x43, 0x3b, 0xd6,
    ]);
    script(&bytes)
}

fn p2pkh() -> Script {
    let mut bytes = vec![0x76u8, 0xa9, 0x14];
    bytes.extend_from_slice(&[0x11u8; 20]);
    bytes.extend_from_slice(&[0x88, 0xac]);
    script(&bytes)
}

#[test]
fn expected_hrp_by_network() {
    assert_eq!(expected_hrp(Network::Bitcoin), "fc");
    assert_eq!(expected_hrp(Network::Testnet), "tf");
    assert_eq!(expected_hrp(Network::Testnet4), "tf");
    assert_eq!(expected_hrp(Network::Signet), "tf");
    assert_eq!(expected_hrp(Network::Regtest), "fcrt");
}

#[test]
fn general_segwit_address_gives_its_script() {
    let parsed =
        script_pubkey_from_address("bc1qw508d6qejxtdg4y5r3zarvary0c5xw7kv8f3t4", Network::Bitcoin);
    assert_eq!(parsed, Ok(p2wpkh()));
}

#[test]
fn general_address_of_another_network_is_an_error() {
    let parsed =
        script_pubkey_from_address("bc1qw508d6qejxtdg4y5r3zarvary0c5xw7kv8f3t4", Network::Testnet);
    assert!(parsed.is_err());
}

#[test]
fn garbage_is_an_error() {
    assert!(script_pubkey_from_address("not an address", Network::Bitcoin).is_err());
    assert!(script_pubkey_from_address("", Network::Regtest).is_err());
    assert!(parse_flokicoin_bech32("not an address", Network::Bitcoin).is_err());
}

#[test]
fn segwit_script_is_written_with_the_chain_prefix() {
    let main = p2wpkh().to_address_str(Network::Bitcoin).unwrap();
    assert!(main.starts_with("fc1q"));
    let test = p2wpkh().to_address_str(Network::Testnet).unwrap();
    assert!(test.starts_with("tf1q"));
    assert_eq!(p2wpkh().to_address_str(Network::Signet), Some(test));
    let regtest = p2wpkh().to_address_str(Network::Regtest).unwrap();
    assert!(regtest.starts_with("fcrt1q"));
}

#[test]
fn chain_address_reads_back_to_its_script() {
    for network in [Network::Bitcoin, Network::Testnet, Network::Testnet4, Network::Signet, Network::Regtest] {
        let text = p2wpkh().to_address_str(network).unwrap();
        assert_eq!(script_pubkey_from_address(&text, network), Ok(p2wpkh()));
        assert_eq!(parse_flokicoin_bech32(&text, network), Ok(p2wpkh()));
    }
}

#[test]
fn chain_address_of_another_network_names_both_parts() {
    let text = p2wpkh().to_address_str(Network::Bitcoin).unwrap();
    assert_eq!(
        script_pubkey_from_address(&text, Network::Regtest),
        Err("Address on invalid network: expected hrp 'fcrt', got 'fc'".to_string())
    );
    let text = p2wpkh().to_address_str(Network::Regtest).unwrap();
    assert_eq!(
        parse_flokicoin_bech32(&text, Network::Testnet),
        Err("Address on invalid network: expected hrp 'tf', got 'fcrt'".to_string())
    );
}

#[test]
fn upper_case_chain_address_is_read() {
    let text = p2wpkh().to_address_str(Network::Bitcoin).unwrap().to_uppercase();
    assert_eq!(script_pubkey_from_address(&text, Network::Bitcoin), Ok(p2wpkh()));
}

#[test]
fn legacy_script_is_written_as_the_general_rules_do() {
    let text = p2pkh().to_address_str(Network::Bitcoin).unwrap();
    assert!(text.starts_with('1'));
    assert_eq!(script_pubkey_from_address(&text, Network::Bitcoin), Ok(p2pkh()));
}

#[test]
fn script_without_an_address() {
    assert_eq!(script(&[0x6a, 0x01, 0x00]).to_address_str(Network::Bitcoin), None);
    assert_eq!(script(&[]).to_address_str(Network::Regtest), None);
}

#[test]
fn decoded_parts_decide_the_script() {
    let program = vec![7u8; 32];
    let mut expected = vec![0x00u8, 0x20];
    expected.extend_from_slice(&program);
    assert_eq!(
        flokicoin_script_from_decoded(Ok(("fc".to_string(), 0, program.clone())), Network::Bitcoin),
        Ok(script(&expected))
    );
    let mut taproot = vec![0x51u8, 0x20];
    taproot.extend_from_slice(&program);
    assert_eq!(
        flokicoin_script_from_decoded(Ok(("tf".to_string(), 1, program.clone())), Network::Signet),
        Ok(script(&taproot))
    );
    assert_eq!(
        flokicoin_script_from_decoded(Ok(("bc".to_string(), 0, program.clone())), Network::Bitcoin),
        Err("Address on invalid network: expected hrp 'fc', got 'bc'".to_string())
    );
    assert_eq!(
        flokicoin_script_from_decoded(Err("no".to_string()), Network::Bitcoin),
        Err("no".to_string())
    );
}

#[test]
fn invalid_witness_programs_are_turned_down() {
    let ok = |version: u8, len: usize| {
        flokicoin_script_from_decoded(Ok(("fc".to_string(), version, vec![1u8; len])), Network::Bitcoin)
            .is_ok()
    };
    assert!(ok(0, 20));
    assert!(ok(0, 32));
    assert!(!ok(0, 21));
    assert!(!ok(0, 2));
    assert!(ok(1, 2));
    assert!(ok(16, 40));
    assert!(!ok(16, 41));
    assert!(!ok(1, 1));
    assert!(!ok(17, 32));
}

#[test]
fn parsed_result_decides_the_script() {
    assert_eq!(
        script_pubkey_from_parsed(Ok(script(&[1, 2])), "ignored", Network::Bitcoin),
        Ok(script(&[1, 2]))
    );
    assert_eq!(
        script_pubkey_from_parsed(Err(Some("bad".to_string())), "ignored", Network::Bitcoin),
        Err("bad".to_string())
    );
    let text = p2wpkh().to_address_str(Network::Regtest).unwrap();
    assert_eq!(script_pubkey_from_parsed(Err(None), &text, Network::Regtest), Ok(p2wpkh()));
}

#[test]
fn address_form_decides_the_text() {
    assert_eq!(address_text_from_form(None, Network::Bitcoin), None);
    assert_eq!(
        address_text_from_form(Some(AddressForm::Other { text: "1abc".to_string() }), Network::Bitcoin),
        Some("1abc".to_string())
    );
    let form = AddressForm::Segwit { version: 0, program: p2wpkh().bytes[2..].to_vec() };
    assert_eq!(
        address_text_from_form(Some(form), Network::Bitcoin),
        p2wpkh().to_address_str(Network::Bitcoin)
    );
    let bad = AddressForm::Segwit { version: 0, program: vec![1u8; 5] };
    assert_eq!(address_text_from_form(Some(bad), Network::Bitcoin), None);
    let bad = AddressForm::Segwit { version: 40, program: vec![1u8; 20] };
    assert_eq!(address_text_from_form(Some(bad), Network::Bitcoin), None);
}

#[test]
fn assembly_text_of_scripts() {
    assert_eq!(script(&[]).to_asm(), "");
    assert_eq!(script(&[0x51]).to_asm(), "OP_PUSHNUM_1");
    assert_eq!(script(&[0x01, 0xaa, 0x87]).to_asm(), "OP_PUSHBYTES_1 aa OP_EQUAL");
}

#[test]
fn assembly_text_is_cut_out_of_the_debug_text() {
    assert_eq!(asm_of_debug_text("Script(OP_RETURN)"), "OP_RETURN");
    assert_eq!(asm_of_debug_text("Script()"), "");
    assert_eq!(asm_of_debug_text("Script(OP_DUP OP_HASH160)"), "OP_DUP OP_HASH160");
}
