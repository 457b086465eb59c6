use paymesh::util::connector::{
    chain_id, checked_contract_address, contract_address_felt, parse_network, pay_call,
    rpc_provider, signer_account, signer_from_parts, ConfigError, Network, Setting, PAY_FUNCTION,
};
use paymesh::util::felt::{Felt, FELT_BYTES};

const RPC_URL: &str = "https://rpc.example/rpc/v0_8";
const PRIVATE_KEY: &str = "0x1234";
const PUBLIC_KEY: &str = "0x02d1b0a4ed9f5a2f3c4e5d6b7a8990a1b2c3d4e5f60718293a4b5c6d7e8f9012";
const CONTRACT: &str = "0x049d36570d4e46f48e99674bd3fcc84644ddd6b96f7c741b1562b82f9e004dc7";

fn felt(last: &[u8]) -> Felt {
    let mut bytes = [0u8; 32];
    bytes[32 - last.len()..].copy_from_slice(last);
    Felt { bytes }
}

#[test]
fn felt_has_32_bytes() {
    assert_eq!(FELT_BYTES, 32);
}

#[test]
fn contract_address_is_parsed_to_its_bytes() {
    let address = contract_address_felt(CONTRACT).unwrap();
    assert_eq!(
        address.bytes,
        [
            0x04, 0x9d, 0x36, 0x57, 0x0d, 0x4e, 0x46, 0xf4, 0x8e, 0x99, 0x67, 0x4b, 0xd3, 0xfc,
            0xc8, 0x46, 0x44, 0xdd, 0xd6, 0xb9, 0x6f, 0x7c, 0x74, 0x1b, 0x15, 0x62, 0xb8, 0x2f,
            0x9e, 0x00, 0x4d, 0xc7
        ]
    );
}

#[test]
fn contract_address_in_upper_case_is_the_same_element() {
    let lower = contract_address_felt(CONTRACT).unwrap();
    let upper = contract_address_felt(&format!("0x{}", CONTRACT[2..].to_uppercase())).unwrap();
    assert_eq!(lower, upper);
}

#[test]
fn contract_address_of_another_shape_is_malformed() {
    let malformed = Err(ConfigError::Malformed(Setting::ContractAddress));
    assert_eq!(contract_address_felt("0x1"), malformed);
    assert_eq!(contract_address_felt(""), malformed);
    assert_eq!(contract_address_felt(&CONTRACT[2..]), malformed);
    assert_eq!(contract_address_felt(&format!("0x{}", "g".repeat(64))), malformed);
}

#[test]
fn contract_address_above_the_modulus_is_malformed() {
    let malformed = Err(ConfigError::Malformed(Setting::ContractAddress));
    assert_eq!(contract_address_felt(&format!("0x{}", "f".repeat(64))), malformed);
    let above = format!("0x0800000000000011{}2", "0".repeat(47));
    assert_eq!(above.len(), 66);
    assert_eq!(contract_address_felt(&above), malformed);
}

#[test]
fn largest_element_is_a_contract_address() {
    let largest = format!("0x0800000000000011{}", "0".repeat(48));
    let address = contract_address_felt(&largest).unwrap();
    let mut bytes = [0u8; 32];
    bytes[0] = 0x08;
    bytes[7] = 0x11;
    assert_eq!(address.bytes, bytes);
}

#[test]
fn checked_contract_address_needs_shape_and_element() {
    let one = felt(&[1]);
    let malformed = Err(ConfigError::Malformed(Setting::ContractAddress));
    assert_eq!(checked_contract_address(CONTRACT, Some(one)), Ok(one));
    assert_eq!(checked_contract_address(CONTRACT, None), malformed);
    assert_eq!(checked_contract_address("0x1", Some(one)), malformed);
    assert_eq!(checked_contract_address("0x1", None), malformed);
}

#[test]
fn network_names() {
    assert_eq!(parse_network("SN_MAIN"), Some(Network::Mainnet));
    assert_eq!(parse_network("SN_SEPOLIA"), Some(Network::Sepolia));
    assert_eq!(parse_network("sn_main"), None);
    assert_eq!(parse_network("mainnet"), None);
    assert_eq!(parse_network("SN_GOERLI"), None);
    assert_eq!(parse_network(""), None);
    assert_eq!(parse_network("SN_MAIN "), None);
}

#[test]
fn chain_id_is_the_name_as_short_string() {
    assert_eq!(chain_id(Network::Mainnet), felt(b"SN_MAIN"));
    assert_eq!(chain_id(Network::Sepolia), felt(b"SN_SEPOLIA"));
}

#[test]
fn chain_id_matches_the_chain_constants() {
    assert_eq!(
        chain_id(Network::Mainnet).bytes,
        starknet::core::chain_id::MAINNET.to_bytes_be()
    );
    assert_eq!(
        chain_id(Network::Sepolia).bytes,
        starknet::core::chain_id::SEPOLIA.to_bytes_be()
    );
}

#[test]
fn rpc_provider_keeps_a_url() {
    assert_eq!(rpc_provider(RPC_URL), Ok(RPC_URL.to_string()));
    assert_eq!(rpc_provider("http://localhost:5050"), Ok("http://localhost:5050".to_string()));
}

#[test]
fn rpc_provider_refuses_what_is_no_url() {
    let malformed = Err(ConfigError::Malformed(Setting::RpcUrl));
    assert_eq!(rpc_provider(""), malformed);
    assert_eq!(rpc_provider("not a url"), malformed);
    assert_eq!(rpc_provider("/relative/path"), malformed);
    assert_eq!(rpc_provider("https://"), malformed);
}

#[test]
fn signer_account_from_settings() {
    let account = signer_account(RPC_URL, PRIVATE_KEY, PUBLIC_KEY, "SN_SEPOLIA").ok().unwrap();
    assert_eq!(account.rpc_url, RPC_URL);
    assert_eq!(account.private_key, felt(&[0x12, 0x34]));
    assert_eq!(account.address.bytes[0], 0x02);
    assert_eq!(account.address.bytes[1], 0xd1);
    assert_eq!(account.address.bytes[31], 0x12);
    assert_eq!(account.chain_id, felt(b"SN_SEPOLIA"));
}

#[test]
fn signer_account_reports_the_first_malformed_setting() {
    let error = |rpc_url: &str, private_key: &str, public_key: &str, chain: &str| {
        signer_account(rpc_url, private_key, public_key, chain).err()
    };
    assert_eq!(
        error("nowhere", "0xzz", "0xzz", "nothing"),
        Some(ConfigError::Malformed(Setting::RpcUrl))
    );
    assert_eq!(
        error(RPC_URL, "0xzz", "0xzz", "nothing"),
        Some(ConfigError::Malformed(Setting::PrivateKey))
    );
    assert_eq!(
        error(RPC_URL, PRIVATE_KEY, "0xzz", "nothing"),
        Some(ConfigError::Malformed(Setting::PublicKey))
    );
    assert_eq!(
        error(RPC_URL, PRIVATE_KEY, PUBLIC_KEY, "nothing"),
        Some(ConfigError::Malformed(Setting::ChainId))
    );
    assert_eq!(error(RPC_URL, PRIVATE_KEY, PUBLIC_KEY, "SN_MAIN"), None);
}

#[test]
fn signer_account_refuses_an_empty_key() {
    assert_eq!(
        signer_account(RPC_URL, "", PUBLIC_KEY, "SN_MAIN").err(),
        Some(ConfigError::Malformed(Setting::PrivateKey))
    );
    assert_eq!(
        signer_account(RPC_URL, PRIVATE_KEY, "0x", "SN_MAIN").err(),
        Some(ConfigError::Malformed(Setting::PublicKey))
    );
}

#[test]
fn signer_from_parts_keeps_the_parts() {
    let account = signer_from_parts(
        RPC_URL.to_string(),
        Some(felt(&[7])),
        Some(felt(&[8])),
        Some(Network::Mainnet),
    )
    .ok()
    .unwrap();
    assert_eq!(account.rpc_url, RPC_URL);
    assert_eq!(account.private_key, felt(&[7]));
    assert_eq!(account.address, felt(&[8]));
    assert_eq!(account.chain_id, felt(b"SN_MAIN"));
}

#[test]
fn signer_from_parts_reports_the_first_missing_part() {
    let url = || RPC_URL.to_string();
    let one = Some(felt(&[1]));
    assert_eq!(
        signer_from_parts(url(), None, None, None).err(),
        Some(ConfigError::Malformed(Setting::PrivateKey))
    );
    assert_eq!(
        signer_from_parts(url(), one, None, None).err(),
        Some(ConfigError::Malformed(Setting::PublicKey))
    );
    assert_eq!(
        signer_from_parts(url(), one, one, None).err(),
        Some(ConfigError::Malformed(Setting::ChainId))
    );
}

#[test]
fn pay_call_has_one_argument() {
    let call = pay_call(felt(&[1]), felt(&[2]), felt(&[3]));
    assert_eq!(call.to, felt(&[1]));
    assert_eq!(call.selector, felt(&[2]));
    assert_eq!(call.calldata, vec![felt(&[3])]);
    assert_eq!(PAY_FUNCTION, "pay");
}

#[test]
fn settings_are_named_by_their_variables() {
    assert_eq!(Setting::RpcUrl.variable(), "RPC_URL");
    assert_eq!(Setting::ContractAddress.variable(), "CONTRACT_ADDRESS");
    assert_eq!(Setting::PrivateKey.variable(), "PRIVATE_KEY");
    assert_eq!(Setting::PublicKey.variable(), "PUBLIC_KEY");
    assert_eq!(Setting::ChainId.variable(), "CHAIN_ID");
    assert_eq!(Setting::Timeout.variable(), "SUBMISSION_TIMEOUT");
}
