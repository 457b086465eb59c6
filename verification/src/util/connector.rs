//! Address shape and the values a connection to the chain is configured with.

use crate::util::felt::{
    felt_from_hex, mainnet_chain_id, parse_hex, sepolia_chain_id, short_string, view_of, Felt,
};
use crate::util::text::same_text;
use vstd::prelude::*;
use vstd::string::*;

verus! {

/// What every address starts with.
pub const ADDRESS_PREFIX: &'static str = "0x";

/// The number of characters of an address, the prefix included.
pub const ADDRESS_LENGTH: usize = 66;

/// An ASCII hexadecimal digit, in either case.
pub open spec fn is_hex_digit(c: char) -> bool {
    ('0' <= c && c <= '9') || ('a' <= c && c <= 'f') || ('A' <= c && c <= 'F')
}

/// `s` begins with the characters of `prefix`.
pub open spec fn starts_with(s: Seq<char>, prefix: Seq<char>) -> bool {
    prefix.len() <= s.len() && s.subrange(0, prefix.len() as int) == prefix
}

/// The shape of an address: the prefix, then hexadecimal digits up to the
/// fixed length.
pub open spec fn valid_address(s: Seq<char>) -> bool {
    &&& starts_with(s, ADDRESS_PREFIX@)
    &&& s.len() == ADDRESS_LENGTH
    &&& forall|i: int| 2 <= i < s.len() ==> is_hex_digit(#[trigger] s[i])
}

/// The byte of an ASCII hexadecimal digit.
pub open spec fn is_hex_byte(b: u8) -> bool {
    (0x30 <= b && b <= 0x39) || (0x61 <= b && b <= 0x66) || (0x41 <= b && b <= 0x46)
}

fn hex_byte(b: u8) -> (hex: bool)
    ensures
        hex == is_hex_byte(b),
{
    (0x30 <= b && b <= 0x39) || (0x61 <= b && b <= 0x66) || (0x41 <= b && b <= 0x46)
}

/// An address consists of ASCII characters only.
pub proof fn lemma_valid_address_is_ascii(s: Seq<char>)
    requires
        valid_address(s),
    ensures
        vstd::utf8::is_ascii_chars(s),
{
    reveal_strlit("0x");
    assert forall|i: int| 0 <= i < s.len() implies '\0' <= #[trigger] s[i] <= '\u{7f}' by {
        if i < 2 {
            assert(s.subrange(0, 2)[i] == s[i]);
        } else {
            assert(is_hex_digit(s[i]));
        }
    }
}

/// An address has exactly the fixed length, begins with `0` and `x`, and
/// holds hexadecimal digits from there on; and nothing else is an address.
pub proof fn lemma_valid_address_shape(s: Seq<char>)
    ensures
        valid_address(s) <==> {
            &&& s.len() == 66
            &&& s[0] == '0'
            &&& s[1] == 'x'
            &&& forall|i: int| 2 <= i < 66 ==> is_hex_digit(#[trigger] s[i])
        },
{
    reveal_strlit("0x");
    if s.len() == 66 {
        assert(s.subrange(0, 2)[0] == s[0]);
        assert(s.subrange(0, 2)[1] == s[1]);
        if s[0] == '0' && s[1] == 'x' {
            assert(s.subrange(0, 2) =~= ADDRESS_PREFIX@);
        }
    }
}

/// The empty string, a string longer than an address and a string with a
/// character outside ASCII are no addresses.
pub proof fn lemma_malformed_is_rejected(s: Seq<char>)
    requires
        s.len() == 0 || s.len() > ADDRESS_LENGTH || !vstd::utf8::is_ascii_chars(s),
    ensures
        !valid_address(s),
{
    if valid_address(s) {
        lemma_valid_address_is_ascii(s);
    }
}

/// Returns true if the wallet address is valid.
pub fn is_valid_address(address: &str) -> (valid: bool)
    ensures
        valid == valid_address(address@),
{
    proof {
        reveal_strlit("0x");
    }
    if !address.is_ascii() {
        proof {
            if valid_address(address@) {
                lemma_valid_address_is_ascii(address@);
            }
        }
        return false;
    }
    broadcast use is_ascii_spec_bytes;

    let bytes = address.as_bytes();
    if bytes.len() != ADDRESS_LENGTH {
        return false;
    }
    if bytes[0] != 0x30 || bytes[1] != 0x78 {
        assert(address@.subrange(0, 2)[0] == address@[0]);
        assert(address@.subrange(0, 2)[1] == address@[1]);
        return false;
    }
    assert(address@.subrange(0, 2) =~= ADDRESS_PREFIX@);
    let mut i: usize = 2;
    while i < ADDRESS_LENGTH
        invariant
            2 <= i <= ADDRESS_LENGTH,
            bytes@.len() == ADDRESS_LENGTH,
            address@.len() == ADDRESS_LENGTH,
            is_ascii(address),
            bytes@ == address.spec_bytes(),
            forall|j: int| 2 <= j < i ==> is_hex_digit(#[trigger] address@[j]),
        decreases ADDRESS_LENGTH - i,
    {
        if !hex_byte(bytes[i]) {
            assert(!is_hex_digit(address@[i as int]));
            return false;
        }
        i += 1;
    }
    true
}

/// One of the values the relay is configured with at startup.
#[derive(Clone, Copy, Debug, PartialEq, Eq, Structural)]
pub enum Setting {
    RpcUrl,
    ContractAddress,
    PrivateKey,
    PublicKey,
    ChainId,
    Timeout,
}

impl Setting {
    /// The name of the environment variable that holds the setting.
    pub open spec fn variable_name(self) -> Seq<char> {
        match self {
            Setting::RpcUrl => "RPC_URL"@,
            Setting::ContractAddress => "CONTRACT_ADDRESS"@,
            Setting::PrivateKey => "PRIVATE_KEY"@,
            Setting::PublicKey => "PUBLIC_KEY"@,
            Setting::ChainId => "CHAIN_ID"@,
            Setting::Timeout => "SUBMISSION_TIMEOUT"@,
        }
    }

    /// The name of the environment variable that holds the setting.
    pub fn variable(self) -> (name: &'static str)
        ensures
            name@ == self.variable_name(),
    {
        match self {
            Setting::RpcUrl => "RPC_URL",
            Setting::ContractAddress => "CONTRACT_ADDRESS",
            Setting::PrivateKey => "PRIVATE_KEY",
            Setting::PublicKey => "PUBLIC_KEY",
            Setting::ChainId => "CHAIN_ID",
            Setting::Timeout => "SUBMISSION_TIMEOUT",
        }
    }
}

/// Why the relay cannot start.
#[derive(Clone, Copy, Debug, PartialEq, Eq, Structural)]
pub enum ConfigError {
    /// The setting was not given.
    Missing(Setting),
    /// The setting was given, and its value cannot be used.
    Malformed(Setting),
}

/// The networks a transaction can be signed for.
#[derive(Clone, Copy, Debug, PartialEq, Eq, Structural)]
pub enum Network {
    Mainnet,
    Sepolia,
}

/// The name a network is configured by.
pub open spec fn network_name(network: Network) -> Seq<char> {
    match network {
        Network::Mainnet => "SN_MAIN"@,
        Network::Sepolia => "SN_SEPOLIA"@,
    }
}

/// The network configured by `text`, if it names one.
pub open spec fn network_of(text: Seq<char>) -> Option<Network> {
    if text == network_name(Network::Mainnet) {
        Some(Network::Mainnet)
    } else if text == network_name(Network::Sepolia) {
        Some(Network::Sepolia)
    } else {
        None
    }
}

/// Reads the name of a network. The choice is never guessed: any text but
/// the two names is refused.
pub fn parse_network(text: &str) -> (network: Option<Network>)
    ensures
        network == network_of(text@),
{
    if same_text(text, "SN_MAIN") {
        Some(Network::Mainnet)
    } else if same_text(text, "SN_SEPOLIA") {
        Some(Network::Sepolia)
    } else {
        None
    }
}

/// The chain identifier of a network: its name as a short string.
pub fn chain_id(network: Network) -> (id: Felt)
    ensures
        id@ == short_string(network_name(network)),
{
    match network {
        Network::Mainnet => mainnet_chain_id(),
        Network::Sepolia => sepolia_chain_id(),
    }
}

/// Whether the `url` crate reads an absolute URL from the text.
pub uninterp spec fn url_parses(text: Seq<char>) -> bool;

/// Calls `Url::parse`, as `starknet` hands it on from the `url` crate, and
/// tells whether it returned a URL. The contract claims that this depends
/// on the characters of `text` and on nothing else.
#[verifier::external_body]
fn parse_url(text: &str) -> (parsed: bool)
    ensures
        parsed == url_parses(text@),
{
    starknet::providers::Url::parse(text).is_ok()
}

/// The endpoint of the JSON-RPC provider: the text of a URL that parses.
pub fn rpc_provider(url: &str) -> (endpoint: Result<String, ConfigError>)
    ensures
        url_parses(url@) ==> endpoint is Ok && endpoint->Ok_0@ == url@,
        !url_parses(url@) ==> endpoint == Err::<String, ConfigError>(
            ConfigError::Malformed(Setting::RpcUrl),
        ),
{
    if parse_url(url) {
        Ok(url.to_owned())
    } else {
        Err(ConfigError::Malformed(Setting::RpcUrl))
    }
}

/// What the address of the contract is, given its text and what was parsed
/// from it.
pub open spec fn contract_address_from(text: Seq<char>, parsed: Option<Seq<u8>>) -> Result<
    Seq<u8>,
    ConfigError,
> {
    match parsed {
        Some(bytes) if valid_address(text) => Ok(bytes),
        _ => Err(ConfigError::Malformed(Setting::ContractAddress)),
    }
}

/// The view of an element or the error in its place.
pub open spec fn felt_result(result: Result<Felt, ConfigError>) -> Result<Seq<u8>, ConfigError> {
    match result {
        Ok(felt) => Ok(felt@),
        Err(error) => Err(error),
    }
}

/// Decides on the contract's address once its text has been parsed: the
/// text has to have the shape of an address and to stand for an element.
pub fn checked_contract_address(text: &str, parsed: Option<Felt>) -> (address: Result<
    Felt,
    ConfigError,
>)
    ensures
        felt_result(address) == contract_address_from(text@, view_of(parsed)),
{
    match parsed {
        Some(felt) => {
            if is_valid_address(text) {
                Ok(felt)
            } else {
                Err(ConfigError::Malformed(Setting::ContractAddress))
            }
        },
        None => Err(ConfigError::Malformed(Setting::ContractAddress)),
    }
}

/// The address of the contract that pay requests are forwarded to.
pub fn contract_address_felt(text: &str) -> (address: Result<Felt, ConfigError>)
    ensures
        felt_result(address) == contract_address_from(text@, felt_from_hex(text@)),
{
    checked_contract_address(text, parse_hex(text))
}

/// Who signs, and for which chain: the signer's private scalar, the address
/// of its account and the chain identifier, with the endpoint they are used
/// on. It is made once at startup and only read afterwards.
#[derive(PartialEq, Eq)]
pub struct SignerAccount {
    pub rpc_url: String,
    pub private_key: Felt,
    pub address: Felt,
    pub chain_id: Felt,
}

/// A signer account as plain values.
pub struct SignerView {
    pub rpc_url: Seq<char>,
    pub private_key: Seq<u8>,
    pub address: Seq<u8>,
    pub chain_id: Seq<u8>,
}

impl View for SignerAccount {
    type V = SignerView;

    open spec fn view(&self) -> SignerView {
        SignerView {
            rpc_url: self.rpc_url@,
            private_key: self.private_key@,
            address: self.address@,
            chain_id: self.chain_id@,
        }
    }
}

/// The view of a signer account or the error in its place.
pub open spec fn signer_result(result: Result<SignerAccount, ConfigError>) -> Result<
    SignerView,
    ConfigError,
> {
    match result {
        Ok(account) => Ok(account@),
        Err(error) => Err(error),
    }
}

/// The signer account made of parsed settings. The first setting that did
/// not parse, in the order private key, public key, chain, is the error.
pub open spec fn signer_from(
    rpc_url: Seq<char>,
    private_key: Option<Seq<u8>>,
    public_key: Option<Seq<u8>>,
    network: Option<Network>,
) -> Result<SignerView, ConfigError> {
    if private_key is None {
        Err(ConfigError::Malformed(Setting::PrivateKey))
    } else if public_key is None {
        Err(ConfigError::Malformed(Setting::PublicKey))
    } else if network is None {
        Err(ConfigError::Malformed(Setting::ChainId))
    } else {
        Ok(
            SignerView {
                rpc_url,
                private_key: private_key->0,
                address: public_key->0,
                chain_id: short_string(network_name(network->0)),
            },
        )
    }
}

/// The signer account that four settings stand for: the endpoint has to be
/// a URL, both keys field elements in hexadecimal, the chain a network's
/// name.
pub open spec fn signer_of(
    rpc_url: Seq<char>,
    private_key: Seq<char>,
    public_key: Seq<char>,
    chain: Seq<char>,
) -> Result<SignerView, ConfigError> {
    if !url_parses(rpc_url) {
        Err(ConfigError::Malformed(Setting::RpcUrl))
    } else {
        signer_from(
            rpc_url,
            felt_from_hex(private_key),
            felt_from_hex(public_key),
            network_of(chain),
        )
    }
}

/// Puts a signer account together from an endpoint and parsed settings.
pub fn signer_from_parts(
    rpc_url: String,
    private_key: Option<Felt>,
    public_key: Option<Felt>,
    network: Option<Network>,
) -> (account: Result<SignerAccount, ConfigError>)
    ensures
        signer_result(account) == signer_from(
            rpc_url@,
            view_of(private_key),
            view_of(public_key),
            network,
        ),
{
    let private_key = match private_key {
        Some(felt) => felt,
        None => { return Err(ConfigError::Malformed(Setting::PrivateKey)); },
    };
    let address = match public_key {
        Some(felt) => felt,
        None => { return Err(ConfigError::Malformed(Setting::PublicKey)); },
    };
    let network = match network {
        Some(network) => network,
        None => { return Err(ConfigError::Malformed(Setting::ChainId)); },
    };
    Ok(SignerAccount { rpc_url, private_key, address, chain_id: chain_id(network) })
}

/// Builds the signer account from the text of its settings.
pub fn signer_account(
    rpc_url: &str,
    private_key: &str,
    public_key: &str,
    chain: &str,
) -> (account: Result<SignerAccount, ConfigError>)
    ensures
        signer_result(account) == signer_of(rpc_url@, private_key@, public_key@, chain@),
{
    let endpoint = match rpc_provider(rpc_url) {
        Ok(endpoint) => endpoint,
        Err(error) => { return Err(error); },
    };
    signer_from_parts(
        endpoint,
        parse_hex(private_key),
        parse_hex(public_key),
        parse_network(chain),
    )
}

/// One call of a contract: the contract, the entry point and the arguments.
#[derive(Debug, PartialEq, Eq)]
pub struct Call {
    pub to: Felt,
    pub selector: Felt,
    pub calldata: Vec<Felt>,
}

/// A call as plain values.
pub struct CallView {
    pub to: Seq<u8>,
    pub selector: Seq<u8>,
    pub calldata: Seq<Seq<u8>>,
}

impl View for Call {
    type V = CallView;

    open spec fn view(&self) -> CallView {
        CallView {
            to: self.to@,
            selector: self.selector@,
            calldata: self.calldata@.map_values(|felt: Felt| felt@),
        }
    }
}

/// The name of the contract function that a pay request calls.
pub const PAY_FUNCTION: &'static str = "pay";

/// The call that pays `recipient`: the contract's pay function with the
/// recipient as its only argument.
pub open spec fn pay_call_of(contract_address: Seq<u8>, selector: Seq<u8>, recipient: Seq<u8>)
    -> CallView {
    CallView { to: contract_address, selector, calldata: seq![recipient] }
}

/// Builds the call that pays `recipient`.
pub fn pay_call(contract_address: Felt, selector: Felt, recipient: Felt) -> (call: Call)
    ensures
        call@ == pay_call_of(contract_address@, selector@, recipient@),
{
    let call = Call { to: contract_address, selector, calldata: vec![recipient] };
    assert(call.calldata@.map_values(|felt: Felt| felt@) =~= seq![recipient@]);
    call
}

} // verus!
