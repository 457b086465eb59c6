//! The settings the relay starts with, and the one check they get.

use crate::util::connector::{
    contract_address_felt, contract_address_from, signer_account, signer_of, ConfigError, Setting,
    SignerAccount, SignerView,
};
use crate::util::felt::{felt_from_hex, Felt};
use crate::util::timeout::{parse_timeout, timeout_of, DEFAULT_TIMEOUT_SECONDS};
use vstd::prelude::*;

verus! {

/// The text of the settings, each as it was found or not found. The
/// timeout may be left out; the others may not.
#[derive(PartialEq, Eq)]
pub struct Settings {
    pub rpc_url: Option<String>,
    pub contract_address: Option<String>,
    pub private_key: Option<String>,
    pub public_key: Option<String>,
    pub chain_id: Option<String>,
    pub timeout: Option<String>,
}

/// Settings as plain values.
pub struct SettingsView {
    pub rpc_url: Option<Seq<char>>,
    pub contract_address: Option<Seq<char>>,
    pub private_key: Option<Seq<char>>,
    pub public_key: Option<Seq<char>>,
    pub chain_id: Option<Seq<char>>,
    pub timeout: Option<Seq<char>>,
}

/// The characters of an optional string.
pub open spec fn text_of(value: Option<String>) -> Option<Seq<char>> {
    match value {
        Some(text) => Some(text@),
        None => None,
    }
}

impl View for Settings {
    type V = SettingsView;

    open spec fn view(&self) -> SettingsView {
        SettingsView {
            rpc_url: text_of(self.rpc_url),
            contract_address: text_of(self.contract_address),
            private_key: text_of(self.private_key),
            public_key: text_of(self.public_key),
            chain_id: text_of(self.chain_id),
            timeout: text_of(self.timeout),
        }
    }
}

/// What a started relay works with: the signer account, the address of
/// the contract and the seconds a submission may take.
#[derive(PartialEq, Eq)]
pub struct Configuration {
    pub signer: SignerAccount,
    pub contract_address: Felt,
    pub timeout_seconds: u64,
}

/// A configuration as plain values.
pub struct ConfigurationView {
    pub signer: SignerView,
    pub contract_address: Seq<u8>,
    pub timeout_seconds: u64,
}

impl View for Configuration {
    type V = ConfigurationView;

    open spec fn view(&self) -> ConfigurationView {
        ConfigurationView {
            signer: self.signer@,
            contract_address: self.contract_address@,
            timeout_seconds: self.timeout_seconds,
        }
    }
}

/// The view of a configuration or the error in its place.
pub open spec fn configuration_result(result: Result<Configuration, ConfigError>) -> Result<
    ConfigurationView,
    ConfigError,
> {
    match result {
        Ok(configuration) => Ok(configuration@),
        Err(error) => Err(error),
    }
}

/// The first setting that was not given, in the order endpoint, private
/// key, public key, chain, contract address.
pub open spec fn first_missing(settings: SettingsView) -> Option<Setting> {
    if settings.rpc_url is None {
        Some(Setting::RpcUrl)
    } else if settings.private_key is None {
        Some(Setting::PrivateKey)
    } else if settings.public_key is None {
        Some(Setting::PublicKey)
    } else if settings.chain_id is None {
        Some(Setting::ChainId)
    } else if settings.contract_address is None {
        Some(Setting::ContractAddress)
    } else {
        None
    }
}

/// The seconds a submission may take: the default where the setting was
/// not given, else what its text stands for.
pub open spec fn timeout_from(text: Option<Seq<char>>) -> Result<u64, ConfigError> {
    match text {
        None => Ok(DEFAULT_TIMEOUT_SECONDS),
        Some(text) => match timeout_of(text) {
            Some(seconds) => Ok(seconds),
            None => Err(ConfigError::Malformed(Setting::Timeout)),
        },
    }
}

/// Reads the timeout setting.
pub fn submission_timeout(text: Option<&str>) -> (seconds: Result<u64, ConfigError>)
    ensures
        seconds == timeout_from(
            match text {
                Some(text) => Some(text@),
                None => None,
            },
        ),
{
    match text {
        None => Ok(DEFAULT_TIMEOUT_SECONDS),
        Some(text) => match parse_timeout(text) {
            Some(seconds) => Ok(seconds),
            None => Err(ConfigError::Malformed(Setting::Timeout)),
        },
    }
}

/// The configuration that settings stand for. A setting that was not given
/// is reported before one that cannot be used; of those, the signer's
/// come first, then the contract's address, then the timeout.
pub open spec fn configuration_of(settings: SettingsView) -> Result<
    ConfigurationView,
    ConfigError,
> {
    match first_missing(settings) {
        Some(setting) => Err(ConfigError::Missing(setting)),
        None => match signer_of(
            settings.rpc_url->0,
            settings.private_key->0,
            settings.public_key->0,
            settings.chain_id->0,
        ) {
            Err(error) => Err(error),
            Ok(signer) => match contract_address_from(
                settings.contract_address->0,
                felt_from_hex(settings.contract_address->0),
            ) {
                Err(error) => Err(error),
                Ok(contract_address) => match timeout_from(settings.timeout) {
                    Err(error) => Err(error),
                    Ok(timeout_seconds) => Ok(
                        ConfigurationView { signer, contract_address, timeout_seconds },
                    ),
                },
            },
        },
    }
}

/// Checks the settings once, at startup: either all of them are given and
/// usable, or the relay does not start.
pub fn configure(settings: &Settings) -> (configuration: Result<Configuration, ConfigError>)
    ensures
        configuration_result(configuration) == configuration_of(settings@),
{
    let rpc_url = match &settings.rpc_url {
        Some(text) => text.as_str(),
        None => { return Err(ConfigError::Missing(Setting::RpcUrl)); },
    };
    let private_key = match &settings.private_key {
        Some(text) => text.as_str(),
        None => { return Err(ConfigError::Missing(Setting::PrivateKey)); },
    };
    let public_key = match &settings.public_key {
        Some(text) => text.as_str(),
        None => { return Err(ConfigError::Missing(Setting::PublicKey)); },
    };
    let chain = match &settings.chain_id {
        Some(text) => text.as_str(),
        None => { return Err(ConfigError::Missing(Setting::ChainId)); },
    };
    let contract = match &settings.contract_address {
        Some(text) => text.as_str(),
        None => { return Err(ConfigError::Missing(Setting::ContractAddress)); },
    };
    let signer = match signer_account(rpc_url, private_key, public_key, chain) {
        Ok(signer) => signer,
        Err(error) => { return Err(error); },
    };
    let contract_address = match contract_address_felt(contract) {
        Ok(contract_address) => contract_address,
        Err(error) => { return Err(error); },
    };
    let timeout = match &settings.timeout {
        Some(text) => Some(text.as_str()),
        None => None,
    };
    match submission_timeout(timeout) {
        Ok(timeout_seconds) => Ok(Configuration { signer, contract_address, timeout_seconds }),
        Err(error) => Err(error),
    }
}

} // verus!
