use vstd::prelude::*;

use lwk_wollet::UrlError;
use lwk_wollet::elements::AssetId;
use lwk_wollet::{ElectrumUrl, ElementsNetwork};

use crate::model::Network;

verus! {

#[verifier::external_type_specification]
pub struct ExElectrumUrl(ElectrumUrl);

#[verifier::external_type_specification]
#[verifier::external_body]
pub struct ExUrlError(UrlError);

#[verifier::external_type_specification]
#[verifier::external_body]
pub struct ExAssetId(AssetId);

#[verifier::external_type_specification]
pub struct ExElementsNetwork(ElementsNetwork);

#[verifier::external_type_specification]
#[verifier::external_body]
pub struct ExSwSigner(lwk_signer::SwSigner);

#[verifier::external_type_specification]
#[verifier::external_body]
pub struct ExWolletDescriptor(lwk_wollet::WolletDescriptor);

/// Whether `s` begins with one of the two schemes that an Electrum
/// `host:port` must be given without.
pub open spec fn has_url_scheme(s: Seq<char>) -> bool {
    s.len() >= 6 && (s.subrange(0, 6) == "tcp://"@ || s.subrange(0, 6) == "ssl://"@)
}

/// An Electrum endpoint as plain values: host and port, whether TLS is used,
/// and whether the server's domain is validated.
pub open spec fn electrum_url_view(u: ElectrumUrl) -> (Seq<char>, bool, bool) {
    match u {
        ElectrumUrl::Tls(host_port, validate_domain) => (host_port@, true, validate_domain),
        ElectrumUrl::Plaintext(host_port) => (host_port@, false, false),
    }
}

/// Relies on ElectrumUrl::new: a `host:port` written with a
/// scheme is refused, as is domain validation without TLS; otherwise the
/// endpoint keeps the given text and flags.
pub assume_specification[ ElectrumUrl::new ](host_port: &str, tls: bool, validate_domain: bool) -> (r: Result<ElectrumUrl, UrlError>)
    ensures
        r is Ok == (!has_url_scheme(host_port@) && (tls || !validate_domain)),
        r is Ok ==> electrum_url_view(r->Ok_0) == (host_port@, tls, tls && validate_domain),
;

/// The Electrum server used for `network` when none is configured.
pub open spec fn default_electrum_url(network: Network) -> (Seq<char>, bool, bool) {
    match network {
        Network::Liquid => ("blockstream.info:995"@, true, true),
        Network::LiquidTestnet => ("blockstream.info:465"@, true, true),
    }
}

impl Network {
    /// The wallet library's name for this network.
    pub fn elements_network(self) -> (r: ElementsNetwork)
        ensures
            self == Network::Liquid ==> r == ElementsNetwork::Liquid,
            self == Network::LiquidTestnet ==> r == ElementsNetwork::LiquidTestnet,
    {
        match self {
            Network::Liquid => ElementsNetwork::Liquid,
            Network::LiquidTestnet => ElementsNetwork::LiquidTestnet,
        }
    }
}

/// Everything a wallet session is built from.
pub struct WalletOptions {
    pub signer: lwk_signer::SwSigner,
    pub network: Network,
    /// Output script descriptor.
    pub descriptor: lwk_wollet::WolletDescriptor,
    /// Absolute or relative path to the data dir, including the dir name.
    pub data_dir_path: Option<String>,
    /// Custom Electrum server; it must serve the network of `network`.
    /// When not set, a Blockstream server for that network is used.
    pub electrum_url: Option<ElectrumUrl>,
}

fn copy_electrum_url(u: &ElectrumUrl) -> (r: ElectrumUrl)
    ensures
        electrum_url_view(r) == electrum_url_view(*u),
{
    match u {
        ElectrumUrl::Tls(host_port, validate_domain) => ElectrumUrl::Tls(
            host_port.clone(),
            *validate_domain,
        ),
        ElectrumUrl::Plaintext(host_port) => ElectrumUrl::Plaintext(
            host_port.clone(),
        ),
    }
}

impl WalletOptions {
    /// The Electrum server the session connects to: the configured one, or
    /// the fixed default for the network.
    pub fn get_electrum_url(&self) -> (r: ElectrumUrl)
        ensures
            self.electrum_url matches Some(u) ==> electrum_url_view(r) == electrum_url_view(u),
            self.electrum_url is None ==> electrum_url_view(r) == default_electrum_url(
                self.network,
            ),
    {
        match &self.electrum_url {
            Some(u) => copy_electrum_url(u),
            None => {
                let host_port = match self.network {
                    Network::Liquid => "blockstream.info:995",
                    Network::LiquidTestnet => "blockstream.info:465",
                };
                proof {
                    reveal_strlit("blockstream.info:995");
                    reveal_strlit("blockstream.info:465");
                    reveal_strlit("tcp://");
                    reveal_strlit("ssl://");
                    assert(host_port@.subrange(0, 6)[0] == 'b');
                }
                match ElectrumUrl::new(host_port, true, true) {
                    Ok(u) => u,
                    Err(_) => ElectrumUrl::Tls(host_port.to_owned(), true),
                }
            },
        }
    }
}

/// Without a configured server, every network resolves to its fixed
/// default: TLS with domain validation, on the network's own port.
pub proof fn lemma_default_electrum_url(network: Network)
    ensures
        default_electrum_url(network).1,
        default_electrum_url(network).2,
        network == Network::Liquid ==> default_electrum_url(network).0 == "blockstream.info:995"@,
        network == Network::LiquidTestnet ==> default_electrum_url(network).0
            == "blockstream.info:465"@,
{
}

} // verus!
