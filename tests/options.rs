use breez_liquid_wrapper::model::Network;
use breez_liquid_wrapper::options::WalletOptions;
use lwk_signer::SwSigner;
use lwk_wollet::{ElectrumUrl, WolletDescriptor};

const MNEMONIC: &str = "abandon abandon abandon abandon abandon abandon abandon abandon abandon abandon abandon about";
const DESCRIPTOR: &str = "ct(slip77(9c8e4f05c7711a98c838be228bcb84924d4570ca53f35fa1c793e58841d47023),elwpkh(xpub661MyMwAqRbcFtXgS5sYJABqqG9YLmC4Q1Rdap9gSE8NqtwybGhePY2gZ29ESFjqJoCu1Rupje8YtGqsefD265TMg7usUDFdp6W1EGMcet8/<0;1>/*))";

fn options(network: Network, electrum_url: Option<ElectrumUrl>) -> WalletOptions {
    WalletOptions {
        signer: SwSigner::new(MNEMONIC, network == Network::Liquid).unwrap(),
        network,
        descriptor: DESCRIPTOR.parse::<WolletDescriptor>().unwrap(),
        data_dir_path: None,
        electrum_url,
    }
}

#[test]
fn mainnet_default_electrum_server() {
    let url = options(Network::Liquid, None).get_electrum_url();
    assert_eq!(url, ElectrumUrl::Tls("blockstream.info:995".to_string(), true));
}

#[test]
fn testnet_default_electrum_server() {
    let url = options(Network::LiquidTestnet, None).get_electrum_url();
    assert_eq!(url, ElectrumUrl::Tls("blockstream.info:465".to_string(), true));
}

#[test]
fn configured_electrum_server_is_kept() {
    let custom = ElectrumUrl::new("example.com:50001", false, false).unwrap();
    let url = options(Network::LiquidTestnet, Some(custom.clone())).get_electrum_url();
    assert_eq!(url, custom);
}

#[test]
fn networks_map_to_the_wallet_library_networks() {
    assert_eq!(Network::Liquid.elements_network(), lwk_wollet::ElementsNetwork::Liquid);
    assert_eq!(
        Network::LiquidTestnet.elements_network(),
        lwk_wollet::ElementsNetwork::LiquidTestnet
    );
}
