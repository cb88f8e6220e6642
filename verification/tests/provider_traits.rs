use vista::providers::{BaseGeyserProvider, GeyserRpcProvider, RpcProvider, RpcProviderType};

struct Polling {
    label: String,
}

impl RpcProvider for Polling {
    fn name(&self) -> &str {
        &self.label
    }

    fn provider_type(&self) -> RpcProviderType {
        RpcProviderType::Http
    }
}

#[test]
fn built_in_providers_name_themselves() {
    let geyser = GeyserRpcProvider::new("http://localhost:10000".to_string());
    assert_eq!(geyser.name(), "geyser");
    assert_eq!(geyser.provider_type(), RpcProviderType::Geyser);
    assert_eq!(geyser.url(), "http://localhost:10000");
    let base = BaseGeyserProvider {};
    assert_eq!(base.name(), "base_geyser");
    assert_eq!(base.provider_type(), RpcProviderType::Geyser);
}

#[test]
fn a_provider_written_elsewhere_fits_the_trait() {
    let p = Polling { label: "poll".to_string() };
    assert_eq!(p.name(), "poll");
    assert_eq!(p.provider_type(), RpcProviderType::Http);
}
