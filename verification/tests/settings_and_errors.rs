use vista::config::{parse_addresses, Config, ProgramConfig, ProviderConfig};
use vista::discovery::{
    ingestion_factory_symbol, is_plugin_extension, is_plugin_file, provider_factory_symbol,
    select_plugin_files, storage_factory_symbol,
};
use vista::error::{AnchorError, DecodeError, IndexerError, IngestionError};
use vista::text::labelled;
use vista::models::Address;

const ZERO_ADDRESS: &str = "11111111111111111111111111111111";

#[test]
fn errors_print_their_kind_and_their_detail() {
    assert_eq!(IndexerError::StorageError("disk full".to_string()).to_string(), "Storage error: disk full");
    assert_eq!(IndexerError::RpcError("timeout".to_string()).to_string(), "RPC error: timeout");
    assert_eq!(IndexerError::AnchorError("bad idl".to_string()).to_string(), "Anchor error: bad idl");
    assert_eq!(
        IndexerError::ConfigError("no url".to_string()).to_string(),
        "Configuration error: no url"
    );
    assert_eq!(IngestionError::ProviderError("down".to_string()).to_string(), "Provider error: down");
    assert_eq!(
        IngestionError::SubscriptionError("refused".to_string()).to_string(),
        "Subscription error: refused"
    );
    assert_eq!(
        IngestionError::PluginLoadError("a.so: bad".to_string()).to_string(),
        "Plugin load error: a.so: bad"
    );
    assert_eq!(AnchorError::IdlParseError("eof".to_string()).to_string(), "IDL parsing error: eof");
    assert_eq!(
        AnchorError::AccountDataParseError("short".to_string()).to_string(),
        "Account data parsing error: short"
    );
    assert_eq!(labelled("a", ""), "a");
    assert_eq!(labelled("", "b"), "b");
}

#[test]
fn each_decoding_failure_has_its_own_text() {
    assert_eq!(DecodeError::NotFound.to_string(), "schema or account type not found");
    assert_eq!(DecodeError::Truncated.to_string(), "payload is truncated");
    assert_eq!(DecodeError::UnsupportedType.to_string(), "unsupported field type");
    assert_eq!(DecodeError::MalformedLength.to_string(), "malformed length prefix");
    assert_eq!(
        AnchorError::from_decode_error(DecodeError::Truncated),
        AnchorError::AccountDataParseError("payload is truncated".to_string())
    );
    assert_eq!(
        IndexerError::from_anchor_error(&AnchorError::from_decode_error(DecodeError::NotFound)),
        IndexerError::AnchorError(
            "Account data parsing error: schema or account type not found".to_string()
        )
    );
}

#[test]
fn addresses_are_read_in_order_or_the_first_bad_one_is_named() {
    let a = Address::new_from_array([4; 32]);
    assert_eq!(
        parse_addresses(&vec![ZERO_ADDRESS.to_string(), a.to_string()]),
        Ok(vec![Address::new_from_array([0; 32]), a])
    );
    assert_eq!(parse_addresses(&Vec::new()), Ok(Vec::new()));
    assert_eq!(
        parse_addresses(&vec![a.to_string(), "x".to_string(), "y".to_string()]),
        Err(1)
    );
}

#[test]
fn settings_give_the_addresses_to_track() {
    let mut config = Config::new();
    assert_eq!(config.tracked_account_addresses(), Ok(Vec::new()));
    assert_eq!(config.tracked_program_addresses(), Ok(Vec::new()));
    let a = Address::new_from_array([4; 32]);
    config.tracked_accounts = vec![a.to_string(), ZERO_ADDRESS.to_string()];
    config.tracked_programs = vec![ProgramConfig { address: a.to_string(), idl_path: "a.json".to_string() }];
    config.plugin_dir = Some("plugins".to_string());
    assert_eq!(config.providers.put(
        "http".to_string(),
        ProviderConfig { url: "http://x".to_string(), provider_type: "http".to_string(), priority: 1 },
    ), None);
    assert_eq!(config.tracked_account_addresses(), Ok(vec![a, Address::new_from_array([0; 32])]));
    assert_eq!(config.tracked_program_addresses(), Ok(vec![a]));
    assert_eq!(config.providers.get("http").map(|p| p.priority), Some(1));
    assert_eq!(config.providers.get("geyser"), None);
    config.tracked_accounts.push("oops".to_string());
    config.tracked_accounts.push("worse".to_string());
    assert_eq!(
        config.tracked_account_addresses(),
        Err(IndexerError::ConfigError("invalid address: oops".to_string()))
    );
    config.tracked_programs.insert(0, ProgramConfig { address: "bad".to_string(), idl_path: String::new() });
    assert_eq!(
        config.tracked_program_addresses(),
        Err(IndexerError::ConfigError("invalid address: bad".to_string()))
    );
}

#[test]
fn the_extensions_of_modules_are_so_and_dll() {
    assert!(is_plugin_extension("so"));
    assert!(is_plugin_extension("dll"));
    assert!(!is_plugin_extension("SO"));
    assert!(!is_plugin_extension("dylib"));
    assert!(!is_plugin_extension(".so"));
    assert!(!is_plugin_extension(""));
}

#[test]
fn modules_are_told_by_their_extension() {
    assert!(is_plugin_file("plugins/provider.so"));
    assert!(is_plugin_file("provider.dll"));
    assert!(is_plugin_file("archive.tar.so"));
    assert!(!is_plugin_file("provider.dylib"));
    assert!(!is_plugin_file("provider.SO"));
    assert!(!is_plugin_file("provider"));
    assert!(!is_plugin_file(".so"));
    assert!(!is_plugin_file("plugins.so/readme"));
    assert!(!is_plugin_file("so"));
    assert!(!is_plugin_file(""));
}

#[test]
fn the_modules_of_a_directory_are_picked_in_order() {
    let files = vec![
        "b.so".to_string(),
        "notes.txt".to_string(),
        "a.dll".to_string(),
        ".hidden".to_string(),
        "c.so".to_string(),
    ];
    assert_eq!(select_plugin_files(&files), vec!["b.so", "a.dll", "c.so"]);
    assert!(select_plugin_files(&Vec::new()).is_empty());
    assert!(select_plugin_files(&vec!["x".to_string()]).is_empty());
}

#[test]
fn factories_are_found_under_fixed_symbols() {
    assert_eq!(provider_factory_symbol(), "_plugin_create");
    assert_eq!(ingestion_factory_symbol(), "_create_provider");
    assert_eq!(storage_factory_symbol(), "create_storage_plugin");
}
