use base64::Engine;
use chacha20poly1305::aead::Aead;
use chacha20poly1305::KeyInit;
use novacl_core::config::crypto::{
    decrypt_string, encrypt_string, init_encryption_key, KeySlot, KEY_LENGTH, NONCE_LENGTH,
    TAG_LENGTH,
};
use novacl_core::config::error::{
    ConfigError, GlobalConfigError, InstanceConfigError, ProfileConfigError,
};
use novacl_core::config::manager::{
    delete_instance_config, get_global_config_backup_path, get_instance_config,
    get_profile_config, get_profile_config_backup_path, init_config, save_instance_config,
    save_profile_config, sibling_of, ConfigCache, ConfigManager, InstanceWritten, Removed,
    Stored, Written,
};
use novacl_core::config::types::{
    AccessibilityConfig, AdvancedLaunchConfig, BasicLaunchConfig, ComponentConfig,
    CustomizeConfig, DebugConfig, InstanceConfig, JavaConfig, LaunchConfig, LauncherConfig,
    NetworkConfig, Profile, ProfileConfig, RamConfig,
};

const KEY_HEX: &str = "000102030405060708090a0B0c0D0e0F101112131415161718191a1b1c1d1e1f";

fn keys() -> KeySlot {
    let mut keys = KeySlot::new();
    assert_eq!(init_encryption_key(&mut keys, Some(KEY_HEX)), Ok(()));
    keys
}

fn profile(uuid: &str) -> Profile {
    Profile {
        kind: "msa".to_string(),
        refresh_token: "token".to_string(),
        uuid: uuid.to_string(),
        id: None,
    }
}

fn key_error(message: &str) -> ConfigError {
    ConfigError::KeyGenerationError(message.to_string())
}

#[test]
fn test_config() {
    let mut manager = ConfigManager::new("/data/NovaCL".to_string());
    let mut keys = KeySlot::new();
    assert_eq!(init_config(&mut manager, &mut keys, Some(KEY_HEX), Stored::Absent), Ok(()));
    assert!(keys.is_initialized());
    assert!(manager.profile_config_cached());
    let loaded = get_profile_config(&mut manager, Stored::Absent).unwrap();
    assert_eq!(loaded.profile.len(), 0);

    let instance = InstanceConfig {
        name: "Test Instance".to_string(),
        description: "A test instance".to_string(),
        mc_version: "1.20.1".to_string(),
        loader_type: "vanilla".to_string(),
        loader_version: "".to_string(),
        launch_count: 0,
        category: 0,
        path: None,
        icon: None,
        last_launch: None,
    };
    assert_eq!(save_instance_config(&manager, InstanceWritten::Done), Ok(()));
    let read = get_instance_config(&manager, "/tmp/instance", Stored::Parsed(instance.clone()));
    assert_eq!(read, Ok(instance));

    let mut accounts = ProfileConfig::default();
    accounts.profile.push(profile("aa2e9f5f-5349-4bab-b0ac-d9b658845263"));
    let sealed = encrypt_string(&keys, &accounts.profile[0].refresh_token).unwrap();
    assert_eq!(decrypt_string(&keys, &sealed), Ok("token".to_string()));
    assert_eq!(save_profile_config(&mut manager, &accounts, Written::Done), Ok(()));
    let reloaded = get_profile_config(&mut manager, Stored::Absent).unwrap();
    assert_eq!(reloaded, accounts);

    assert_eq!(delete_instance_config(&manager, "/tmp/instance", Removed::Done), Ok(()));
}

#[test]
fn key_is_set_from_hex_once() {
    let mut keys = KeySlot::new();
    assert!(!keys.is_initialized());
    assert_eq!(
        init_encryption_key(&mut keys, None),
        Err(key_error("Missing APP_ENCRYPTION_KEY"))
    );
    assert_eq!(
        init_encryption_key(&mut keys, Some("not hex")),
        Err(key_error("Invalid hex key"))
    );
    assert_eq!(init_encryption_key(&mut keys, Some("abc")), Err(key_error("Invalid hex key")));
    assert_eq!(
        init_encryption_key(&mut keys, Some("00ff")),
        Err(key_error("Invalid key length (expected 32 bytes)"))
    );
    assert_eq!(
        init_encryption_key(&mut keys, Some("")),
        Err(key_error("Invalid key length (expected 32 bytes)"))
    );
    assert!(!keys.is_initialized());
    assert_eq!(init_encryption_key(&mut keys, Some(KEY_HEX)), Ok(()));
    assert!(keys.is_initialized());
    assert_eq!(
        init_encryption_key(&mut keys, Some(KEY_HEX)),
        Err(key_error("Key already initialized"))
    );
    assert_eq!(
        init_encryption_key(&mut keys, Some("zz")),
        Err(key_error("Invalid hex key"))
    );
    assert!(keys.is_initialized());
    assert_eq!(KEY_LENGTH, 32);
    assert_eq!(NONCE_LENGTH, 12);
    assert_eq!(TAG_LENGTH, 16);
}

#[test]
fn encryption_needs_a_key() {
    let keys = KeySlot::new();
    assert_eq!(
        encrypt_string(&keys, "secret"),
        Err(key_error("Encryption key not initialized"))
    );
    assert_eq!(
        decrypt_string(&keys, "AAAA"),
        Err(key_error("Encryption key not initialized"))
    );
}

#[test]
fn encryption_with_a_given_nonce_is_known() {
    let keys = keys();
    let nonce: Vec<u8> = (0u8..12).collect();
    let first = keys.encrypt_with_nonce(&nonce, "secret").unwrap();
    let second = keys.encrypt_with_nonce(&nonce, "secret").unwrap();
    assert_eq!(first, second);
    assert!(first.starts_with("AAECAwQFBgcICQoL"));
    assert_eq!(first.len(), (12 + 6 + 16) * 4 / 3 + 1);
    assert!(!first.contains('='));
    assert_eq!(keys.decrypt_string(&first), Ok("secret".to_string()));
    assert_eq!(
        keys.encrypt_with_nonce(&vec![0u8; 11], "secret"),
        Err(ConfigError::EncryptionError("Encryption failed".to_string()))
    );
    assert_eq!(
        keys.encrypt_with_nonce(&Vec::new(), "secret"),
        Err(ConfigError::EncryptionError("Encryption failed".to_string()))
    );
    let other = keys.encrypt_with_nonce(&vec![9u8; 12], "secret").unwrap();
    assert_ne!(first, other);
    assert_eq!(keys.decrypt_string(&other), Ok("secret".to_string()));
}

#[test]
fn encryption_round_trip() {
    let keys = keys();
    for text in ["", "token", "päss wörd ✓", "a much longer text that spans more than one block of the cipher, to be sure"] {
        let sealed = encrypt_string(&keys, text).unwrap();
        assert_ne!(sealed, text);
        assert_eq!(decrypt_string(&keys, &sealed), Ok(text.to_string()));
    }
    let one = encrypt_string(&keys, "same").unwrap();
    let two = encrypt_string(&keys, "same").unwrap();
    assert_ne!(one, two);
}

#[test]
fn decryption_failures() {
    let keys = keys();
    assert!(matches!(
        decrypt_string(&keys, "not base64!"),
        Err(ConfigError::Base64DecodeError(_))
    ));
    assert!(matches!(
        decrypt_string(&keys, "AAAA="),
        Err(ConfigError::Base64DecodeError(_))
    ));
    assert_eq!(
        decrypt_string(&keys, "AAAA"),
        Err(ConfigError::DecryptionError("Invalid encrypted data".to_string()))
    );
    assert_eq!(
        decrypt_string(&keys, ""),
        Err(ConfigError::DecryptionError("Invalid encrypted data".to_string()))
    );
    let sealed = encrypt_string(&keys, "secret").unwrap();
    let mut forged = sealed.clone().into_bytes();
    let last = forged.len() - 2;
    forged[last] = if forged[last] == b'A' { b'B' } else { b'A' };
    assert_eq!(
        decrypt_string(&keys, &String::from_utf8(forged).unwrap()),
        Err(ConfigError::DecryptionError("Decryption failed".to_string()))
    );
    let mut other = KeySlot::new();
    let other_key = "ff".repeat(32);
    assert_eq!(init_encryption_key(&mut other, Some(&other_key)), Ok(()));
    assert_eq!(
        decrypt_string(&other, &sealed),
        Err(ConfigError::DecryptionError("Decryption failed".to_string()))
    );
}

#[test]
fn plaintext_that_is_no_text_is_a_utf8_error() {
    let keys = keys();
    let key: Vec<u8> = (0u8..32).collect();
    let nonce = [7u8; 12];
    let cipher = chacha20poly1305::ChaCha20Poly1305::new(chacha20poly1305::Key::from_slice(&key));
    let sealed = cipher
        .encrypt(chacha20poly1305::Nonce::from_slice(&nonce), [0xffu8, 0xfe].as_slice())
        .unwrap();
    let mut combined = nonce.to_vec();
    combined.extend_from_slice(&sealed);
    let encoded = base64::engine::general_purpose::URL_SAFE_NO_PAD.encode(&combined);
    assert!(matches!(decrypt_string(&keys, &encoded), Err(ConfigError::Utf8Error(_))));
    let text = cipher
        .encrypt(chacha20poly1305::Nonce::from_slice(&nonce), "héllo".as_bytes())
        .unwrap();
    let mut combined = nonce.to_vec();
    combined.extend_from_slice(&text);
    let encoded = base64::engine::general_purpose::URL_SAFE_NO_PAD.encode(&combined);
    assert_eq!(decrypt_string(&keys, &encoded), Ok("héllo".to_string()));
    assert_eq!(keys.encrypt_with_nonce(&nonce.to_vec(), "héllo"), Ok(encoded));
}

#[test]
fn init_config_fails_without_key_and_loads_nothing() {
    let mut manager = ConfigManager::new("data".to_string());
    let mut keys = KeySlot::new();
    assert_eq!(
        init_config(&mut manager, &mut keys, None, Stored::Absent),
        Err(key_error("Missing APP_ENCRYPTION_KEY"))
    );
    assert!(!manager.profile_config_cached());
    assert!(!keys.is_initialized());
}

#[test]
fn init_config_passes_over_unreadable_accounts() {
    let mut manager = ConfigManager::new("data".to_string());
    let mut keys = KeySlot::new();
    assert_eq!(
        init_config(
            &mut manager,
            &mut keys,
            Some(KEY_HEX),
            Stored::Malformed("bad toml".to_string())
        ),
        Ok(())
    );
    assert!(!manager.profile_config_cached());
    let mut accounts = ProfileConfig::default();
    accounts.profile.push(profile("u1"));
    assert_eq!(
        get_profile_config(&mut manager, Stored::Parsed(accounts.clone())),
        Ok(accounts)
    );
}

#[test]
fn profile_load_prefers_cache() {
    let mut manager = ConfigManager::new("data".to_string());
    assert_eq!(
        get_profile_config(&mut manager, Stored::Unreadable("denied".to_string())),
        Err(ProfileConfigError::ConfigError(ConfigError::ReadError("denied".to_string())))
    );
    assert!(!manager.profile_config_cached());
    assert_eq!(
        get_profile_config(&mut manager, Stored::Malformed("line 3".to_string())),
        Err(ProfileConfigError::ConfigError(ConfigError::ParseError("line 3".to_string())))
    );
    let mut accounts = ProfileConfig::default();
    accounts.profile.push(profile("u1"));
    accounts.profile.push(Profile { id: Some("Steve".to_string()), ..profile("u2") });
    assert_eq!(
        get_profile_config(&mut manager, Stored::Parsed(accounts.clone())),
        Ok(accounts.clone())
    );
    assert!(manager.profile_config_cached());
    assert_eq!(
        get_profile_config(&mut manager, Stored::Unreadable("denied".to_string())),
        Ok(accounts.clone())
    );
    assert_eq!(get_profile_config(&mut manager, Stored::Absent), Ok(accounts));
}

#[test]
fn profile_save_updates_cache_only_when_written() {
    let mut manager = ConfigManager::new("data".to_string());
    let mut accounts = ProfileConfig::default();
    accounts.profile.push(profile("u1"));
    assert_eq!(
        save_profile_config(&mut manager, &accounts, Written::NotSerialized("no".to_string())),
        Err(ProfileConfigError::ConfigError(ConfigError::SerializeError("no".to_string())))
    );
    assert_eq!(
        save_profile_config(&mut manager, &accounts, Written::NotWritten("full".to_string())),
        Err(ProfileConfigError::ConfigError(ConfigError::ReadError("full".to_string())))
    );
    assert!(!manager.profile_config_cached());
    assert_eq!(save_profile_config(&mut manager, &accounts, Written::Done), Ok(()));
    assert_eq!(get_profile_config(&mut manager, Stored::Absent), Ok(accounts.clone()));
    let emptied = ProfileConfig::default();
    assert_eq!(
        save_profile_config(&mut manager, &emptied, Written::NotWritten("full".to_string())),
        Err(ProfileConfigError::ConfigError(ConfigError::ReadError("full".to_string())))
    );
    assert_eq!(get_profile_config(&mut manager, Stored::Absent), Ok(accounts));
    assert_eq!(save_profile_config(&mut manager, &emptied, Written::Done), Ok(()));
    assert_eq!(get_profile_config(&mut manager, Stored::Absent), Ok(emptied));
}

#[test]
fn generic_cache() {
    let mut cache: ConfigCache<DebugConfig> = ConfigCache::new();
    assert!(!cache.is_cached());
    let fresh = DebugConfig::default();
    assert_eq!(cache.load(fresh.clone(), Stored::Absent), Ok(fresh.clone()));
    assert!(cache.is_cached());
    let on = DebugConfig { debug_mode: true };
    assert_eq!(cache.load(fresh.clone(), Stored::Parsed(on.clone())), Ok(fresh.clone()));
    assert_eq!(cache.save(&on, Written::Done), Ok(()));
    assert_eq!(cache.load(fresh, Stored::Absent), Ok(on));
}

#[test]
fn instance_config_outcomes() {
    let manager = ConfigManager::new("data".to_string());
    assert_eq!(
        get_instance_config(&manager, "/games/one", Stored::Absent),
        Err(InstanceConfigError::InstanceNotFound("/games/one".to_string()))
    );
    assert_eq!(
        get_instance_config(&manager, "/games/one", Stored::Unreadable("denied".to_string())),
        Err(InstanceConfigError::ConfigError(ConfigError::ReadError("denied".to_string())))
    );
    assert_eq!(
        get_instance_config(&manager, "/games/one", Stored::Malformed("eof".to_string())),
        Err(InstanceConfigError::ConfigError(ConfigError::ParseError("eof".to_string())))
    );
    let config = InstanceConfig::default();
    assert_eq!(
        get_instance_config(&manager, "/games/one", Stored::Parsed(config.clone())),
        Ok(config)
    );
    assert_eq!(
        save_instance_config(&manager, InstanceWritten::NoDirectory("denied".to_string())),
        Err(InstanceConfigError::ConfigError(ConfigError::PathError(
            "Failed to create .Nova directory: denied".to_string()
        )))
    );
    assert_eq!(
        save_instance_config(&manager, InstanceWritten::NotSerialized("nan".to_string())),
        Err(InstanceConfigError::ConfigError(ConfigError::SerializeError("nan".to_string())))
    );
    assert_eq!(
        save_instance_config(&manager, InstanceWritten::NotWritten("full".to_string())),
        Err(InstanceConfigError::ConfigError(ConfigError::ReadError("full".to_string())))
    );
    assert_eq!(
        delete_instance_config(&manager, "/games/one", Removed::Absent),
        Err(InstanceConfigError::InstanceNotFound("/games/one".to_string()))
    );
    assert_eq!(
        delete_instance_config(&manager, "/games/one", Removed::Failed("busy".to_string())),
        Err(InstanceConfigError::ConfigError(ConfigError::ReadError("busy".to_string())))
    );
}

#[test]
fn paths_of_the_files() {
    let manager = ConfigManager::new("/data/NovaCL".to_string());
    assert_eq!(manager.app_data_dir(), "/data/NovaCL");
    assert_eq!(manager.global_config_path(), "/data/NovaCL/Config.toml");
    assert_eq!(manager.profile_config_path(), "/data/NovaCL/Profile.toml");
    assert_eq!(manager.collection_config_path(), "/data/NovaCL/Collection.toml");
    assert_eq!(
        manager.instance_config_path("/games/one"),
        "/games/one/.Nova/Instance.toml"
    );
    assert_eq!(get_global_config_backup_path(&manager), "/data/NovaCL/Config-backup.toml");
    assert_eq!(get_profile_config_backup_path(&manager), "/data/NovaCL/Profile-backup.toml");
    assert_eq!(sibling_of("/a/b.toml", "c.toml"), "/a/c.toml");
    assert_eq!(sibling_of("b.toml", "c.toml"), "c.toml");
    assert_eq!(sibling_of("/", "c.toml"), "./c.toml");
}

#[test]
fn fresh_values() {
    let launch = LaunchConfig::default();
    assert_eq!(launch.basic.version_indie_type, "disabled");
    assert_eq!(launch.basic.launcher_visibility, "immediately_quit");
    assert_eq!(launch.basic.prefer_ip_stack, 4);
    assert_eq!(launch.basic.selected_java, "");
    assert!(launch.basic.java.is_empty());
    assert_eq!(launch.basic, BasicLaunchConfig::default());
    assert_eq!(launch.rams, RamConfig { auto_ram: true, custom_ram: 8192, pre_swap: false });
    assert_eq!(launch.advanced, AdvancedLaunchConfig::default());
    assert_eq!(launch.advanced.renderer, "default");
    assert!(launch.advanced.jvm_args.starts_with("-XX:+UseG1GC -XX:-UseAdaptiveSizePolicy"));
    assert!(launch.advanced.jvm_args.ends_with("-Djava.net.useSystemProxies=false"));
    assert_eq!(launch.advanced.jvm_args.len(), 283);
    assert_eq!(launch.advanced.game_args, "");
    assert_eq!(launch.advanced.pre_command, "");
    assert!(!launch.advanced.disable_retrowrapper);
    assert!(launch.advanced.use_discrete_gpu);
    assert!(!launch.advanced.use_java_exe);
    assert_eq!(
        CustomizeConfig::default(),
        CustomizeConfig { theme: "auto".to_string(), language: "zh-CN".to_string() }
    );
    assert_eq!(
        ComponentConfig::default(),
        ComponentConfig {
            source: "offical".to_string(),
            ignore_quilt: false,
            detect_clipboard: false
        }
    );
    assert_eq!(
        AccessibilityConfig::default(),
        AccessibilityConfig { release_note: false, snapshot_note: false, auto_chinese: true }
    );
    assert_eq!(
        LauncherConfig::default(),
        LauncherConfig {
            update_method: "auto".to_string(),
            channel: "ender".to_string(),
            notification: "all".to_string(),
            cache_dir: "".to_string(),
        }
    );
    assert_eq!(
        NetworkConfig::default(),
        NetworkConfig {
            use_doh: false,
            use_system_proxy: false,
            use_custom_proxy: false,
            custom_proxy_uri: "".to_string(),
            custom_proxy_account: "".to_string(),
            custom_proxy_password: "".to_string(),
        }
    );
    assert_eq!(DebugConfig::default(), DebugConfig { debug_mode: false });
    assert_eq!(ProfileConfig::default(), ProfileConfig { profile: Vec::new() });
    assert_eq!(
        InstanceConfig::default(),
        InstanceConfig {
            name: "New Instance".to_string(),
            description: "".to_string(),
            mc_version: "1.20.1".to_string(),
            loader_type: "vanilla".to_string(),
            loader_version: "".to_string(),
            launch_count: 0,
            category: 0,
            path: None,
            icon: None,
            last_launch: None,
        }
    );
}

#[test]
fn clones_hold_the_same_values() {
    let java = JavaConfig {
        id: "j17".to_string(),
        path: "/usr/lib/jvm/17".to_string(),
        kind: "jdk".to_string(),
        version: 17,
    };
    assert_eq!(java.clone(), java);
    let mut launch = LaunchConfig::default();
    launch.basic.java.push(java.clone());
    launch.basic.java.push(JavaConfig { version: 21, ..java.clone() });
    assert_eq!(launch.clone(), launch);
    let mut accounts = ProfileConfig::default();
    accounts.profile.push(profile("u1"));
    accounts.profile.push(Profile { id: Some("Alex".to_string()), ..profile("u2") });
    assert_eq!(accounts.clone(), accounts);
    let instance = InstanceConfig { icon: Some("i.png".to_string()), ..InstanceConfig::default() };
    assert_eq!(instance.clone(), instance);
}

#[test]
fn error_messages() {
    let detail = || "why".to_string();
    assert_eq!(ConfigError::ReadError(detail()).message(), "Failed to read config file: why");
    assert_eq!(ConfigError::WriteError(detail()).message(), "Failed to write config file: why");
    assert_eq!(ConfigError::ParseError(detail()).message(), "Failed to parse config file: why");
    assert_eq!(ConfigError::SerializeError(detail()).message(), "Failed to serialize config: why");
    assert_eq!(ConfigError::Utf8Error(detail()).message(), "Failed to decode UTF-8: why");
    assert_eq!(ConfigError::PathError(detail()).message(), "Invalid config path: why");
    assert_eq!(
        ConfigError::MissingField(detail()).message(),
        "Missing required config field: why"
    );
    assert_eq!(
        ConfigError::InvalidValue("theme".to_string(), "pink".to_string()).message(),
        "Invalid config value for field theme: pink"
    );
    assert_eq!(
        ConfigError::VersionMismatch(2, 10).message(),
        "Config version mismatch: expected 2, got 10"
    );
    assert_eq!(
        ConfigError::VersionMismatch(0, 4294967295).message(),
        "Config version mismatch: expected 0, got 4294967295"
    );
    assert_eq!(ConfigError::EncryptionError(detail()).message(), "Encryption error: why");
    assert_eq!(ConfigError::DecryptionError(detail()).message(), "Decryption error: why");
    assert_eq!(
        ConfigError::Base64EncodeError(detail()).message(),
        "Base64 encoding error: why"
    );
    assert_eq!(
        ConfigError::Base64DecodeError(detail()).message(),
        "Base64 decoding error: why"
    );
    assert_eq!(
        ConfigError::KeyGenerationError(detail()).message(),
        "Failed to generate encryption key: why"
    );
    assert_eq!(ConfigError::UnsupportedType(detail()).message(), "Unsupported config type: why");
    assert_eq!(ConfigError::Other(detail()).message(), "Other config error: why");
    assert_eq!(
        GlobalConfigError::from(ConfigError::Other(detail())).message(),
        "Global config error: Other config error: why"
    );
    assert_eq!(
        GlobalConfigError::InvalidConfig(detail()).message(),
        "Invalid global config: why"
    );
    assert_eq!(
        ProfileConfigError::from(ConfigError::ReadError(detail())).message(),
        "Profile config error: Failed to read config file: why"
    );
    assert_eq!(ProfileConfigError::ProfileNotFound(detail()).message(), "Profile not found: why");
    assert_eq!(
        ProfileConfigError::InvalidProfileType(detail()).message(),
        "Invalid profile type: why"
    );
    assert_eq!(
        ProfileConfigError::ProfileExists(detail()).message(),
        "Profile already exists: why"
    );
    assert_eq!(
        InstanceConfigError::from(ConfigError::PathError(detail())).message(),
        "Instance config error: Invalid config path: why"
    );
    assert_eq!(
        InstanceConfigError::InstanceNotFound(detail()).message(),
        "Instance not found: why"
    );
    assert_eq!(
        InstanceConfigError::InvalidInstanceConfig(detail()).message(),
        "Invalid instance config: why"
    );
    assert_eq!(
        InstanceConfigError::InstanceExists(detail()).message(),
        "Instance already exists: why"
    );
}
