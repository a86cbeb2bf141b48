use novacl_core::config::backups::{backups_to_remove, is_backup_entry, DirectoryEntry};
use novacl_core::config::error::ConfigError;
use novacl_core::config::utils::{
    backup_config_file, backup_file_name, generate_instance_id, instance_id_from,
    restore_config_backup, validate_channel, validate_download_source, validate_language,
    validate_loader_type, validate_theme, validate_update_method, FileFacts,
    INSTANCE_ID_LENGTH,
};

fn entry(name: &str, modified: u128) -> DirectoryEntry {
    DirectoryEntry {
        path: format!("/data/{}", name),
        is_file: true,
        file_name: Some(name.to_string()),
        modified: Some(modified),
    }
}

#[test]
fn download_sources() {
    for valid in ["offical", "balance", "mirror"] {
        assert!(validate_download_source(valid));
    }
    for invalid in ["official", "", "Mirror", "mirror ", "auto"] {
        assert!(!validate_download_source(invalid));
    }
}

#[test]
fn update_methods() {
    for valid in ["auto", "notice", "major_notice", "disable"] {
        assert!(validate_update_method(valid));
    }
    for invalid in ["major", "", "AUTO", "disabled"] {
        assert!(!validate_update_method(invalid));
    }
}

#[test]
fn channels() {
    for valid in ["overworld", "nether", "ender"] {
        assert!(validate_channel(valid));
    }
    for invalid in ["end", "", "Nether", "stable"] {
        assert!(!validate_channel(invalid));
    }
}

#[test]
fn themes() {
    for valid in ["light", "auto", "dark"] {
        assert!(validate_theme(valid));
    }
    for invalid in ["Light", "", "system", "darker"] {
        assert!(!validate_theme(invalid));
    }
}

#[test]
fn languages() {
    for valid in ["auto", "zh-CN", "en-US"] {
        assert!(validate_language(valid));
    }
    for invalid in ["zh-cn", "en", "", "en_US"] {
        assert!(!validate_language(invalid));
    }
}

#[test]
fn loader_types() {
    for valid in ["forge", "fabric", "quilt", "vanilla"] {
        assert!(validate_loader_type(valid));
    }
    for invalid in ["neoforge", "", "Forge", "vanill"] {
        assert!(!validate_loader_type(invalid));
    }
}

#[test]
fn backup_names() {
    assert_eq!(
        backup_file_name(Some("Config"), Some("toml"), 1700000000),
        "Config-backup-1700000000.toml"
    );
    assert_eq!(backup_file_name(None, None, 0), "config-backup-0.toml");
    assert_eq!(backup_file_name(Some("Profile"), None, 7), "Profile-backup-7.toml");
    assert_eq!(backup_file_name(None, Some("bak"), 10), "config-backup-10.bak");
    assert_eq!(
        backup_file_name(Some("a"), Some("b"), u64::MAX),
        "a-backup-18446744073709551615.b"
    );
}

#[test]
fn backup_plans() {
    let facts = FileFacts {
        exists: true,
        quoted: "\"/data/Config.toml\"".to_string(),
        stem: Some("Config".to_string()),
        extension: Some("toml".to_string()),
    };
    assert_eq!(
        backup_config_file("/data/Config.toml", &facts, 42),
        Ok("/data/Config-backup-42.toml".to_string())
    );
    let bare = FileFacts { exists: true, quoted: "\"x\"".to_string(), stem: None, extension: None };
    assert_eq!(backup_config_file("x", &bare, 5), Ok("config-backup-5.toml".to_string()));
    let missing = FileFacts { exists: false, ..facts };
    assert_eq!(
        backup_config_file("/data/Config.toml", &missing, 42),
        Err(ConfigError::PathError("File not found: \"/data/Config.toml\"".to_string()))
    );
    assert_eq!(restore_config_backup(true, "\"b\""), Ok(()));
    assert_eq!(
        restore_config_backup(false, "\"b\""),
        Err(ConfigError::PathError("Backup file not found: \"b\"".to_string()))
    );
}

#[test]
fn instance_ids() {
    assert_eq!(INSTANCE_ID_LENGTH, 16);
    assert_eq!(instance_id_from(&vec![0, 25, 26, 35]), Some("az09".to_string()));
    assert_eq!(instance_id_from(&vec![]), Some(String::new()));
    assert_eq!(instance_id_from(&vec![0, 36]), None);
    let mut seen = Vec::new();
    for _ in 0..50 {
        let id = generate_instance_id();
        assert_eq!(id.len(), 16);
        assert!(id.chars().all(|c| c.is_ascii_lowercase() || c.is_ascii_digit()));
        seen.push(id);
    }
    seen.sort();
    seen.dedup();
    assert!(seen.len() > 1);
}

#[test]
fn backups_are_told_apart() {
    assert!(is_backup_entry(&entry("Config-backup-1.toml", 1)));
    assert!(is_backup_entry(&entry("-backup-", 1)));
    assert!(!is_backup_entry(&entry("Config.toml", 1)));
    assert!(!is_backup_entry(&entry("Config-backup.toml", 1)));
    assert!(!is_backup_entry(&entry("", 1)));
    assert!(!is_backup_entry(&DirectoryEntry { is_file: false, ..entry("a-backup-1.toml", 1) }));
    assert!(!is_backup_entry(&DirectoryEntry { file_name: None, ..entry("a-backup-1.toml", 1) }));
    assert!(!is_backup_entry(&DirectoryEntry { modified: None, ..entry("a-backup-1.toml", 1) }));
}

#[test]
fn oldest_backups_go_first() {
    let entries = vec![
        entry("a-backup-5.toml", 50),
        entry("Config.toml", 1),
        entry("a-backup-2.toml", 20),
        entry("a-backup-9.toml", 90),
        DirectoryEntry { is_file: false, ..entry("dir-backup-0", 0) },
        entry("a-backup-1.toml", 10),
        entry("a-backup-3.toml", 20),
    ];
    assert_eq!(backups_to_remove(&entries, 5), Vec::<usize>::new());
    assert_eq!(backups_to_remove(&entries, 9), Vec::<usize>::new());
    assert_eq!(backups_to_remove(&entries, 4), vec![5]);
    assert_eq!(backups_to_remove(&entries, 3), vec![5, 2]);
    assert_eq!(backups_to_remove(&entries, 2), vec![5, 2, 6]);
    assert_eq!(backups_to_remove(&entries, 1), vec![5, 2, 6, 0]);
    assert_eq!(backups_to_remove(&entries, 0), vec![5, 2, 6, 0, 3]);
    assert_eq!(backups_to_remove(&Vec::new(), 0), Vec::<usize>::new());
}
