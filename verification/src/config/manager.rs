//! The configuration manager: where the files lie, what is cached, and what
//! a load, a save or a removal comes to.
//!
//! The manager touches no file. The embedding reads, parses, serialises and
//! writes, and hands each outcome in; the manager decides what is returned
//! and what the cache holds afterwards.

use crate::config::crypto::{sets_key, KeySlot};
use crate::config::error::{ConfigError, InstanceConfigError, ProfileConfigError};
use crate::config::types::{InstanceConfig, ProfileConfig};
use vstd::pervasive::cloned;
use vstd::prelude::*;
use vstd::string::StringExecFns;
use vstd::string::StringSliceAdditionalSpecFns;

verus! {

/// What the embedding found where a configuration is stored.
#[derive(Debug, PartialEq, Eq)]
pub enum Stored<T> {
    /// No file is there.
    Absent,
    /// The file is there and could not be read; the detail is the reader's.
    Unreadable(String),
    /// The file was read and does not parse; the detail is the parser's.
    Malformed(String),
    /// The configuration that the file holds.
    Parsed(T),
}

/// How writing a configuration out went.
#[derive(Debug, PartialEq, Eq)]
pub enum Written {
    /// The file holds the configuration.
    Done,
    /// The configuration could not be serialised.
    NotSerialized(String),
    /// The file could not be written.
    NotWritten(String),
}

/// How removing a stored configuration went.
#[derive(Debug, PartialEq, Eq)]
pub enum Removed {
    /// The file is gone.
    Done,
    /// No file was there.
    Absent,
    /// The file could not be removed.
    Failed(String),
}

/// The error that a failed write is reported as, or `None` for a write that
/// went through. An I/O failure is a `ReadError`, as every I/O failure is.
pub open spec fn write_error(written: Written) -> Option<ConfigError> {
    match written {
        Written::Done => None,
        Written::NotSerialized(detail) => Some(ConfigError::SerializeError(detail)),
        Written::NotWritten(detail) => Some(ConfigError::ReadError(detail)),
    }
}

/// A configuration kept in memory once it has been loaded or saved.
pub struct ConfigCache<T> {
    cached: Option<T>,
}

impl<T> View for ConfigCache<T> {
    type V = Option<T>;

    closed spec fn view(&self) -> Option<T> {
        self.cached
    }
}

/// Whether `loaded` and `after` are what a load comes to. A cached
/// configuration is returned as it is and the store not consulted. Else the
/// stored one is returned, or `fresh` where none is stored, and kept; a file
/// that cannot be read or parsed is an error and leaves the cache empty.
pub open spec fn loads<T: Clone>(
    before: Option<T>,
    fresh: T,
    stored: Stored<T>,
    loaded: Result<T, ConfigError>,
    after: Option<T>,
) -> bool {
    match before {
        Some(kept) => {
            &&& after == before
            &&& loaded matches Ok(copy) && cloned(kept, copy)
        },
        None => match stored {
            Stored::Absent => {
                &&& loaded == Ok::<T, ConfigError>(fresh)
                &&& after matches Some(kept) && cloned(fresh, kept)
            },
            Stored::Parsed(config) => {
                &&& loaded == Ok::<T, ConfigError>(config)
                &&& after matches Some(kept) && cloned(config, kept)
            },
            Stored::Unreadable(detail) => {
                &&& loaded == Err::<T, ConfigError>(ConfigError::ReadError(detail))
                &&& after is None
            },
            Stored::Malformed(detail) => {
                &&& loaded == Err::<T, ConfigError>(ConfigError::ParseError(detail))
                &&& after is None
            },
        },
    }
}

/// Whether `saved` and `after` are what a save of `config` comes to: a
/// write that went through puts a copy of `config` in the cache, a failed
/// one is an error and leaves the cache as it was.
pub open spec fn saves<T: Clone>(
    before: Option<T>,
    config: T,
    written: Written,
    saved: Result<(), ConfigError>,
    after: Option<T>,
) -> bool {
    match write_error(written) {
        None => {
            &&& saved is Ok
            &&& after matches Some(kept) && cloned(config, kept)
        },
        Some(error) => {
            &&& saved == Err::<(), ConfigError>(error)
            &&& after == before
        },
    }
}

impl<T: Clone> ConfigCache<T> {
    /// An empty cache.
    pub fn new() -> (cache: Self)
        ensures
            cache@ is None,
    {
        ConfigCache { cached: None }
    }

    /// Whether a configuration is cached, so that a load needs no look at
    /// the store.
    pub fn is_cached(&self) -> (cached: bool)
        ensures
            cached == self@.is_some(),
    {
        self.cached.is_some()
    }

    /// Loads the configuration, from the cache where it holds one.
    pub fn load(&mut self, fresh: T, stored: Stored<T>) -> (loaded: Result<T, ConfigError>)
        ensures
            loads(old(self)@, fresh, stored, loaded, final(self)@),
    {
        if let Some(kept) = &self.cached {
            return Ok(kept.clone());
        }
        let config = match stored {
            Stored::Absent => fresh,
            Stored::Parsed(config) => config,
            Stored::Unreadable(detail) => {
                return Err(ConfigError::ReadError(detail));
            },
            Stored::Malformed(detail) => {
                return Err(ConfigError::ParseError(detail));
            },
        };
        self.cached = Some(config.clone());
        Ok(config)
    }

    /// Records a save of `config`, given how writing it out went.
    pub fn save(&mut self, config: &T, written: Written) -> (saved: Result<(), ConfigError>)
        ensures
            saves(old(self)@, *config, written, saved, final(self)@),
    {
        match written {
            Written::Done => {
                self.cached = Some(config.clone());
                Ok(())
            },
            Written::NotSerialized(detail) => Err(ConfigError::SerializeError(detail)),
            Written::NotWritten(detail) => Err(ConfigError::ReadError(detail)),
        }
    }
}

/// `base` with `leaf` adjoined, by the rules of the platform that the
/// library is built for.
pub uninterp spec fn joined_path(base: Seq<char>, leaf: Seq<char>) -> Seq<char>;

/// `path` without its last component, if it has one, by the rules of the
/// platform that the library is built for.
pub uninterp spec fn parent_path(path: Seq<char>) -> Option<Seq<char>>;

/// Adjoins `leaf` to `base` with `std::path::Path::join`.
///
/// Trusted: the result is taken to be a function of the two texts, named
/// [`joined_path`]. Both are valid UTF-8, so the conversion back to a string
/// loses nothing.
#[verifier::external_body]
fn join_path(base: &str, leaf: &str) -> (joined: String)
    ensures
        joined@ == joined_path(base@, leaf@),
{
    std::path::Path::new(base).join(leaf).to_string_lossy().into_owned()
}

/// Drops the last component of `path` with `std::path::Path::parent`.
///
/// Trusted: the result is taken to be a function of the text, named
/// [`parent_path`].
#[verifier::external_body]
fn parent_of(path: &str) -> (parent: Option<String>)
    ensures
        parent.deep_view() == parent_path(path@),
{
    match std::path::Path::new(path).parent() {
        Some(directory) => Some(directory.to_string_lossy().into_owned()),
        None => None,
    }
}

/// The file `name` beside the file `path`: in its directory, or in the
/// current one where `path` has none.
pub open spec fn sibling_path(path: Seq<char>, name: Seq<char>) -> Seq<char> {
    match parent_path(path) {
        Some(directory) => joined_path(directory, name),
        None => joined_path("."@, name),
    }
}

/// The path of the file `name` beside the file `path`.
pub fn sibling_of(path: &str, name: &str) -> (sibling: String)
    ensures
        sibling@ == sibling_path(path@, name@),
{
    match parent_of(path) {
        Some(directory) => join_path(directory.as_str(), name),
        None => join_path(".", name),
    }
}

/// Where the configuration of the instance at `instance_path` is stored.
pub open spec fn instance_config_file(instance_path: Seq<char>) -> Seq<char> {
    joined_path(joined_path(instance_path, ".Nova"@), "Instance.toml"@)
}

/// How writing an instance configuration out went.
#[derive(Debug, PartialEq, Eq)]
pub enum InstanceWritten {
    /// The file holds the configuration.
    Done,
    /// The `.Nova` directory could not be made.
    NoDirectory(String),
    /// The configuration could not be serialised.
    NotSerialized(String),
    /// The file could not be written.
    NotWritten(String),
}

/// Whether `loaded` and `after` are what loading the accounts comes to:
/// [`loads`], with the freshly installed configuration for a missing file.
pub open spec fn loads_profiles(
    before: Option<ProfileConfig>,
    stored: Stored<ProfileConfig>,
    loaded: Result<ProfileConfig, ProfileConfigError>,
    after: Option<ProfileConfig>,
) -> bool {
    match before {
        Some(kept) => {
            &&& after == before
            &&& loaded matches Ok(copy) && copy.same_as(kept)
        },
        None => match stored {
            Stored::Absent => {
                &&& loaded matches Ok(config) && config.is_fresh()
                &&& after matches Some(kept) && kept.is_fresh()
            },
            Stored::Parsed(config) => {
                &&& loaded == Ok::<ProfileConfig, ProfileConfigError>(config)
                &&& after matches Some(kept) && kept.same_as(config)
            },
            Stored::Unreadable(detail) => {
                &&& loaded == Err::<ProfileConfig, ProfileConfigError>(
                    ProfileConfigError::ConfigError(ConfigError::ReadError(detail)),
                )
                &&& after is None
            },
            Stored::Malformed(detail) => {
                &&& loaded == Err::<ProfileConfig, ProfileConfigError>(
                    ProfileConfigError::ConfigError(ConfigError::ParseError(detail)),
                )
                &&& after is None
            },
        },
    }
}

/// Whether `saved` and `after` are what saving the accounts comes to.
pub open spec fn saves_profiles(
    before: Option<ProfileConfig>,
    config: ProfileConfig,
    written: Written,
    saved: Result<(), ProfileConfigError>,
    after: Option<ProfileConfig>,
) -> bool {
    match write_error(written) {
        None => {
            &&& saved is Ok
            &&& after matches Some(kept) && kept.same_as(config)
        },
        Some(error) => {
            &&& saved == Err::<(), ProfileConfigError>(ProfileConfigError::ConfigError(error))
            &&& after == before
        },
    }
}

/// Whether `loaded` is what loading the configuration of the instance at
/// `instance_path` comes to. An instance without a stored configuration is
/// not found, under its path.
pub open spec fn loads_instance(
    instance_path: Seq<char>,
    stored: Stored<InstanceConfig>,
    loaded: Result<InstanceConfig, InstanceConfigError>,
) -> bool {
    match stored {
        Stored::Absent => loaded matches Err(InstanceConfigError::InstanceNotFound(named))
            && named@ == instance_path,
        Stored::Unreadable(detail) => loaded == Err::<InstanceConfig, InstanceConfigError>(
            InstanceConfigError::ConfigError(ConfigError::ReadError(detail)),
        ),
        Stored::Malformed(detail) => loaded == Err::<InstanceConfig, InstanceConfigError>(
            InstanceConfigError::ConfigError(ConfigError::ParseError(detail)),
        ),
        Stored::Parsed(config) => loaded == Ok::<InstanceConfig, InstanceConfigError>(config),
    }
}

/// Whether `saved` is what saving an instance configuration comes to. A
/// directory that could not be made is a path error that says so.
pub open spec fn saves_instance(written: InstanceWritten, saved: Result<(), InstanceConfigError>) -> bool {
    match written {
        InstanceWritten::Done => saved is Ok,
        InstanceWritten::NoDirectory(detail) => saved matches Err(
            InstanceConfigError::ConfigError(ConfigError::PathError(message)),
        ) && message@ == "Failed to create .Nova directory: "@ + detail@,
        InstanceWritten::NotSerialized(detail) => saved == Err::<(), InstanceConfigError>(
            InstanceConfigError::ConfigError(ConfigError::SerializeError(detail)),
        ),
        InstanceWritten::NotWritten(detail) => saved == Err::<(), InstanceConfigError>(
            InstanceConfigError::ConfigError(ConfigError::ReadError(detail)),
        ),
    }
}

/// Whether `deleted` is what removing the configuration of the instance at
/// `instance_path` comes to.
pub open spec fn deletes_instance(
    instance_path: Seq<char>,
    removed: Removed,
    deleted: Result<(), InstanceConfigError>,
) -> bool {
    match removed {
        Removed::Done => deleted is Ok,
        Removed::Absent => deleted matches Err(InstanceConfigError::InstanceNotFound(named))
            && named@ == instance_path,
        Removed::Failed(detail) => deleted == Err::<(), InstanceConfigError>(
            InstanceConfigError::ConfigError(ConfigError::ReadError(detail)),
        ),
    }
}

/// Whether `after` is the cache of accounts once they have been loaded
/// ahead of use, a failure to load them being passed over.
pub open spec fn preloads_profiles(
    before: Option<ProfileConfig>,
    stored: Stored<ProfileConfig>,
    after: Option<ProfileConfig>,
) -> bool {
    match before {
        Some(_) => after == before,
        None => match stored {
            Stored::Absent => after matches Some(kept) && kept.is_fresh(),
            Stored::Parsed(config) => after matches Some(kept) && kept.same_as(config),
            _ => after is None,
        },
    }
}

/// Owner of the configuration files of one installation.
pub struct ConfigManager {
    app_data_dir: String,
    profile_config: ConfigCache<ProfileConfig>,
}

impl ConfigManager {
    /// The directory that holds the files.
    pub closed spec fn data_dir(&self) -> Seq<char> {
        self.app_data_dir@
    }

    /// The cached account configuration.
    pub closed spec fn cached_profiles(&self) -> Option<ProfileConfig> {
        self.profile_config@
    }

    /// A manager for the files in `app_data_dir`, with nothing cached.
    pub fn new(app_data_dir: String) -> (manager: Self)
        ensures
            manager.data_dir() == app_data_dir@,
            manager.cached_profiles() is None,
    {
        ConfigManager { app_data_dir, profile_config: ConfigCache::new() }
    }

    /// The directory that holds the files.
    pub fn app_data_dir(&self) -> (directory: &str)
        ensures
            directory@ == self.data_dir(),
    {
        self.app_data_dir.as_str()
    }

    /// Where the global configuration is stored.
    pub fn global_config_path(&self) -> (path: String)
        ensures
            path@ == joined_path(self.data_dir(), "Config.toml"@),
    {
        join_path(self.app_data_dir.as_str(), "Config.toml")
    }

    /// Where the account configuration is stored.
    pub fn profile_config_path(&self) -> (path: String)
        ensures
            path@ == joined_path(self.data_dir(), "Profile.toml"@),
    {
        join_path(self.app_data_dir.as_str(), "Profile.toml")
    }

    /// Where the collection configuration is stored.
    pub fn collection_config_path(&self) -> (path: String)
        ensures
            path@ == joined_path(self.data_dir(), "Collection.toml"@),
    {
        join_path(self.app_data_dir.as_str(), "Collection.toml")
    }

    /// Where the configuration of the instance at `instance_path` is
    /// stored: `Instance.toml` in its `.Nova` directory.
    pub fn instance_config_path(&self, instance_path: &str) -> (path: String)
        ensures
            path@ == instance_config_file(instance_path@),
    {
        let directory = join_path(instance_path, ".Nova");
        join_path(directory.as_str(), "Instance.toml")
    }

    /// Loads the configuration of the instance at `instance_path`, given
    /// what its file holds.
    pub fn load_instance_config(&self, instance_path: &str, stored: Stored<InstanceConfig>) -> (loaded:
        Result<InstanceConfig, InstanceConfigError>)
        ensures
            loads_instance(instance_path@, stored, loaded),
    {
        match stored {
            Stored::Absent => Err(InstanceConfigError::InstanceNotFound(instance_path.to_owned())),
            Stored::Unreadable(detail) => Err(
                InstanceConfigError::ConfigError(ConfigError::ReadError(detail)),
            ),
            Stored::Malformed(detail) => Err(
                InstanceConfigError::ConfigError(ConfigError::ParseError(detail)),
            ),
            Stored::Parsed(config) => Ok(config),
        }
    }

    /// Concludes a save of an instance configuration, given how writing it
    /// out went.
    pub fn save_instance_config(&self, written: InstanceWritten) -> (saved: Result<
        (),
        InstanceConfigError,
    >)
        ensures
            saves_instance(written, saved),
    {
        match written {
            InstanceWritten::Done => Ok(()),
            InstanceWritten::NoDirectory(detail) => {
                let message = String::from_str("Failed to create .Nova directory: ").concat(
                    detail.as_str(),
                );
                Err(InstanceConfigError::ConfigError(ConfigError::PathError(message)))
            },
            InstanceWritten::NotSerialized(detail) => Err(
                InstanceConfigError::ConfigError(ConfigError::SerializeError(detail)),
            ),
            InstanceWritten::NotWritten(detail) => Err(
                InstanceConfigError::ConfigError(ConfigError::ReadError(detail)),
            ),
        }
    }

    /// Concludes the removal of the configuration of the instance at
    /// `instance_path`, given how removing its file went.
    pub fn delete_instance_config(&self, instance_path: &str, removed: Removed) -> (deleted: Result<
        (),
        InstanceConfigError,
    >)
        ensures
            deletes_instance(instance_path@, removed, deleted),
    {
        match removed {
            Removed::Done => Ok(()),
            Removed::Absent => Err(InstanceConfigError::InstanceNotFound(instance_path.to_owned())),
            Removed::Failed(detail) => Err(
                InstanceConfigError::ConfigError(ConfigError::ReadError(detail)),
            ),
        }
    }

    /// Sets the configuration up: the encryption key first, without which
    /// nothing else is done, then the accounts, loaded ahead of use. That
    /// the accounts cannot be loaded does not fail the set-up.
    pub fn init(&mut self, keys: &mut KeySlot, key_hex: Option<&str>, profiles: Stored<ProfileConfig>) -> (result:
        Result<(), ConfigError>)
        ensures
            final(self).data_dir() == old(self).data_dir(),
            sets_key(
                old(keys)@,
                match key_hex {
                    Some(text) => Some(text.spec_bytes()),
                    None => None,
                },
                result,
                final(keys)@,
            ),
            result is Ok ==> preloads_profiles(
                old(self).cached_profiles(),
                profiles,
                final(self).cached_profiles(),
            ),
            result is Err ==> final(self).cached_profiles() == old(self).cached_profiles(),
    {
        match keys.init_encryption_key(key_hex) {
            Ok(_) => {},
            Err(error) => {
                return Err(error);
            },
        }
        let _ = self.load_profile_config(profiles);
        Ok(())
    }

    /// Whether the account configuration is cached, so that a load needs no
    /// look at the file.
    pub fn profile_config_cached(&self) -> (cached: bool)
        ensures
            cached == self.cached_profiles().is_some(),
    {
        self.profile_config.is_cached()
    }

    /// Loads the account configuration, given what the file holds.
    pub fn load_profile_config(&mut self, stored: Stored<ProfileConfig>) -> (loaded: Result<
        ProfileConfig,
        ProfileConfigError,
    >)
        ensures
            final(self).data_dir() == old(self).data_dir(),
            loads_profiles(
                old(self).cached_profiles(),
                stored,
                loaded,
                final(self).cached_profiles(),
            ),
    {
        match self.profile_config.load(ProfileConfig::default(), stored) {
            Ok(config) => Ok(config),
            Err(error) => Err(ProfileConfigError::ConfigError(error)),
        }
    }

    /// Records a save of the account configuration, given how writing it
    /// out went.
    pub fn save_profile_config(&mut self, config: &ProfileConfig, written: Written) -> (saved:
        Result<(), ProfileConfigError>)
        ensures
            final(self).data_dir() == old(self).data_dir(),
            saves_profiles(
                old(self).cached_profiles(),
                *config,
                written,
                saved,
                final(self).cached_profiles(),
            ),
    {
        match self.profile_config.save(config, written) {
            Ok(_) => Ok(()),
            Err(error) => Err(ProfileConfigError::ConfigError(error)),
        }
    }
}

/// Sets the configuration up: see [`ConfigManager::init`].
pub fn init_config(
    manager: &mut ConfigManager,
    keys: &mut KeySlot,
    key_hex: Option<&str>,
    profiles: Stored<ProfileConfig>,
) -> (result: Result<(), ConfigError>)
    ensures
        final(manager).data_dir() == old(manager).data_dir(),
        sets_key(
            old(keys)@,
            match key_hex {
                Some(text) => Some(text.spec_bytes()),
                None => None,
            },
            result,
            final(keys)@,
        ),
        result is Ok ==> preloads_profiles(
            old(manager).cached_profiles(),
            profiles,
            final(manager).cached_profiles(),
        ),
        result is Err ==> final(manager).cached_profiles() == old(manager).cached_profiles(),
{
    manager.init(keys, key_hex, profiles)
}

/// The account configuration: see [`ConfigManager::load_profile_config`].
pub fn get_profile_config(manager: &mut ConfigManager, stored: Stored<ProfileConfig>) -> (loaded:
    Result<ProfileConfig, ProfileConfigError>)
    ensures
        final(manager).data_dir() == old(manager).data_dir(),
        loads_profiles(
            old(manager).cached_profiles(),
            stored,
            loaded,
            final(manager).cached_profiles(),
        ),
{
    manager.load_profile_config(stored)
}

/// Records a save of the account configuration: see
/// [`ConfigManager::save_profile_config`].
pub fn save_profile_config(
    manager: &mut ConfigManager,
    config: &ProfileConfig,
    written: Written,
) -> (saved: Result<(), ProfileConfigError>)
    ensures
        final(manager).data_dir() == old(manager).data_dir(),
        saves_profiles(
            old(manager).cached_profiles(),
            *config,
            written,
            saved,
            final(manager).cached_profiles(),
        ),
{
    manager.save_profile_config(config, written)
}

/// The configuration of the instance at `instance_path`: see
/// [`ConfigManager::load_instance_config`].
pub fn get_instance_config(
    manager: &ConfigManager,
    instance_path: &str,
    stored: Stored<InstanceConfig>,
) -> (loaded: Result<InstanceConfig, InstanceConfigError>)
    ensures
        loads_instance(instance_path@, stored, loaded),
{
    manager.load_instance_config(instance_path, stored)
}

/// Concludes a save of an instance configuration: see
/// [`ConfigManager::save_instance_config`].
pub fn save_instance_config(manager: &ConfigManager, written: InstanceWritten) -> (saved: Result<
    (),
    InstanceConfigError,
>)
    ensures
        saves_instance(written, saved),
{
    manager.save_instance_config(written)
}

/// Concludes the removal of an instance configuration: see
/// [`ConfigManager::delete_instance_config`].
pub fn delete_instance_config(manager: &ConfigManager, instance_path: &str, removed: Removed) -> (deleted:
    Result<(), InstanceConfigError>)
    ensures
        deletes_instance(instance_path@, removed, deleted),
{
    manager.delete_instance_config(instance_path, removed)
}

/// Where the backup of the global configuration goes: beside the
/// configuration itself.
pub fn get_global_config_backup_path(manager: &ConfigManager) -> (path: String)
    ensures
        path@ == sibling_path(
            joined_path(manager.data_dir(), "Config.toml"@),
            "Config-backup.toml"@,
        ),
{
    sibling_of(manager.global_config_path().as_str(), "Config-backup.toml")
}

/// Where the backup of the account configuration goes: beside the
/// configuration itself.
pub fn get_profile_config_backup_path(manager: &ConfigManager) -> (path: String)
    ensures
        path@ == sibling_path(
            joined_path(manager.data_dir(), "Profile.toml"@),
            "Profile-backup.toml"@,
        ),
{
    sibling_of(manager.profile_config_path().as_str(), "Profile-backup.toml")
}

/// What was saved is what is loaded: after a save of the accounts that
/// went through, a load returns the saved accounts, whatever the file is
/// said to hold, and leaves the cache as it is.
pub proof fn lemma_saved_profiles_are_loaded(
    before: Option<ProfileConfig>,
    config: ProfileConfig,
    saved: Result<(), ProfileConfigError>,
    cached: Option<ProfileConfig>,
    stored: Stored<ProfileConfig>,
    loaded: Result<ProfileConfig, ProfileConfigError>,
    after: Option<ProfileConfig>,
)
    requires
        saves_profiles(before, config, Written::Done, saved, cached),
        loads_profiles(cached, stored, loaded, after),
    ensures
        saved is Ok,
        loaded matches Ok(found) && found.same_as(config),
        after == cached,
{
}

/// A failed save changes nothing: the cache holds what it held, so that a
/// load returns what it would have returned before.
pub proof fn lemma_failed_save_keeps_cache(
    before: Option<ProfileConfig>,
    config: ProfileConfig,
    written: Written,
    saved: Result<(), ProfileConfigError>,
    after: Option<ProfileConfig>,
)
    requires
        !(written is Done),
        saves_profiles(before, config, written, saved, after),
    ensures
        saved is Err,
        after == before,
{
}

} // verus!
