//! What can go wrong with the configuration.

use crate::text::{join_text, decimal, decimal_text};
use vstd::prelude::*;
use vstd::string::StringExecFns;

verus! {

/// An error of the configuration store. Details that came from the file
/// system, a parser or a codec are carried as their text.
#[derive(Clone, Debug, PartialEq, Eq)]
pub enum ConfigError {
    /// A file could not be read. Every I/O failure is reported under this
    /// variant, a failed write too.
    ReadError(String),
    /// A file could not be written.
    WriteError(String),
    /// A file does not parse.
    ParseError(String),
    /// A configuration could not be serialised.
    SerializeError(String),
    /// Bytes are no UTF-8.
    Utf8Error(String),
    /// A path is of no use.
    PathError(String),
    /// A required field is missing.
    MissingField(String),
    /// A field holds a value that it may not take: the field, then the
    /// value.
    InvalidValue(String, String),
    /// The file has another version than expected: expected, then found.
    VersionMismatch(u32, u32),
    /// Encrypting failed.
    EncryptionError(String),
    /// Decrypting failed.
    DecryptionError(String),
    /// Base64 encoding failed.
    Base64EncodeError(String),
    /// Base64 decoding failed.
    Base64DecodeError(String),
    /// The encryption key could not be set up.
    KeyGenerationError(String),
    /// The kind of configuration is not supported.
    UnsupportedType(String),
    /// Anything else.
    Other(String),
}

/// An error of the global configuration.
#[derive(Clone, Debug, PartialEq, Eq)]
pub enum GlobalConfigError {
    /// An error of the store.
    ConfigError(ConfigError),
    /// The configuration is not valid.
    InvalidConfig(String),
}

/// An error of the account configuration.
#[derive(Clone, Debug, PartialEq, Eq)]
pub enum ProfileConfigError {
    /// An error of the store.
    ConfigError(ConfigError),
    /// No such account.
    ProfileNotFound(String),
    /// The account is of an unknown kind.
    InvalidProfileType(String),
    /// The account exists already.
    ProfileExists(String),
}

/// An error of an instance configuration.
#[derive(Clone, Debug, PartialEq, Eq)]
pub enum InstanceConfigError {
    /// An error of the store.
    ConfigError(ConfigError),
    /// No configuration is stored for the instance.
    InstanceNotFound(String),
    /// The configuration is not valid.
    InvalidInstanceConfig(String),
    /// The instance exists already.
    InstanceExists(String),
}

impl From<ConfigError> for GlobalConfigError {
    fn from(error: ConfigError) -> (wrapped: Self) {
        GlobalConfigError::ConfigError(error)
    }
}

impl vstd::std_specs::convert::FromSpecImpl<ConfigError> for GlobalConfigError {
    open spec fn obeys_from_spec() -> bool {
        true
    }

    open spec fn from_spec(error: ConfigError) -> Self {
        GlobalConfigError::ConfigError(error)
    }
}

impl From<ConfigError> for ProfileConfigError {
    fn from(error: ConfigError) -> (wrapped: Self) {
        ProfileConfigError::ConfigError(error)
    }
}

impl vstd::std_specs::convert::FromSpecImpl<ConfigError> for ProfileConfigError {
    open spec fn obeys_from_spec() -> bool {
        true
    }

    open spec fn from_spec(error: ConfigError) -> Self {
        ProfileConfigError::ConfigError(error)
    }
}

impl From<ConfigError> for InstanceConfigError {
    fn from(error: ConfigError) -> (wrapped: Self) {
        InstanceConfigError::ConfigError(error)
    }
}

impl vstd::std_specs::convert::FromSpecImpl<ConfigError> for InstanceConfigError {
    open spec fn obeys_from_spec() -> bool {
        true
    }

    open spec fn from_spec(error: ConfigError) -> Self {
        InstanceConfigError::ConfigError(error)
    }
}

impl ConfigError {
    /// What the user is told.
    pub open spec fn message_text(self) -> Seq<char> {
        match self {
            ConfigError::ReadError(detail) => "Failed to read config file: "@ + detail@,
            ConfigError::WriteError(detail) => "Failed to write config file: "@ + detail@,
            ConfigError::ParseError(detail) => "Failed to parse config file: "@ + detail@,
            ConfigError::SerializeError(detail) => "Failed to serialize config: "@ + detail@,
            ConfigError::Utf8Error(detail) => "Failed to decode UTF-8: "@ + detail@,
            ConfigError::PathError(detail) => "Invalid config path: "@ + detail@,
            ConfigError::MissingField(detail) => "Missing required config field: "@ + detail@,
            ConfigError::EncryptionError(detail) => "Encryption error: "@ + detail@,
            ConfigError::DecryptionError(detail) => "Decryption error: "@ + detail@,
            ConfigError::Base64EncodeError(detail) => "Base64 encoding error: "@ + detail@,
            ConfigError::Base64DecodeError(detail) => "Base64 decoding error: "@ + detail@,
            ConfigError::KeyGenerationError(detail) => "Failed to generate encryption key: "@ + detail@,
            ConfigError::UnsupportedType(detail) => "Unsupported config type: "@ + detail@,
            ConfigError::Other(detail) => "Other config error: "@ + detail@,
            ConfigError::InvalidValue(field, value) => "Invalid config value for field "@ + field@
                + ": "@ + value@,
            ConfigError::VersionMismatch(expected, found) => "Config version mismatch: expected "@
                + decimal_text(expected as nat) + ", got "@ + decimal_text(found as nat),
        }
    }

    /// What the user is told.
    pub fn message(&self) -> (text: String)
        ensures
            text@ == self.message_text(),
    {
        match self {
            ConfigError::ReadError(detail) => join_text("Failed to read config file: ", detail.as_str()),
            ConfigError::WriteError(detail) => join_text("Failed to write config file: ", detail.as_str()),
            ConfigError::ParseError(detail) => join_text("Failed to parse config file: ", detail.as_str()),
            ConfigError::SerializeError(detail) => join_text("Failed to serialize config: ", detail.as_str()),
            ConfigError::Utf8Error(detail) => join_text("Failed to decode UTF-8: ", detail.as_str()),
            ConfigError::PathError(detail) => join_text("Invalid config path: ", detail.as_str()),
            ConfigError::MissingField(detail) => join_text("Missing required config field: ", detail.as_str()),
            ConfigError::EncryptionError(detail) => join_text("Encryption error: ", detail.as_str()),
            ConfigError::DecryptionError(detail) => join_text("Decryption error: ", detail.as_str()),
            ConfigError::Base64EncodeError(detail) => join_text("Base64 encoding error: ", detail.as_str()),
            ConfigError::Base64DecodeError(detail) => join_text("Base64 decoding error: ", detail.as_str()),
            ConfigError::KeyGenerationError(detail) => join_text("Failed to generate encryption key: ", detail.as_str()),
            ConfigError::UnsupportedType(detail) => join_text("Unsupported config type: ", detail.as_str()),
            ConfigError::Other(detail) => join_text("Other config error: ", detail.as_str()),
            ConfigError::InvalidValue(field, value) => join_text(
                "Invalid config value for field ",
                field.as_str(),
            ).concat(": ").concat(value.as_str()),
            ConfigError::VersionMismatch(expected, found) => join_text(
                "Config version mismatch: expected ",
                decimal(*expected as u64).as_str(),
            ).concat(", got ").concat(decimal(*found as u64).as_str()),
        }
    }
}

impl GlobalConfigError {
    /// What the user is told.
    pub open spec fn message_text(self) -> Seq<char> {
        match self {
            GlobalConfigError::ConfigError(error) => "Global config error: "@
                + error.message_text(),
            GlobalConfigError::InvalidConfig(detail) => "Invalid global config: "@ + detail@,
        }
    }

    /// What the user is told.
    pub fn message(&self) -> (text: String)
        ensures
            text@ == self.message_text(),
    {
        match self {
            GlobalConfigError::ConfigError(error) => join_text(
                "Global config error: ",
                error.message().as_str(),
            ),
            GlobalConfigError::InvalidConfig(detail) => join_text(
                "Invalid global config: ",
                detail.as_str(),
            ),
        }
    }
}

impl ProfileConfigError {
    /// What the user is told.
    pub open spec fn message_text(self) -> Seq<char> {
        match self {
            ProfileConfigError::ConfigError(error) => "Profile config error: "@
                + error.message_text(),
            ProfileConfigError::ProfileNotFound(detail) => "Profile not found: "@ + detail@,
            ProfileConfigError::InvalidProfileType(detail) => "Invalid profile type: "@ + detail@,
            ProfileConfigError::ProfileExists(detail) => "Profile already exists: "@ + detail@,
        }
    }

    /// What the user is told.
    pub fn message(&self) -> (text: String)
        ensures
            text@ == self.message_text(),
    {
        match self {
            ProfileConfigError::ConfigError(error) => join_text(
                "Profile config error: ",
                error.message().as_str(),
            ),
            ProfileConfigError::ProfileNotFound(detail) => join_text(
                "Profile not found: ",
                detail.as_str(),
            ),
            ProfileConfigError::InvalidProfileType(detail) => join_text(
                "Invalid profile type: ",
                detail.as_str(),
            ),
            ProfileConfigError::ProfileExists(detail) => join_text(
                "Profile already exists: ",
                detail.as_str(),
            ),
        }
    }
}

impl InstanceConfigError {
    /// What the user is told.
    pub open spec fn message_text(self) -> Seq<char> {
        match self {
            InstanceConfigError::ConfigError(error) => "Instance config error: "@
                + error.message_text(),
            InstanceConfigError::InstanceNotFound(detail) => "Instance not found: "@ + detail@,
            InstanceConfigError::InvalidInstanceConfig(detail) => "Invalid instance config: "@
                + detail@,
            InstanceConfigError::InstanceExists(detail) => "Instance already exists: "@ + detail@,
        }
    }

    /// What the user is told.
    pub fn message(&self) -> (text: String)
        ensures
            text@ == self.message_text(),
    {
        match self {
            InstanceConfigError::ConfigError(error) => join_text(
                "Instance config error: ",
                error.message().as_str(),
            ),
            InstanceConfigError::InstanceNotFound(detail) => join_text(
                "Instance not found: ",
                detail.as_str(),
            ),
            InstanceConfigError::InvalidInstanceConfig(detail) => join_text(
                "Invalid instance config: ",
                detail.as_str(),
            ),
            InstanceConfigError::InstanceExists(detail) => join_text(
                "Instance already exists: ",
                detail.as_str(),
            ),
        }
    }
}

} // verus!
