//! Checks on the values that configuration fields may take.

use crate::config::error::ConfigError;
use crate::config::manager::{sibling_of, sibling_path};
use crate::text::{join_text, decimal, decimal_text, str_eq};
use rand::Rng;
use vstd::prelude::*;
use vstd::string::StrSliceExecFns;
use vstd::string::StringExecFns;

verus! {

/// Whether `source` names a download source.
pub fn validate_download_source(source: &str) -> (valid: bool)
    ensures
        valid == (source@ == "offical"@ || source@ == "balance"@ || source@ == "mirror"@),
{
    str_eq(source, "offical") || str_eq(source, "balance") || str_eq(source, "mirror")
}

/// Whether `method` names a way of updating the launcher.
pub fn validate_update_method(method: &str) -> (valid: bool)
    ensures
        valid == (method@ == "auto"@ || method@ == "notice"@ || method@ == "major_notice"@
            || method@ == "disable"@),
{
    str_eq(method, "auto") || str_eq(method, "notice") || str_eq(method, "major_notice")
        || str_eq(method, "disable")
}

/// Whether `channel` names an update channel.
pub fn validate_channel(channel: &str) -> (valid: bool)
    ensures
        valid == (channel@ == "overworld"@ || channel@ == "nether"@ || channel@ == "ender"@),
{
    str_eq(channel, "overworld") || str_eq(channel, "nether") || str_eq(channel, "ender")
}

/// Whether `theme` names a theme.
pub fn validate_theme(theme: &str) -> (valid: bool)
    ensures
        valid == (theme@ == "light"@ || theme@ == "auto"@ || theme@ == "dark"@),
{
    str_eq(theme, "light") || str_eq(theme, "auto") || str_eq(theme, "dark")
}

/// Whether `language` names a display language.
pub fn validate_language(language: &str) -> (valid: bool)
    ensures
        valid == (language@ == "auto"@ || language@ == "zh-CN"@ || language@ == "en-US"@),
{
    str_eq(language, "auto") || str_eq(language, "zh-CN") || str_eq(language, "en-US")
}

/// Whether `loader_type` names a mod loader.
pub fn validate_loader_type(loader_type: &str) -> (valid: bool)
    ensures
        valid == (loader_type@ == "forge"@ || loader_type@ == "fabric"@ || loader_type@ == "quilt"@
            || loader_type@ == "vanilla"@),
{
    str_eq(loader_type, "forge") || str_eq(loader_type, "fabric") || str_eq(loader_type, "quilt")
        || str_eq(loader_type, "vanilla")
}

/// What `given` holds, or `fallback` where it holds nothing.
pub open spec fn text_or(given: Option<Seq<char>>, fallback: Seq<char>) -> Seq<char> {
    match given {
        Some(text) => text,
        None => fallback,
    }
}

/// The name of the backup of a file, taken at `timestamp` seconds: the
/// stem of the file, `-backup-`, the seconds, and the extension of the
/// file. A file without a stem counts as `config`, one without an
/// extension as `toml`.
pub open spec fn backup_name(
    stem: Option<Seq<char>>,
    extension: Option<Seq<char>>,
    timestamp: u64,
) -> Seq<char> {
    text_or(stem, "config"@) + "-backup-"@ + decimal_text(timestamp as nat) + "."@ + text_or(
        extension,
        "toml"@,
    )
}

/// Names the backup of a file from the two parts of its name and the
/// time in seconds.
pub fn backup_file_name(stem: Option<&str>, extension: Option<&str>, timestamp: u64) -> (name:
    String)
    ensures
        name@ == backup_name(
            match stem {
                Some(text) => Some(text@),
                None => None,
            },
            match extension {
                Some(text) => Some(text@),
                None => None,
            },
            timestamp,
        ),
{
    let stem = match stem {
        Some(text) => text,
        None => "config",
    };
    let extension = match extension {
        Some(text) => text,
        None => "toml",
    };
    join_text(stem, "-backup-").concat(decimal(timestamp).as_str()).concat(".").concat(extension)
}

/// What the embedding found out about a file that is to be backed up.
#[derive(Debug, PartialEq, Eq)]
pub struct FileFacts {
    /// Whether the file exists.
    pub exists: bool,
    /// The path as it is quoted in a message.
    pub quoted: String,
    /// The stem of the file name, where it has one that is valid Unicode.
    pub stem: Option<String>,
    /// The extension of the file name, likewise.
    pub extension: Option<String>,
}

/// Whether `planned` is where the backup of the file at `path` goes at
/// `timestamp` seconds: beside the file, under its backup name. A file
/// that does not exist has no backup.
pub open spec fn plans_backup(
    path: Seq<char>,
    facts: FileFacts,
    timestamp: u64,
    planned: Result<String, ConfigError>,
) -> bool {
    if facts.exists {
        planned matches Ok(target) && target@ == sibling_path(
            path,
            backup_name(
                match facts.stem {
                    Some(text) => Some(text@),
                    None => None,
                },
                match facts.extension {
                    Some(text) => Some(text@),
                    None => None,
                },
                timestamp,
            ),
        )
    } else {
        planned matches Err(ConfigError::PathError(message)) && message@ == "File not found: "@
            + facts.quoted@
    }
}

/// Plans the backup of the file at `path`: the result is the path that the
/// embedding copies the file to.
pub fn backup_config_file(path: &str, facts: &FileFacts, timestamp: u64) -> (planned: Result<
    String,
    ConfigError,
>)
    ensures
        plans_backup(path@, *facts, timestamp, planned),
{
    if !facts.exists {
        return Err(ConfigError::PathError(join_text("File not found: ", facts.quoted.as_str())));
    }
    let stem = match &facts.stem {
        Some(text) => Some(text.as_str()),
        None => None,
    };
    let extension = match &facts.extension {
        Some(text) => Some(text.as_str()),
        None => None,
    };
    let name = backup_file_name(stem, extension, timestamp);
    Ok(sibling_of(path, name.as_str()))
}

/// Checks that a backup can be restored: it has to exist. `quoted` is its
/// path as it is quoted in a message.
pub fn restore_config_backup(exists: bool, quoted: &str) -> (checked: Result<(), ConfigError>)
    ensures
        exists ==> checked is Ok,
        !exists ==> (checked matches Err(ConfigError::PathError(message)) && message@
            == "Backup file not found: "@ + quoted@),
{
    if exists {
        Ok(())
    } else {
        Err(ConfigError::PathError(join_text("Backup file not found: ", quoted)))
    }
}

/// The characters that an instance id is made of.
pub open spec fn id_alphabet() -> Seq<char> {
    "abcdefghijklmnopqrstuvwxyz0123456789"@
}

/// Length of an instance id.
pub const INSTANCE_ID_LENGTH: usize = 16;

/// Whether `id` is the id that `picks` spell: one character of the
/// alphabet per pick, each at the place that its pick names.
pub open spec fn spells(picks: Seq<usize>, id: Seq<char>) -> bool {
    &&& id.len() == picks.len()
    &&& forall|i: int| 0 <= i < picks.len() ==> (#[trigger] picks[i]) < id_alphabet().len()
    &&& forall|i: int|
        0 <= i < picks.len() ==> (#[trigger] id[i]) == id_alphabet()[picks[i] as int]
}

/// Draws a number below `bound` with `rand::Rng::gen_range` on
/// `rand::thread_rng()`.
///
/// Trusted: the result is below `bound`. Which number is chance. An empty
/// range, on which the crate panics, is left out.
#[verifier::external_body]
fn random_below(bound: usize) -> (pick: usize)
    requires
        bound > 0,
    ensures
        pick < bound,
{
    rand::thread_rng().gen_range(0..bound)
}

/// The id that `picks` spell, or `None` where a pick names no character of
/// the alphabet.
pub fn instance_id_from(picks: &Vec<usize>) -> (id: Option<String>)
    ensures
        match id {
            Some(text) => spells(picks@, text@),
            None => exists|i: int| 0 <= i < picks@.len() && picks@[i] >= id_alphabet().len(),
        },
{
    let alphabet = "abcdefghijklmnopqrstuvwxyz0123456789";
    let size = alphabet.unicode_len();
    let mut text = String::new();
    let mut i: usize = 0;
    while i < picks.len()
        invariant
            i <= picks@.len(),
            alphabet@ == id_alphabet(),
            size == alphabet@.len(),
            spells(picks@.take(i as int), text@),
        decreases picks.len() - i,
    {
        let pick = picks[i];
        if pick >= size {
            return None;
        }
        let ghost before = text@;
        text.append(alphabet.substring_char(pick, pick + 1));
        proof {
            let letter = alphabet@.subrange(pick as int, pick + 1);
            assert(letter.len() == 1);
            assert(letter[0] == alphabet@[pick as int]);
            assert(text@ =~= before.push(alphabet@[pick as int]));
            let done = picks@.take(i as int);
            let taken = picks@.take(i + 1);
            assert(taken =~= done.push(pick));
            assert(spells(done, before));
            assert forall|k: int| 0 <= k < taken.len() implies (#[trigger] taken[k])
                < id_alphabet().len() by {
                if k < i {
                    assert(taken[k] == done[k]);
                }
            }
            assert forall|k: int| 0 <= k < taken.len() implies (#[trigger] text@[k])
                == id_alphabet()[taken[k] as int] by {
                if k < i {
                    assert(text@[k] == before[k]);
                    assert(taken[k] == done[k]);
                }
            }
        }
        i += 1;
    }
    assert(picks@.take(picks@.len() as int) =~= picks@);
    Some(text)
}

/// Whether `id` is well formed: [`INSTANCE_ID_LENGTH`] characters, each of
/// the alphabet.
pub open spec fn is_instance_id(id: Seq<char>) -> bool {
    &&& id.len() == INSTANCE_ID_LENGTH
    &&& forall|i: int| #![trigger id[i]] 0 <= i < id.len() ==> id_alphabet().contains(id[i])
}

/// Makes up a random instance id. Ids differ from call to call; each is
/// well formed.
pub fn generate_instance_id() -> (id: String)
    ensures
        is_instance_id(id@),
{
    let size = "abcdefghijklmnopqrstuvwxyz0123456789".unicode_len();
    proof {
        reveal_strlit("abcdefghijklmnopqrstuvwxyz0123456789");
    }
    let mut picks: Vec<usize> = Vec::new();
    let mut i: usize = 0;
    while i < INSTANCE_ID_LENGTH
        invariant
            i <= INSTANCE_ID_LENGTH,
            size == id_alphabet().len(),
            size == 36,
            picks@.len() == i,
            forall|k: int| 0 <= k < i ==> picks@[k] < size,
        decreases INSTANCE_ID_LENGTH - i,
    {
        picks.push(random_below(size));
        i += 1;
    }
    match instance_id_from(&picks) {
        Some(id) => {
            assert forall|k: int| #![trigger id@[k]] 0 <= k < id@.len() implies id_alphabet().contains(
                id@[k],
            ) by {
                assert(id@[k] == id_alphabet()[picks@[k] as int]);
            }
            id
        },
        None => vstd::pervasive::unreached(),
    }
}

} // verus!
