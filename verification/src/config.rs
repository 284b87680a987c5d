//! `mnem config`: which action the options ask for, the configuration keys
//! it accepts, and the messages it answers with.

use vstd::prelude::*;
use crate::text::str_eq;
use crate::timeline::opt_view;

verus! {

/// Whether `c` is white space by Unicode's `White_Space` property: tab,
/// line feed, vertical tab, form feed, carriage return, space, next line,
/// no-break space, ogham space mark, the spaces U+2000 to U+200A, line and
/// paragraph separator, narrow no-break space, medium mathematical space and
/// ideographic space.
pub open spec fn unicode_whitespace(c: char) -> bool {
    ||| ('\u{9}' <= c && c <= '\u{D}')
    ||| c == ' '
    ||| c == '\u{85}'
    ||| c == '\u{A0}'
    ||| c == '\u{1680}'
    ||| ('\u{2000}' <= c && c <= '\u{200A}')
    ||| c == '\u{2028}'
    ||| c == '\u{2029}'
    ||| c == '\u{202F}'
    ||| c == '\u{205F}'
    ||| c == '\u{3000}'
}

/// `c.is_whitespace()`.
pub fn is_whitespace(c: char) -> (r: bool)
    ensures
        r == unicode_whitespace(c),
{
    ('\u{9}' <= c && c <= '\u{D}')
        || c == ' '
        || c == '\u{85}'
        || c == '\u{A0}'
        || c == '\u{1680}'
        || ('\u{2000}' <= c && c <= '\u{200A}')
        || c == '\u{2028}'
        || c == '\u{2029}'
        || c == '\u{202F}'
        || c == '\u{205F}'
        || c == '\u{3000}'
}

/// `s` without its leading white space.
pub open spec fn trim_start_spec(s: Seq<char>) -> Seq<char>
    decreases s.len(),
{
    if s.len() > 0 && unicode_whitespace(s[0]) { trim_start_spec(s.drop_first()) } else { s }
}

/// `s` without its trailing white space.
pub open spec fn trim_end_spec(s: Seq<char>) -> Seq<char>
    decreases s.len(),
{
    if s.len() > 0 && unicode_whitespace(s.last()) { trim_end_spec(s.drop_last()) } else { s }
}

/// `s.trim()`.
pub open spec fn trim_spec(s: Seq<char>) -> Seq<char> {
    trim_end_spec(trim_start_spec(s))
}

/// `s.trim()`.
pub fn trim(s: &str) -> (r: &str)
    ensures
        r@ == trim_spec(s@),
{
    let n = s.unicode_len();
    let mut a: usize = 0;
    assert(s@.subrange(0, n as int) =~= s@);
    while a < n && is_whitespace(s.get_char(a))
        invariant
            n == s@.len(),
            a <= n,
            trim_start_spec(s@) == trim_start_spec(s@.subrange(a as int, n as int)),
        decreases n - a,
    {
        assert(s@.subrange(a as int, n as int).drop_first() =~= s@.subrange(a + 1, n as int));
        a = a + 1;
    }
    let mut b: usize = n;
    assert(trim_start_spec(s@) =~= s@.subrange(a as int, n as int));
    while b > a && is_whitespace(s.get_char(b - 1))
        invariant
            n == s@.len(),
            a <= b <= n,
            trim_start_spec(s@) == s@.subrange(a as int, n as int),
            trim_spec(s@) == trim_end_spec(s@.subrange(a as int, b as int)),
        decreases b - a,
    {
        assert(s@.subrange(a as int, b as int).drop_last() =~= s@.subrange(a as int, b - 1));
        b = b - 1;
    }
    s.substring_char(a, b)
}

/// The text before the first `=` of `s`, and the text after it, when `s`
/// holds one (`s.splitn(2, '=')` giving two parts).
pub open spec fn split_assignment(s: Seq<char>) -> Option<(Seq<char>, Seq<char>)> {
    if exists|i: int| 0 <= i < s.len() && s[i] == '=' {
        let i = choose|i: int| 0 <= i < s.len() && s[i] == '=' && forall|j: int| 0 <= j < i ==> s[j] != '=';
        Some((s.subrange(0, i), s.subrange(i + 1, s.len() as int)))
    } else {
        None
    }
}

/// Splits `key=value` at its first `=`.
pub fn split_once_eq(s: &str) -> (r: Option<(&str, &str)>)
    ensures
        match r {
            Some((k, v)) => split_assignment(s@) == Some((k@, v@)),
            None => split_assignment(s@) is None,
        },
{
    let n = s.unicode_len();
    let mut i: usize = 0;
    while i < n
        invariant
            n == s@.len(),
            i <= n,
            forall|j: int| 0 <= j < i ==> s@[j] != '=',
        decreases n - i,
    {
        if s.get_char(i) == '=' {
            proof {
                let c = choose|c: int| 0 <= c < s@.len() && s@[c] == '=' && forall|j: int| 0 <= j < c ==> s@[j] != '=';
                assert(0 <= i < s@.len() && s@[i as int] == '=' && forall|j: int| 0 <= j < i ==> s@[j] != '=');
                if c < i {
                    assert(s@[c] != '=');
                }
                if c > i {
                    assert(s@[i as int] != '=');
                }
            }
            return Some((s.substring_char(0, i), s.substring_char(i + 1, n)));
        }
        i = i + 1;
    }
    None
}

/// The key a configuration setting is stored under: the old flat names are
/// mapped to the nested ones, other keys are kept.
pub open spec fn normalize_key_spec(key: Seq<char>) -> Seq<char> {
    if key == "retention-days"@ || key == "retention_days"@ {
        "storage.retention_days"@
    } else if key == "compression"@ || key == "compression_enabled"@ {
        "storage.compression_enabled"@
    } else if key == "use-ignore"@ || key == "use_mnemosyneignore"@ {
        "storage.use_mnemosyneignore"@
    } else if key == "max-file-size"@ || key == "max_file_size_mb"@ {
        "storage.max_file_size_mb"@
    } else if key == "theme"@ || key == "theme_index"@ {
        "ui.theme_index"@
    } else if key == "ide"@ {
        "editor.ide"@
    } else {
        key
    }
}

/// Maps the old flat configuration keys to the nested ones.
pub fn normalize_key(key: &str) -> (r: String)
    ensures
        r@ == normalize_key_spec(key@),
{
    let k = if str_eq(key, "retention-days") || str_eq(key, "retention_days") {
        "storage.retention_days"
    } else if str_eq(key, "compression") || str_eq(key, "compression_enabled") {
        "storage.compression_enabled"
    } else if str_eq(key, "use-ignore") || str_eq(key, "use_mnemosyneignore") {
        "storage.use_mnemosyneignore"
    } else if str_eq(key, "max-file-size") || str_eq(key, "max_file_size_mb") {
        "storage.max_file_size_mb"
    } else if str_eq(key, "theme") || str_eq(key, "theme_index") {
        "ui.theme_index"
    } else if str_eq(key, "ide") {
        "editor.ide"
    } else {
        key
    };
    String::from_str(k)
}

/// Manage Mnemosyne configuration.
#[derive(Debug, Clone)]
pub struct ConfigCommand {
    /// Get a specific configuration value
    pub get: Option<String>,
    /// Set a specific configuration value (format: key=value)
    pub set: Option<String>,
    /// Reset configuration to defaults
    pub reset: bool,
}

/// What a `config` invocation asks for.
#[derive(Debug, Clone)]
pub enum ConfigPlan {
    /// Delete the configuration file so that the defaults come back.
    Reset,
    /// Show the value stored under `normalized` (the user wrote `key`).
    Get { key: String, normalized: String },
    /// Store `value` under `normalized` (the user wrote `key`).
    Assign { key: String, value: String, normalized: String },
    /// `--set` without a `=`: show how to use it.
    SetUsage,
    /// Show the whole configuration.
    Show,
}

/// The plan for the given options.
pub open spec fn config_plan_spec(c: ConfigCommand, r: ConfigPlan) -> bool {
    if c.reset {
        r is Reset
    } else if c.get is Some {
        let k = c.get->0@;
        r matches ConfigPlan::Get { key, normalized } && key@ == k && normalized@ == normalize_key_spec(k)
    } else if c.set is Some {
        match split_assignment(c.set->0@) {
            Some((k, v)) => r matches ConfigPlan::Assign { key, value, normalized }
                && key@ == trim_spec(k) && value@ == trim_spec(v)
                && normalized@ == normalize_key_spec(trim_spec(k)),
            None => r is SetUsage,
        }
    } else {
        r is Show
    }
}

impl ConfigCommand {
    /// Which action the options ask for: reset first, then get, then set.
    pub fn plan(&self) -> (r: ConfigPlan)
        ensures
            config_plan_spec(*self, r),
    {
        if self.reset {
            return ConfigPlan::Reset;
        }
        if let Some(k) = &self.get {
            return ConfigPlan::Get { key: k.clone(), normalized: normalize_key(k.as_str()) };
        }
        if let Some(kv) = &self.set {
            return match split_once_eq(kv.as_str()) {
                Some((k, v)) => {
                    let key = trim(k);
                    let value = trim(v);
                    ConfigPlan::Assign {
                        key: String::from_str(key),
                        value: String::from_str(value),
                        normalized: normalize_key(key),
                    }
                },
                None => ConfigPlan::SetUsage,
            };
        }
        ConfigPlan::Show
    }
}

/// The message after storing `value` under `key`.
pub fn set_message(key: &str, value: &str) -> (r: String)
    ensures
        r@ == "Set "@ + key@ + " = "@ + value@,
{
    let mut s = String::from_str("Set ");
    s.append(key);
    s.append(" = ");
    s.append(value);
    s
}

/// The message after storing a value failed with `err`.
pub fn set_failed_message(err: &str) -> (r: String)
    ensures
        r@ == "Failed to set config: "@ + err@,
{
    let mut s = String::from_str("Failed to set config: ");
    s.append(err);
    s
}

/// Storage settings.
#[derive(Debug, Clone)]
pub struct StorageConfig {
    pub retention_days: u64,
    pub compression_enabled: bool,
    pub use_mnemosyneignore: bool,
    pub max_file_size_mb: u64,
}

/// Interface settings.
#[derive(Debug, Clone)]
pub struct UiConfig {
    pub theme_index: usize,
}

/// Editor settings.
#[derive(Debug, Clone)]
pub struct EditorConfig {
    pub ide: String,
}

/// The whole configuration, as shown.
#[derive(Debug, Clone)]
pub struct ConfigData {
    pub storage: StorageConfig,
    pub ui: UiConfig,
    pub editor: EditorConfig,
}

/// The answer of `mnem config`.
#[derive(Debug, Clone)]
pub struct ConfigResponse {
    pub success: bool,
    pub message: String,
    pub config: Option<ConfigData>,
}

impl ConfigResponse {
    /// The answer after a reset.
    pub fn reset_done() -> (r: ConfigResponse)
        ensures
            r.success && r.message@ == "Config reset to defaults"@ && r.config is None,
    {
        ConfigResponse { success: true, message: String::from_str("Config reset to defaults"), config: None }
    }

    /// The answer after storing `value` under `key`.
    pub fn set_done(key: &str, value: &str) -> (r: ConfigResponse)
        ensures
            r.success && r.message@ == "Set "@ + key@ + " = "@ + value@ && r.config is None,
    {
        ConfigResponse { success: true, message: set_message(key, value), config: None }
    }

    /// The answer that shows the whole configuration.
    pub fn current(config: ConfigData) -> (r: ConfigResponse)
        ensures
            r.success && r.message@ == "Current configuration"@ && r.config == Some(config),
    {
        ConfigResponse { success: true, message: String::from_str("Current configuration"), config: Some(config) }
    }
}

/// Normalizing a key twice gives the same key as normalizing it once: the
/// nested keys are left as they are.
pub proof fn law_normalize_key_idempotent(key: Seq<char>)
    ensures
        normalize_key_spec(normalize_key_spec(key)) == normalize_key_spec(key),
{
    reveal_strlit("storage.retention_days");
    reveal_strlit("storage.compression_enabled");
    reveal_strlit("storage.use_mnemosyneignore");
    reveal_strlit("storage.max_file_size_mb");
    reveal_strlit("ui.theme_index");
    reveal_strlit("editor.ide");
    reveal_strlit("retention-days");
    reveal_strlit("retention_days");
    reveal_strlit("compression");
    reveal_strlit("compression_enabled");
    reveal_strlit("use-ignore");
    reveal_strlit("use_mnemosyneignore");
    reveal_strlit("max-file-size");
    reveal_strlit("max_file_size_mb");
    reveal_strlit("theme");
    reveal_strlit("theme_index");
    reveal_strlit("ide");
    assert("storage.retention_days"@.len() == 22);
    assert("storage.compression_enabled"@.len() == 27);
    assert("storage.use_mnemosyneignore"@.len() == 27);
    assert("storage.max_file_size_mb"@.len() == 24);
    assert("ui.theme_index"@.len() == 14);
    assert("editor.ide"@.len() == 10);
    assert("retention-days"@.len() == 14);
    assert("retention_days"@.len() == 14);
    assert("compression"@.len() == 11);
    assert("compression_enabled"@.len() == 19);
    assert("use-ignore"@.len() == 10);
    assert("use_mnemosyneignore"@.len() == 19);
    assert("max-file-size"@.len() == 13);
    assert("max_file_size_mb"@.len() == 16);
    assert("theme"@.len() == 5);
    assert("theme_index"@.len() == 11);
    assert("ide"@.len() == 3);
    assert("editor.ide"@ != "use-ignore"@) by {
        assert("editor.ide"@[0] != "use-ignore"@[0]);
    }
    assert("ui.theme_index"@ != "retention-days"@) by {
        assert("ui.theme_index"@[0] != "retention-days"@[0]);
    }
    assert("ui.theme_index"@ != "retention_days"@) by {
        assert("ui.theme_index"@[0] != "retention_days"@[0]);
    }
}

} // verus!
