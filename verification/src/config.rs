//! Layered, fail-soft configuration loading.
//!
//! A settings file is looked up across an ordered list of candidate
//! directories (highest priority first).  The first directory that holds the
//! file decides; a missing file silently yields the defaults, while an
//! unreadable or malformed file yields the defaults together with a request
//! for a diagnostic.  The `toml` crate deserializes the text into the raw
//! schema — a failure there (bad syntax, or a key of the wrong type) is a
//! failure of the whole file — and this module validates the raw values
//! into settings.

use vstd::prelude::*;
use vstd::string::StringExecFns;

verus! {

/// Default number of rows kept visible above and below the selection.
pub const DEFAULT_SCROLL_OFFSET: usize = 6;

/// Largest `scroll_offset` value accepted from a settings file; it fits the
/// index range of every supported platform.  Anything larger (or negative)
/// falls back to the default.
pub const MAX_SCROLL_OFFSET_SETTING: i64 = 0xFFFF_FFFF;

/// How entry rows are numbered in the listing pane.
#[derive(Clone, Copy, Debug, PartialEq, Eq, Structural)]
pub enum LineNumberStyle {
    NoNumbers,
    Relative,
    Absolute,
}

/// Validated, in-memory settings; immutable after loading except through an
/// explicit update operation.
#[derive(Clone, Copy, Debug, PartialEq, Eq, Structural)]
pub struct AppConfig {
    pub scroll_offset: usize,
    pub tilde_in_titlebar: bool,
    pub line_nums: LineNumberStyle,
}

/// The on-disk schema: every field optional, exactly as it may or may not
/// appear in the settings file.  A key that is present but holds the wrong
/// type does not deserialize into this schema at all; that is a failure of
/// the whole file.
#[derive(Clone, Debug)]
pub struct RawAppConfig {
    pub scroll_offset: Option<i64>,
    pub tilde_in_titlebar: Option<bool>,
    pub line_nums: Option<String>,
}

/// The settings used when no file (or no usable value) is found.
pub open spec fn spec_default_app_config() -> AppConfig {
    AppConfig {
        scroll_offset: DEFAULT_SCROLL_OFFSET,
        tilde_in_titlebar: true,
        line_nums: LineNumberStyle::NoNumbers,
    }
}

/// The numbering style a settings-file string stands for; anything but the
/// two known names means no numbering.
pub open spec fn spec_style_of(s: Seq<char>) -> LineNumberStyle {
    if s == "absolute"@ {
        LineNumberStyle::Absolute
    } else if s == "relative"@ {
        LineNumberStyle::Relative
    } else {
        LineNumberStyle::NoNumbers
    }
}

/// The validated scroll margin: a missing, negative or oversized raw value
/// falls back to the default.
pub open spec fn spec_clean_scroll_offset(v: Option<i64>) -> usize {
    match v {
        Some(i) => if 0 <= i && i <= MAX_SCROLL_OFFSET_SETTING {
            i as usize
        } else {
            DEFAULT_SCROLL_OFFSET
        },
        None => DEFAULT_SCROLL_OFFSET,
    }
}

/// The validated settings a raw schema value cleans up to, field by field.
pub open spec fn spec_clean(raw: RawAppConfig) -> AppConfig {
    AppConfig {
        scroll_offset: spec_clean_scroll_offset(raw.scroll_offset),
        tilde_in_titlebar: match raw.tilde_in_titlebar {
            Some(b) => b,
            None => true,
        },
        line_nums: match raw.line_nums {
            Some(s) => spec_style_of(s@),
            None => LineNumberStyle::NoNumbers,
        },
    }
}

/// Parses a numbering-style name from a settings file, per `spec_style_of`.
pub fn style_of_str(s: &String) -> (r: LineNumberStyle)
    ensures
        r == spec_style_of(s@),
{
    let absolute: String = "absolute".to_owned();
    let relative: String = "relative".to_owned();
    if *s == absolute {
        LineNumberStyle::Absolute
    } else if *s == relative {
        LineNumberStyle::Relative
    } else {
        LineNumberStyle::NoNumbers
    }
}

impl AppConfig {
    /// Cleans a raw schema value into validated settings, per `spec_clean`.
    pub fn from_raw(raw: &RawAppConfig) -> (r: AppConfig)
        ensures
            r == spec_clean(*raw),
    {
        let scroll_offset: usize = match raw.scroll_offset {
            Some(i) => if 0 <= i && i <= MAX_SCROLL_OFFSET_SETTING {
                i as usize
            } else {
                DEFAULT_SCROLL_OFFSET
            },
            None => DEFAULT_SCROLL_OFFSET,
        };
        let tilde_in_titlebar: bool = match raw.tilde_in_titlebar {
            Some(b) => b,
            None => true,
        };
        let line_nums: LineNumberStyle = match &raw.line_nums {
            Some(s) => style_of_str(s),
            None => LineNumberStyle::NoNumbers,
        };
        AppConfig { scroll_offset, tilde_in_titlebar, line_nums }
    }
}

impl Default for AppConfig {
    /// The defaults used whenever no settings file decides otherwise.
    fn default() -> (r: AppConfig)
        ensures
            r == spec_default_app_config(),
    {
        AppConfig {
            scroll_offset: DEFAULT_SCROLL_OFFSET,
            tilde_in_titlebar: true,
            line_nums: LineNumberStyle::NoNumbers,
        }
    }
}

/// The raw schema that deserializing a settings text yields: `None` exactly
/// when the text is no well-formed settings file (bad TOML, or a known key
/// of the wrong type).  The outcome depends on the text alone.
pub uninterp spec fn spec_raw_of_text(text: Seq<char>) -> Option<RawAppConfig>;

/// Relies on `toml::from_str` and the `toml::Value` accessors (`get`,
/// `as_integer`, `as_bool`, `as_str`): deserializes settings text into the
/// raw schema, named `spec_raw_of_text`.  A syntax error, or a known key
/// holding the wrong type, fails the whole text; a missing key leaves its
/// field `None`.
#[verifier::external_body]
fn parse_raw_text(text: &str) -> (r: Option<RawAppConfig>)
    ensures
        r == spec_raw_of_text(text@),
{
    let v: toml::Value = toml::from_str(text).ok()?;
    let scroll_offset = match v.get("scroll_offset") {
        Some(x) => Some(x.as_integer()?),
        None => None,
    };
    let tilde_in_titlebar = match v.get("tilde_in_titlebar") {
        Some(x) => Some(x.as_bool()?),
        None => None,
    };
    let line_nums = match v.get("line_nums") {
        Some(x) => Some(x.as_str()?.to_owned()),
        None => None,
    };
    Some(RawAppConfig { scroll_offset, tilde_in_titlebar, line_nums })
}

/// What probing one candidate directory for the settings file yielded: no
/// file, a file that could not be read, or the file's text.
#[derive(Clone, Debug)]
pub enum ConfigCandidate {
    Absent,
    Unreadable,
    Text(String),
}

/// The position of the first candidate that holds the file (readable or
/// not), scanning from `p`; `None` when every remaining candidate is absent.
pub open spec fn spec_first_present_from(cs: Seq<ConfigCandidate>, p: int) -> Option<int>
    decreases cs.len() - p,
{
    if p < 0 || p >= cs.len() {
        None
    } else if !(cs[p] is Absent) {
        Some(p)
    } else {
        spec_first_present_from(cs, p + 1)
    }
}

/// The position of the highest-priority candidate that holds the file.
pub open spec fn spec_first_present(cs: Seq<ConfigCandidate>) -> Option<int> {
    spec_first_present_from(cs, 0)
}

/// A settings type loadable from a TOML file: it has a default, and an
/// injected conversion from the raw on-disk schema.
pub trait TomlConfigFile: Sized {
    /// The value used when no settings file decides otherwise.
    spec fn spec_default_config() -> Self;

    fn default_config() -> (r: Self)
        ensures
            r == Self::spec_default_config(),
    ;

    /// The settings this type cleans a raw schema value up to.
    spec fn spec_from_raw(raw: RawAppConfig) -> Self;

    fn from_raw_schema(raw: &RawAppConfig) -> (r: Self)
        ensures
            r == Self::spec_from_raw(*raw),
    ;
}

/// Turns the outcome of deserializing a settings text into settings: a raw
/// schema value is cleaned through the injected conversion, a failed parse
/// yields the default together with the request for a diagnostic.
pub fn config_of_parse<S: TomlConfigFile>(parsed: Option<RawAppConfig>) -> (r: (S, bool))
    ensures
        (match parsed {
            Some(raw) => r.0 == S::spec_from_raw(raw) && r.1 == false,
            None => r.0 == S::spec_default_config() && r.1 == true,
        }),
{
    match parsed {
        Some(raw) => (S::from_raw_schema(&raw), false),
        None => (S::default_config(), true),
    }
}

/// The layered loader: the first candidate that holds the file decides; any
/// failure falls back to the default.  A readable text that deserializes
/// yields exactly the cleaned-up value of its raw schema.  The boolean asks
/// the caller to emit a diagnostic, which an absent file never does.
pub fn parse_config_or_default<S: TomlConfigFile>(candidates: &Vec<ConfigCandidate>) -> (r: (
    S,
    bool,
))
    ensures
        r.1 ==> r.0 == S::spec_default_config(),
        (match spec_first_present(candidates@) {
            None => r.0 == S::spec_default_config() && r.1 == false,
            Some(i) => match candidates@[i] {
                ConfigCandidate::Absent => true,
                ConfigCandidate::Unreadable => r.0 == S::spec_default_config() && r.1 == true,
                ConfigCandidate::Text(t) => match spec_raw_of_text(t@) {
                    Some(raw) => r.0 == S::spec_from_raw(raw) && r.1 == false,
                    None => r.0 == S::spec_default_config() && r.1 == true,
                },
            },
        }),
{
    let n = candidates.len();
    let mut i: usize = 0;
    while i < n
        invariant
            i <= n,
            n == candidates@.len(),
            spec_first_present(candidates@) == spec_first_present_from(candidates@, i as int),
        decreases n - i,
    {
        match &candidates[i] {
            ConfigCandidate::Absent => {
                i = i + 1;
            },
            ConfigCandidate::Unreadable => {
                return (S::default_config(), true);
            },
            ConfigCandidate::Text(t) => {
                let parsed = parse_raw_text(t.as_str());
                return config_of_parse::<S>(parsed);
            },
        }
    }
    (S::default_config(), false)
}

impl TomlConfigFile for AppConfig {
    open spec fn spec_default_config() -> AppConfig {
        spec_default_app_config()
    }

    fn default_config() -> (r: AppConfig) {
        AppConfig {
            scroll_offset: DEFAULT_SCROLL_OFFSET,
            tilde_in_titlebar: true,
            line_nums: LineNumberStyle::NoNumbers,
        }
    }

    open spec fn spec_from_raw(raw: RawAppConfig) -> AppConfig {
        spec_clean(raw)
    }

    fn from_raw_schema(raw: &RawAppConfig) -> (r: AppConfig) {
        AppConfig::from_raw(raw)
    }
}

impl AppConfig {
    /// Loads the settings from probed candidates, swallowing every failure
    /// into the default value: the first present candidate decides, and a
    /// text that deserializes yields exactly its cleaned-up settings.
    pub fn get_config(candidates: &Vec<ConfigCandidate>) -> (r: AppConfig)
        ensures
            (match spec_first_present(candidates@) {
                None => r == spec_default_app_config(),
                Some(i) => match candidates@[i] {
                    ConfigCandidate::Absent => true,
                    ConfigCandidate::Unreadable => r == spec_default_app_config(),
                    ConfigCandidate::Text(t) => match spec_raw_of_text(t@) {
                        Some(raw) => r == spec_clean(raw),
                        None => r == spec_default_app_config(),
                    },
                },
            }),
    {
        let loaded: (AppConfig, bool) = parse_config_or_default::<AppConfig>(candidates);
        loaded.0
    }
}

/// Relies on `std::path::Path::exists`: whether anything on disk answers to
/// the path at this moment.
#[verifier::external_body]
fn path_exists(path: &str) -> (r: bool) {
    std::path::Path::new(path).exists()
}

/// Probes an ordered list of directories for `file_name` and returns the
/// first path whose file exists on disk right now.  Any returned path is one
/// of the probed directories joined with the file name.
pub fn search_directories(file_name: &str, directories: &Vec<String>) -> (r: Option<String>)
    ensures
        (match r {
            Some(p) => exists|i: int|
                0 <= i < directories@.len() && p@ == directories@[i]@ + "/"@ + file_name@,
            None => true,
        }),
        directories@.len() == 0 ==> r is None,
{
    let n = directories.len();
    let mut i: usize = 0;
    while i < n
        invariant
            i <= n,
            n == directories@.len(),
        decreases n - i,
    {
        let dir: &String = &directories[i];
        let mut candidate: String = dir.clone();
        candidate.append("/");
        candidate.append(file_name);
        if path_exists(candidate.as_str()) {
            return Some(candidate);
        }
        i = i + 1;
    }
    None
}

/// Probes the process-wide configuration hierarchy (highest priority first,
/// as the embedder assembled it) for `file_name`.
pub fn search_config_directories(file_name: &str, config_hierarchy: &Vec<String>) -> (r: Option<
    String,
>)
    ensures
        (match r {
            Some(p) => exists|i: int|
                0 <= i < config_hierarchy@.len() && p@ == config_hierarchy@[i]@ + "/"@
                    + file_name@,
            None => true,
        }),
        config_hierarchy@.len() == 0 ==> r is None,
{
    search_directories(file_name, config_hierarchy)
}

} // verus!
