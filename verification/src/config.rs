//! Run-wide settings: destination path, site title and description, and the
//! placeholder tokens the template engine substitutes.
//!
//! Settings come from an optional JSON file.  Every field is independently
//! optional: a missing or invalid field falls back to the default for that
//! field, and an absent or unparseable file yields the all-default
//! configuration.  The file reading and JSON decoding live outside the
//! library; the library receives the fields that were present as
//! [`RawConfig`] and resolves them here.

use vstd::prelude::*;

verus! {

/// Why a settings file could not be used.
#[derive(Debug)]
pub enum ConfigError {
    /// The file exists but is not valid for the expected schema.
    InvalidConfig,
    /// The file could not be read.
    CantReadFile,
}

impl ConfigError {
    /// A short human-readable name for the error.
    pub fn message(&self) -> (s: &'static str)
        ensures
            s@ == match self {
                ConfigError::InvalidConfig => "InvalidConfig"@,
                ConfigError::CantReadFile => "CantReadFile"@,
            },
    {
        match self {
            ConfigError::InvalidConfig => "InvalidConfig",
            ConfigError::CantReadFile => "CantReadFile",
        }
    }
}

/// The settings fields exactly as found in the settings file: each is
/// `None` when the field was missing or not a string.
pub struct RawConfig {
    pub dest: Option<String>,
    pub title: Option<String>,
    pub description: Option<String>,
    pub selector_content: Option<String>,
    pub selector_title: Option<String>,
    pub selector_description: Option<String>,
    pub selector_timestamp: Option<String>,
    pub selector_main_image: Option<String>,
}

/// Immutable settings resolved once per run.
pub struct Config {
    /// Destination directory of the rendered site.
    pub dest: String,
    /// Site title, used for the front page.
    pub title: String,
    /// Site description.
    pub description: String,
    /// Placeholder token replaced by the page content.
    pub selector_content: String,
    /// Placeholder token replaced by the page title.
    pub selector_title: String,
    /// Placeholder token replaced by the post description.
    pub selector_description: String,
    /// Placeholder token replaced by the post date.
    pub selector_timestamp: String,
    /// Placeholder token replaced by the post's main image reference.
    pub selector_main_image: String,
}

pub open spec fn default_dest() -> Seq<char> {
    "./public"@
}

pub open spec fn default_title() -> Seq<char> {
    "Blogname"@
}

pub open spec fn default_description() -> Seq<char> {
    "Blogname"@
}

pub open spec fn default_selector_content() -> Seq<char> {
    "CONTENT"@
}

pub open spec fn default_selector_title() -> Seq<char> {
    "TITLE"@
}

pub open spec fn default_selector_description() -> Seq<char> {
    "DESCRIPTION"@
}

pub open spec fn default_selector_timestamp() -> Seq<char> {
    "TIMESTAMP"@
}

pub open spec fn default_selector_main_image() -> Seq<char> {
    "MAIN_IMAGE"@
}

/// One settings field resolved: the value found in the file if the field
/// was present, the default for that field otherwise.
pub open spec fn field_resolved(found: Option<String>, value: Seq<char>, dflt: Seq<char>) -> bool {
    match found {
        Some(s) => value == s@,
        None => value == dflt,
    }
}

/// The whole configuration resolved from the fields found in the file.
pub open spec fn config_resolved(raw: RawConfig, c: Config) -> bool {
    &&& field_resolved(raw.dest, c.dest@, default_dest())
    &&& field_resolved(raw.title, c.title@, default_title())
    &&& field_resolved(raw.description, c.description@, default_description())
    &&& field_resolved(raw.selector_content, c.selector_content@, default_selector_content())
    &&& field_resolved(raw.selector_title, c.selector_title@, default_selector_title())
    &&& field_resolved(
        raw.selector_description,
        c.selector_description@,
        default_selector_description(),
    )
    &&& field_resolved(raw.selector_timestamp, c.selector_timestamp@, default_selector_timestamp())
    &&& field_resolved(
        raw.selector_main_image,
        c.selector_main_image@,
        default_selector_main_image(),
    )
}

/// All fields hold their defaults.
pub open spec fn config_is_default(c: Config) -> bool {
    &&& c.dest@ == default_dest()
    &&& c.title@ == default_title()
    &&& c.description@ == default_description()
    &&& c.selector_content@ == default_selector_content()
    &&& c.selector_title@ == default_selector_title()
    &&& c.selector_description@ == default_selector_description()
    &&& c.selector_timestamp@ == default_selector_timestamp()
    &&& c.selector_main_image@ == default_selector_main_image()
}

impl Config {
    /// Resolve the fields found in the settings file, falling back to the
    /// default for every field that was absent.
    pub fn resolve(raw: RawConfig) -> (c: Config)
        ensures
            config_resolved(raw, c),
    {
        Config {
            dest: match raw.dest {
                Some(s) => s,
                None => "./public".to_owned(),
            },
            title: match raw.title {
                Some(s) => s,
                None => "Blogname".to_owned(),
            },
            description: match raw.description {
                Some(s) => s,
                None => "Blogname".to_owned(),
            },
            selector_content: match raw.selector_content {
                Some(s) => s,
                None => "CONTENT".to_owned(),
            },
            selector_title: match raw.selector_title {
                Some(s) => s,
                None => "TITLE".to_owned(),
            },
            selector_description: match raw.selector_description {
                Some(s) => s,
                None => "DESCRIPTION".to_owned(),
            },
            selector_timestamp: match raw.selector_timestamp {
                Some(s) => s,
                None => "TIMESTAMP".to_owned(),
            },
            selector_main_image: match raw.selector_main_image {
                Some(s) => s,
                None => "MAIN_IMAGE".to_owned(),
            },
        }
    }
}

impl Default for Config {
    /// The configuration used when no settings file can be read.
    fn default() -> (c: Config)
        ensures
            config_is_default(c),
    {
        Config {
            dest: "./public".to_owned(),
            title: "Blogname".to_owned(),
            description: "Blogname".to_owned(),
            selector_content: "CONTENT".to_owned(),
            selector_title: "TITLE".to_owned(),
            selector_description: "DESCRIPTION".to_owned(),
            selector_timestamp: "TIMESTAMP".to_owned(),
            selector_main_image: "MAIN_IMAGE".to_owned(),
        }
    }
}

} // verus!
