use crate::toml_value::{
    as_array, as_str, get, parse, toml_document, toml_view, toml_views, TomlView,
};
use vstd::prelude::*;

verus! {

/// Name of the configuration file inside the configuration directory.
pub const CONFIG_NAME: &'static str = "knot.toml";

/// Name of the page template inside the configuration directory.
pub const TEMPLATE_NAME: &'static str = "template.html";

/// Name of the directory of static files inside the configuration
/// directory.
pub const STATIC_NAME: &'static str = "static";

/// Where notes are read where the command line names no directory.
pub const DEFAULT_INDIR: &'static str = ".";

/// Where the site is written where the command line names no directory.
pub const DEFAULT_OUTDIR: &'static str = "_public";

/// Where the configuration lives where the command line names no directory.
pub const DEFAULT_CONFDIR: &'static str = "_knot";

/// What the command line settles: where notes are read, where the site is
/// written, where the configuration lives, and whether to report
/// progress.
#[derive(Debug, Clone, PartialEq, Eq)]
pub struct Options {
    /// The directory that notes are read from.
    pub indir: String,
    /// The directory that the site is written to.
    pub outdir: String,
    /// The directory that holds the configuration file, the template and
    /// the static files.
    pub confdir: String,
    /// Whether progress goes unreported.
    pub quiet: bool,
}

/// Everything a run is configured by. It does not change during a run.
#[derive(Debug, Clone, PartialEq, Eq)]
pub struct Config {
    /// The key that addresses are derived with.
    pub secret: String,
    /// The directory that notes are read from.
    pub indir: String,
    /// The directory that the site is written to.
    pub outdir: String,
    /// The directory that holds the configuration file, the template and
    /// the static files.
    pub confdir: String,
    /// Whether progress goes unreported.
    pub quiet: bool,
    /// The extensions that notes have. Order and repetition mean nothing.
    pub extensions: Vec<String>,
}

/// What an `Options` is to a contract.
pub struct OptionsView {
    pub indir: Seq<char>,
    pub outdir: Seq<char>,
    pub confdir: Seq<char>,
    pub quiet: bool,
}

/// What a `Config` is to a contract.
pub struct ConfigView {
    pub secret: Seq<char>,
    pub indir: Seq<char>,
    pub outdir: Seq<char>,
    pub confdir: Seq<char>,
    pub quiet: bool,
    pub extensions: Seq<Seq<char>>,
}

impl View for Options {
    type V = OptionsView;

    open spec fn view(&self) -> OptionsView {
        OptionsView {
            indir: self.indir@,
            outdir: self.outdir@,
            confdir: self.confdir@,
            quiet: self.quiet,
        }
    }
}

impl View for Config {
    type V = ConfigView;

    open spec fn view(&self) -> ConfigView {
        ConfigView {
            secret: self.secret@,
            indir: self.indir@,
            outdir: self.outdir@,
            confdir: self.confdir@,
            quiet: self.quiet,
            extensions: self.extensions.deep_view(),
        }
    }
}

/// The options that a command line asks for: the first free argument is
/// the directory of notes, and what is not named has its default.
pub open spec fn options_of(
    free: Seq<Seq<char>>,
    outdir: Option<Seq<char>>,
    confdir: Option<Seq<char>>,
    quiet: bool,
) -> OptionsView {
    OptionsView {
        indir: if free.len() >= 1 {
            free[0]
        } else {
            DEFAULT_INDIR@
        },
        outdir: match outdir {
            Some(dir) => dir,
            None => DEFAULT_OUTDIR@,
        },
        confdir: match confdir {
            Some(dir) => dir,
            None => DEFAULT_CONFDIR@,
        },
        quiet,
    }
}

/// Settles the options from what the command line held: its free
/// arguments, the output and configuration directories if it named them,
/// and whether it asked for quiet.
pub fn resolve_options(
    free: &Vec<String>,
    outdir: Option<String>,
    confdir: Option<String>,
    quiet: bool,
) -> (opts: Options)
    ensures
        opts@ == options_of(
            free.deep_view(),
            match outdir {
                Some(dir) => Some(dir@),
                None => None,
            },
            match confdir {
                Some(dir) => Some(dir@),
                None => None,
            },
            quiet,
        ),
{
    let indir = if free.len() >= 1 {
        free[0].clone()
    } else {
        DEFAULT_INDIR.to_owned()
    };
    let outdir = match outdir {
        Some(dir) => dir,
        None => DEFAULT_OUTDIR.to_owned(),
    };
    let confdir = match confdir {
        Some(dir) => dir,
        None => DEFAULT_CONFDIR.to_owned(),
    };
    Options { indir, outdir, confdir, quiet }
}

/// Why a configuration is refused.
#[derive(Debug, Clone, Copy, PartialEq, Eq, Structural)]
pub enum ConfigError {
    /// The text is not a TOML document.
    Malformed,
    /// The document has no `secret`.
    MissingSecret,
    /// `secret` is not a string.
    SecretNotString,
    /// `extensions` is not an array.
    ExtensionsNotList,
    /// An item of `extensions` is not a string.
    ExtensionNotString,
}

/// The extensions that notes have where the configuration names none.
pub open spec fn default_extensions() -> Seq<Seq<char>> {
    seq!["md"@, "mkdn"@, "markdown"@, "txt"@]
}

/// The entry of a table under a key; none where the value is not a table
/// or the table has no such key.
pub open spec fn entry_of(value: TomlView, key: Seq<char>) -> Option<TomlView> {
    match value {
        TomlView::Table(entries) => if entries.contains_key(key) {
            Some(entries[key])
        } else {
            None
        },
        _ => None,
    }
}

/// The secret that a document configures.
pub open spec fn secret_of(doc: TomlView) -> Result<Seq<char>, ConfigError> {
    match entry_of(doc, "secret"@) {
        None => Err(ConfigError::MissingSecret),
        Some(TomlView::Str(secret)) => Ok(secret),
        Some(_) => Err(ConfigError::SecretNotString),
    }
}

/// The texts of a list of values, where every one of them is a string.
pub open spec fn strings_of(items: Seq<TomlView>) -> Option<Seq<Seq<char>>> {
    if forall|i: int| 0 <= i < items.len() ==> (#[trigger] items[i]) is Str {
        Some(Seq::new(items.len(), |i: int| items[i]->Str_0))
    } else {
        None
    }
}

/// The extensions that a document configures.
pub open spec fn extensions_of(doc: TomlView) -> Result<Seq<Seq<char>>, ConfigError> {
    match entry_of(doc, "extensions"@) {
        None => Ok(default_extensions()),
        Some(TomlView::Array(items)) => match strings_of(items) {
            None => Err(ConfigError::ExtensionNotString),
            Some(extensions) => Ok(extensions),
        },
        Some(_) => Err(ConfigError::ExtensionsNotList),
    }
}

/// The configuration that options and a document make. The secret is
/// looked at first, so its error comes first.
pub open spec fn config_of(opts: OptionsView, doc: TomlView) -> Result<ConfigView, ConfigError> {
    match secret_of(doc) {
        Err(e) => Err(e),
        Ok(secret) => match extensions_of(doc) {
            Err(e) => Err(e),
            Ok(extensions) => Ok(
                ConfigView {
                    secret,
                    indir: opts.indir,
                    outdir: opts.outdir,
                    confdir: opts.confdir,
                    quiet: opts.quiet,
                    extensions,
                },
            ),
        },
    }
}

/// Whether `outcome` is what `wanted` says: the same error, or a
/// configuration with the same view.
pub open spec fn config_matches(
    outcome: Result<Config, ConfigError>,
    wanted: Result<ConfigView, ConfigError>,
) -> bool {
    match wanted {
        Ok(view) => outcome matches Ok(config) && config@ == view,
        Err(e) => outcome matches Err(got) && got == e,
    }
}

/// The extensions that notes have by default: `md`, `mkdn`, `markdown`
/// and `txt`.
pub fn default_note_extensions() -> (extensions: Vec<String>)
    ensures
        extensions.deep_view() == default_extensions(),
{
    let mut extensions: Vec<String> = Vec::new();
    extensions.push("md".to_owned());
    extensions.push("mkdn".to_owned());
    extensions.push("markdown".to_owned());
    extensions.push("txt".to_owned());
    extensions
}

/// Reads the texts of a list of values; none where one is not a string.
fn strings_from(items: &Vec<toml::Value>) -> (texts: Option<Vec<String>>)
    ensures
        match strings_of(toml_views(items@)) {
            Some(wanted) => texts matches Some(got) && got.deep_view() == wanted,
            None => texts is None,
        },
{
    let mut texts: Vec<String> = Vec::new();
    let mut i: usize = 0;
    while i < items.len()
        invariant
            i <= items.len(),
            texts.len() == i,
            forall|j: int|
                0 <= j < i ==> (#[trigger] toml_views(items@)[j]) == TomlView::Str(
                    texts@[j]@,
                ),
        decreases items.len() - i,
    {
        assert(toml_views(items@)[i as int] == toml_view(items@[i as int]));
        match as_str(&items[i]) {
            None => {
                return None;
            },
            Some(text) => {
                texts.push(text.to_owned());
            },
        }
        i += 1;
    }
    Some(texts)
}

/// Makes the configuration from the options and a parsed document.
pub fn config_from_document(opts: Options, doc: &toml::Value) -> (config: Result<
    Config,
    ConfigError,
>)
    ensures
        config_matches(config, config_of(opts@, toml_view(*doc))),
{
    let secret = match get(doc, "secret") {
        None => {
            return Err(ConfigError::MissingSecret);
        },
        Some(value) => match as_str(value) {
            None => {
                return Err(ConfigError::SecretNotString);
            },
            Some(text) => text.to_owned(),
        },
    };
    let extensions = match get(doc, "extensions") {
        None => default_note_extensions(),
        Some(value) => match as_array(value) {
            None => {
                return Err(ConfigError::ExtensionsNotList);
            },
            Some(items) => match strings_from(items) {
                None => {
                    return Err(ConfigError::ExtensionNotString);
                },
                Some(texts) => texts,
            },
        },
    };
    Ok(
        Config {
            secret,
            indir: opts.indir,
            outdir: opts.outdir,
            confdir: opts.confdir,
            quiet: opts.quiet,
            extensions,
        },
    )
}

/// Makes the configuration from the options and the text of the
/// configuration file.
pub fn load_config(opts: Options, conftoml: &str) -> (config: Result<Config, ConfigError>)
    ensures
        match toml_document(conftoml@) {
            None => config matches Err(e) && e == ConfigError::Malformed,
            Some(doc) => config_matches(config, config_of(opts@, doc)),
        },
{
    match parse(conftoml) {
        Err(_) => Err(ConfigError::Malformed),
        Ok(doc) => config_from_document(opts, &doc),
    }
}

impl ConfigError {
    /// The error in words.
    pub fn message(&self) -> (text: &'static str)
        ensures
            text@ == match *self {
                ConfigError::Malformed => "config is not valid TOML"@,
                ConfigError::MissingSecret => "secret is missing"@,
                ConfigError::SecretNotString => "secret must be a string"@,
                ConfigError::ExtensionsNotList => "extensions must be a list"@,
                ConfigError::ExtensionNotString => "extensions must be strings"@,
            },
    {
        match self {
            ConfigError::Malformed => "config is not valid TOML",
            ConfigError::MissingSecret => "secret is missing",
            ConfigError::SecretNotString => "secret must be a string",
            ConfigError::ExtensionsNotList => "extensions must be a list",
            ConfigError::ExtensionNotString => "extensions must be strings",
        }
    }
}

} // verus!
