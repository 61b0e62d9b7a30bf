use knot::config::{
    config_from_document, default_note_extensions, load_config, resolve_options, Config,
    ConfigError, Options, CONFIG_NAME, DEFAULT_CONFDIR, DEFAULT_INDIR, DEFAULT_OUTDIR, STATIC_NAME,
    TEMPLATE_NAME,
};

fn options() -> Options {
    Options {
        indir: "notes".to_string(),
        outdir: "_public".to_string(),
        confdir: "_knot".to_string(),
        quiet: true,
    }
}

fn with(secret: &str, extensions: &[&str]) -> Config {
    Config {
        secret: secret.to_string(),
        indir: "notes".to_string(),
        outdir: "_public".to_string(),
        confdir: "_knot".to_string(),
        quiet: true,
        extensions: extensions.iter().map(|s| s.to_string()).collect(),
    }
}

fn document(text: &str) -> toml::Value {
    text.parse::<toml::Value>().unwrap()
}

#[test]
fn names_inside_the_configuration_directory() {
    assert_eq!(CONFIG_NAME, "knot.toml");
    assert_eq!(TEMPLATE_NAME, "template.html");
    assert_eq!(STATIC_NAME, "static");
}

#[test]
fn options_default_when_nothing_is_named() {
    assert_eq!(DEFAULT_INDIR, ".");
    assert_eq!(DEFAULT_OUTDIR, "_public");
    assert_eq!(DEFAULT_CONFDIR, "_knot");
    let opts = resolve_options(&Vec::new(), None, None, false);
    assert_eq!(
        opts,
        Options {
            indir: ".".to_string(),
            outdir: "_public".to_string(),
            confdir: "_knot".to_string(),
            quiet: false,
        }
    );
}

#[test]
fn options_take_what_is_named() {
    let free = vec!["notes".to_string(), "ignored".to_string()];
    let opts = resolve_options(&free, Some("site".to_string()), Some("conf".to_string()), true);
    assert_eq!(
        opts,
        Options {
            indir: "notes".to_string(),
            outdir: "site".to_string(),
            confdir: "conf".to_string(),
            quiet: true,
        }
    );
    let partly = resolve_options(&free, None, Some("conf".to_string()), false);
    assert_eq!(partly.outdir, "_public");
    assert_eq!(partly.confdir, "conf");
    assert_eq!(partly.indir, "notes");
}

#[test]
fn default_extensions_are_the_four_markdown_ones() {
    assert_eq!(default_note_extensions(), vec!["md", "mkdn", "markdown", "txt"]);
}

#[test]
fn secret_alone_gives_the_default_extensions() {
    let config = load_config(options(), "secret = \"s3cr3t\"\n");
    assert_eq!(config, Ok(with("s3cr3t", &["md", "mkdn", "markdown", "txt"])));
}

#[test]
fn options_are_carried_over() {
    let opts = Options {
        indir: ".".to_string(),
        outdir: "out".to_string(),
        confdir: "conf".to_string(),
        quiet: false,
    };
    let config = load_config(opts, "secret = \"k\"").unwrap();
    assert_eq!(config.indir, ".");
    assert_eq!(config.outdir, "out");
    assert_eq!(config.confdir, "conf");
    assert!(!config.quiet);
    assert_eq!(config.secret, "k");
}

#[test]
fn extensions_are_taken_as_listed() {
    let text = "secret = \"k\"\nextensions = [\"md\", \"text\", \"md\"]\n";
    assert_eq!(load_config(options(), text), Ok(with("k", &["md", "text", "md"])));
}

#[test]
fn empty_extension_list_is_kept_empty() {
    let text = "extensions = []\nsecret = \"k\"\n";
    assert_eq!(load_config(options(), text), Ok(with("k", &[])));
}

#[test]
fn other_keys_do_not_matter() {
    let text = "title = \"My notes\"\nsecret = \"k\"\n[extra]\nsecret = 3\n";
    assert_eq!(load_config(options(), text), Ok(with("k", &["md", "mkdn", "markdown", "txt"])));
}

#[test]
fn secret_may_be_empty_or_not_ascii() {
    assert_eq!(load_config(options(), "secret = \"\"").unwrap().secret, "");
    assert_eq!(load_config(options(), "secret = \"ключ\"").unwrap().secret, "ключ");
}

#[test]
fn text_that_is_not_toml_is_refused() {
    assert_eq!(load_config(options(), "secret = "), Err(ConfigError::Malformed));
    assert_eq!(load_config(options(), "secret"), Err(ConfigError::Malformed));
    assert_eq!(load_config(options(), "secret = \"a\"\nsecret = \"b\""), Err(ConfigError::Malformed));
}

#[test]
fn secret_is_required() {
    assert_eq!(load_config(options(), ""), Err(ConfigError::MissingSecret));
    assert_eq!(load_config(options(), "extensions = [\"md\"]"), Err(ConfigError::MissingSecret));
    assert_eq!(load_config(options(), "[secret.inner]\n").map(|c| c.secret), Err(ConfigError::SecretNotString));
}

#[test]
fn secret_must_be_a_string() {
    assert_eq!(load_config(options(), "secret = 5"), Err(ConfigError::SecretNotString));
    assert_eq!(load_config(options(), "secret = [\"a\"]"), Err(ConfigError::SecretNotString));
    assert_eq!(load_config(options(), "secret = true"), Err(ConfigError::SecretNotString));
}

#[test]
fn extensions_must_be_a_list() {
    let text = "secret = \"k\"\nextensions = \"md\"\n";
    assert_eq!(load_config(options(), text), Err(ConfigError::ExtensionsNotList));
    let table = "secret = \"k\"\n[extensions]\nmd = true\n";
    assert_eq!(load_config(options(), table), Err(ConfigError::ExtensionsNotList));
}

#[test]
fn extensions_must_be_strings() {
    let text = "secret = \"k\"\nextensions = [1, 2]\n";
    assert_eq!(load_config(options(), text), Err(ConfigError::ExtensionNotString));
    let nested = "secret = \"k\"\nextensions = [[\"md\"]]\n";
    assert_eq!(load_config(options(), nested), Err(ConfigError::ExtensionNotString));
}

#[test]
fn secret_is_looked_at_first() {
    let text = "secret = 1\nextensions = \"md\"\n";
    assert_eq!(load_config(options(), text), Err(ConfigError::SecretNotString));
    assert_eq!(load_config(options(), "extensions = 3"), Err(ConfigError::MissingSecret));
}

#[test]
fn document_that_is_parsed_already() {
    let doc = document("secret = \"k\"\nextensions = [\"txt\"]\n");
    assert_eq!(config_from_document(options(), &doc), Ok(with("k", &["txt"])));
    let bad = document("secret = 1.5\n");
    assert_eq!(config_from_document(options(), &bad), Err(ConfigError::SecretNotString));
}

#[test]
fn value_that_is_no_table_has_no_secret() {
    let text = toml::Value::String("secret".to_string());
    assert_eq!(config_from_document(options(), &text), Err(ConfigError::MissingSecret));
    let list = toml::Value::Array(vec![toml::Value::String("secret".to_string())]);
    assert_eq!(config_from_document(options(), &list), Err(ConfigError::MissingSecret));
}

#[test]
fn errors_in_words() {
    assert_eq!(ConfigError::Malformed.message(), "config is not valid TOML");
    assert_eq!(ConfigError::MissingSecret.message(), "secret is missing");
    assert_eq!(ConfigError::SecretNotString.message(), "secret must be a string");
    assert_eq!(ConfigError::ExtensionsNotList.message(), "extensions must be a list");
    assert_eq!(ConfigError::ExtensionNotString.message(), "extensions must be strings");
}
