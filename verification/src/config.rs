//! Configuration: command line, configuration file, defaults.
use vstd::prelude::*;
use vstd::string::*;

use crate::text;

verus! {

/// Name of the configuration file that is looked for next to the executable.
pub const CONFIG_FILE_NAME: &'static str = "nfc-bridge.toml";

/// Command line arguments (used in console mode; service mode uses the config file only).
#[derive(Debug, Clone)]
pub struct AppArgs {
    /// Run in console mode instead of Windows Service mode
    pub console: bool,
    /// Path to config file (TOML)
    pub config: Option<String>,
    /// WebSocket server port (overrides config file)
    pub port: Option<u16>,
    /// NFC polling interval in milliseconds (overrides config file)
    pub poll_interval_ms: Option<u64>,
    /// Cooldown period in milliseconds (overrides config file)
    pub cooldown_ms: Option<u64>,
    /// WebSocket bind address (overrides config file)
    pub bind_addr: Option<String>,
}

/// Runtime configuration (merged from file defaults + CLI overrides)
#[derive(Debug, Clone)]
pub struct Config {
    pub port: u16,
    pub poll_interval_ms: u64,
    pub cooldown_ms: u64,
    pub bind_addr: String,
    pub log_dir: String,
}

/// What a [`Config`] stands for.
pub struct ConfigView {
    pub port: u16,
    pub poll_interval_ms: u64,
    pub cooldown_ms: u64,
    pub bind_addr: Seq<char>,
    pub log_dir: Seq<char>,
}

impl View for Config {
    type V = ConfigView;

    open spec fn view(&self) -> ConfigView {
        ConfigView {
            port: self.port,
            poll_interval_ms: self.poll_interval_ms,
            cooldown_ms: self.cooldown_ms,
            bind_addr: self.bind_addr@,
            log_dir: self.log_dir@,
        }
    }
}

/// Why there is no configuration: the file could not be read or is not TOML, as the given text
/// describes, or it holds a value that does not suit the named setting.
#[derive(Debug)]
pub enum ConfigError {
    Read(String),
    Syntax(String),
    Setting(String),
}

/// What a [`ConfigError`] stands for.
pub enum ConfigErrorView {
    Read(Seq<char>),
    Syntax(Seq<char>),
    Setting(Seq<char>),
}

impl View for ConfigError {
    type V = ConfigErrorView;

    open spec fn view(&self) -> ConfigErrorView {
        match self {
            ConfigError::Read(text) => ConfigErrorView::Read(text@),
            ConfigError::Syntax(text) => ConfigErrorView::Syntax(text@),
            ConfigError::Setting(key) => ConfigErrorView::Setting(key@),
        }
    }
}

/// What loading a configuration came to, by what it stands for.
pub open spec fn loaded_view(loaded: Result<Config, ConfigError>) -> Result<
    ConfigView,
    ConfigErrorView,
> {
    match loaded {
        Ok(config) => Ok(config@),
        Err(e) => Err(e@),
    }
}

/// A value of a TOML document. Only texts and integers are looked into.
#[derive(Debug)]
pub enum TomlValue {
    Text(String),
    /// A number, with its value if it is an integer.
    Number(Option<i64>),
    Other,
}

/// What a [`TomlValue`] stands for.
pub enum TomlValueView {
    Text(Seq<char>),
    Number(Option<i64>),
    Other,
}

impl View for TomlValue {
    type V = TomlValueView;

    open spec fn view(&self) -> TomlValueView {
        match self {
            TomlValue::Text(text) => TomlValueView::Text(text@),
            TomlValue::Number(n) => TomlValueView::Number(*n),
            TomlValue::Other => TomlValueView::Other,
        }
    }
}

/// The entries at the top level of a TOML document, in the order of the document.
pub type Entries = Seq<(Seq<char>, TomlValueView)>;

/// Entries by what they stand for.
pub open spec fn entries_view(entries: Seq<(String, TomlValue)>) -> Entries {
    entries.map_values(|entry: (String, TomlValue)| (entry.0@, entry.1@))
}

/// A parsed document by what it stands for.
pub open spec fn document_view(document: Result<Vec<(String, TomlValue)>, String>) -> Result<
    Entries,
    Seq<char>,
> {
    match document {
        Ok(entries) => Ok(entries_view(entries@)),
        Err(text) => Err(text@),
    }
}

/// What `toml::from_str` makes of a text when asked for a map of generic values: the
/// top-level entries, or the text of the error.
pub uninterp spec fn toml_document(text: Seq<char>) -> Result<
    Seq<(Seq<char>, TomlValueView)>,
    Seq<char>,
>;

/// Calls `toml::from_str` for a `serde_json::Map`, whose values can hold every TOML value, and
/// hands out its top-level entries in the map's own order, which is that of the document, each
/// value by its kind. The result depends on the text alone and is named [`toml_document`];
/// nothing else is claimed of it.
#[verifier::external_body]
fn parse_toml(text: &str) -> (document: Result<Vec<(String, TomlValue)>, String>)
    ensures
        document_view(document) == toml_document(text@),
{
    let map = toml::from_str::<serde_json::Map<String, serde_json::Value>>(text);
    let entries = map.map_err(|e| e.to_string())?.into_iter().map(|(key, value)| (key, match value {
        serde_json::Value::String(text) => TomlValue::Text(text),
        serde_json::Value::Number(n) => TomlValue::Number(n.as_i64()),
        serde_json::Value::Null => TomlValue::Other,
        serde_json::Value::Bool(_) => TomlValue::Other,
        serde_json::Value::Array(_) => TomlValue::Other,
        serde_json::Value::Object(_) => TomlValue::Other,
    }));
    Ok(entries.collect())
}

/// The value of a key, if the document has an entry for it.
pub open spec fn lookup(entries: Entries, key: Seq<char>) -> Option<TomlValueView>
    decreases entries.len(),
{
    if entries.len() == 0 {
        None
    } else if entries[0].0 == key {
        Some(entries[0].1)
    } else {
        lookup(entries.drop_first(), key)
    }
}

/// Whether a value is an integer from 0 to `max`.
pub open spec fn is_number(value: TomlValueView, max: int) -> bool {
    value matches TomlValueView::Number(Some(n)) && 0 <= n <= max
}

/// Whether the value of an entry suits the setting that its key names. Entries that name no
/// setting may have any value.
pub open spec fn suits(entry: (Seq<char>, TomlValueView)) -> bool {
    &&& entry.0 == "port"@ ==> is_number(entry.1, u16::MAX as int)
    &&& entry.0 == "poll_interval_ms"@ ==> is_number(entry.1, u64::MAX as int)
    &&& entry.0 == "cooldown_ms"@ ==> is_number(entry.1, u64::MAX as int)
    &&& entry.0 == "bind_addr"@ ==> entry.1 is Text
    &&& entry.0 == "log_dir"@ ==> entry.1 is Text
}

/// The key of the first entry whose value does not suit its setting.
pub open spec fn first_unsuitable(entries: Entries) -> Option<Seq<char>>
    decreases entries.len(),
{
    if entries.len() == 0 {
        None
    } else if !suits(entries[0]) {
        Some(entries[0].0)
    } else {
        first_unsuitable(entries.drop_first())
    }
}

/// The number that a key is set to, or else the default.
pub open spec fn number_setting(entries: Entries, key: Seq<char>, default: int) -> int {
    match lookup(entries, key) {
        Some(TomlValueView::Number(Some(n))) => n as int,
        _ => default,
    }
}

/// The text that a key is set to, or else the default.
pub open spec fn text_setting(entries: Entries, key: Seq<char>, default: Seq<char>) -> Seq<char> {
    match lookup(entries, key) {
        Some(TomlValueView::Text(text)) => text,
        _ => default,
    }
}

/// The configuration that a document describes. Settings that are absent have their default,
/// other entries do not matter. The first value in the document that does not suit its setting
/// is an error that names the setting.
pub open spec fn document_config(entries: Entries) -> Result<ConfigView, ConfigErrorView> {
    match first_unsuitable(entries) {
        Some(key) => Err(ConfigErrorView::Setting(key)),
        None => Ok(
            ConfigView {
                port: number_setting(entries, "port"@, 9876) as u16,
                poll_interval_ms: number_setting(entries, "poll_interval_ms"@, 200) as u64,
                cooldown_ms: number_setting(entries, "cooldown_ms"@, 3000) as u64,
                bind_addr: text_setting(entries, "bind_addr"@, "127.0.0.1"@),
                log_dir: text_setting(entries, "log_dir"@, seq![]),
            },
        ),
    }
}

/// The configuration that the outcome of parsing a document describes.
pub open spec fn parsed_config(document: Result<Entries, Seq<char>>) -> Result<
    ConfigView,
    ConfigErrorView,
> {
    match document {
        Ok(entries) => document_config(entries),
        Err(text) => Err(ConfigErrorView::Syntax(text)),
    }
}

/// The configuration without a file.
pub open spec fn default_config() -> ConfigView {
    ConfigView {
        port: 9876,
        poll_interval_ms: 200,
        cooldown_ms: 3000,
        bind_addr: "127.0.0.1"@,
        log_dir: seq![],
    }
}

/// The configuration that the contents of a file describe, if there is one: its text, or the
/// error of reading it.
pub open spec fn file_config(file: Option<Result<Seq<char>, Seq<char>>>) -> Result<
    ConfigView,
    ConfigErrorView,
> {
    match file {
        None => Ok(default_config()),
        Some(Err(text)) => Err(ConfigErrorView::Read(text)),
        Some(Ok(text)) => parsed_config(toml_document(text)),
    }
}

/// The contents of a file by what they stand for.
pub open spec fn file_view(file: Option<Result<String, String>>) -> Option<
    Result<Seq<char>, Seq<char>>,
> {
    match file {
        None => None,
        Some(Ok(text)) => Some(Ok(text@)),
        Some(Err(text)) => Some(Err(text@)),
    }
}

/// A configuration after the command line has overridden what it gives.
pub open spec fn overridden(config: ConfigView, args: AppArgs) -> ConfigView {
    ConfigView {
        port: if args.port is Some {
            args.port->0
        } else {
            config.port
        },
        poll_interval_ms: if args.poll_interval_ms is Some {
            args.poll_interval_ms->0
        } else {
            config.poll_interval_ms
        },
        cooldown_ms: if args.cooldown_ms is Some {
            args.cooldown_ms->0
        } else {
            config.cooldown_ms
        },
        bind_addr: if args.bind_addr is Some {
            args.bind_addr->0@
        } else {
            config.bind_addr
        },
        log_dir: config.log_dir,
    }
}

pub fn default_port() -> (port: u16)
    ensures
        port == default_config().port,
{
    9876
}

pub fn default_poll_interval() -> (ms: u64)
    ensures
        ms == default_config().poll_interval_ms,
{
    200
}

pub fn default_cooldown() -> (ms: u64)
    ensures
        ms == default_config().cooldown_ms,
{
    3000
}

pub fn default_bind_addr() -> (addr: String)
    ensures
        addr@ == default_config().bind_addr,
{
    "127.0.0.1".to_string()
}

/// The entry for a key.
fn find_entry<'a>(entries: &'a Vec<(String, TomlValue)>, key: &str) -> (value: Option<
    &'a TomlValue,
>)
    ensures
        match (value, lookup(entries_view(entries@), key@)) {
            (Some(value), Some(view)) => value@ == view,
            (None, None) => true,
            _ => false,
        },
{
    let wanted = key.to_string();
    let ghost views = entries_view(entries@);
    let mut i: usize = 0;
    assert(views.skip(0) =~= views);
    while i < entries.len()
        invariant
            i <= entries@.len(),
            views == entries_view(entries@),
            wanted@ == key@,
            lookup(views, key@) == lookup(views.skip(i as int), key@),
        decreases entries@.len() - i,
    {
        assert(views.skip(i as int)[0] == (entries@[i as int].0@, entries@[i as int].1@));
        assert(views.skip(i as int).drop_first() =~= views.skip(i + 1));
        if entries[i].0 == wanted {
            return Some(&entries[i].1);
        }
        i = i + 1;
    }
    None
}

/// Whether a key is the given name.
fn is_named(key: &String, name: &str) -> (named: bool)
    ensures
        named == (key@ == name@),
{
    *key == name.to_string()
}

/// Whether a value is an integer from 0 to `max`.
fn is_number_up_to(value: &TomlValue, max: u64) -> (number: bool)
    ensures
        number == is_number(value@, max as int),
{
    match value {
        TomlValue::Number(Some(n)) => *n >= 0 && *n as u64 <= max,
        _ => false,
    }
}

/// Whether the value of an entry suits the setting that its key names.
fn suits_setting(key: &String, value: &TomlValue) -> (suitable: bool)
    ensures
        suitable == suits((key@, value@)),
{
    if is_named(key, "port") && !is_number_up_to(value, u16::MAX as u64) {
        return false;
    }
    if (is_named(key, "poll_interval_ms") || is_named(key, "cooldown_ms")) && !is_number_up_to(
        value,
        u64::MAX,
    ) {
        return false;
    }
    if is_named(key, "bind_addr") || is_named(key, "log_dir") {
        return matches!(value, TomlValue::Text(_));
    }
    true
}

/// The key of the first entry whose value does not suit its setting.
fn find_unsuitable(entries: &Vec<(String, TomlValue)>) -> (key: Option<String>)
    ensures
        text::option_view(key) == first_unsuitable(entries_view(entries@)),
{
    let ghost views = entries_view(entries@);
    let mut i: usize = 0;
    assert(views.skip(0) =~= views);
    while i < entries.len()
        invariant
            i <= entries@.len(),
            views == entries_view(entries@),
            first_unsuitable(views) == first_unsuitable(views.skip(i as int)),
        decreases entries@.len() - i,
    {
        assert(views.skip(i as int)[0] == (entries@[i as int].0@, entries@[i as int].1@));
        assert(views.skip(i as int).drop_first() =~= views.skip(i + 1));
        if !suits_setting(&entries[i].0, &entries[i].1) {
            return Some(entries[i].0.clone());
        }
        i = i + 1;
    }
    None
}

proof fn lemma_lookup_suits(entries: Entries, key: Seq<char>)
    requires
        first_unsuitable(entries) is None,
    ensures
        lookup(entries, key) matches Some(value) ==> suits((key, value)),
    decreases entries.len(),
{
    if entries.len() > 0 && entries[0].0 != key {
        lemma_lookup_suits(entries.drop_first(), key);
    }
}

/// The number a key is set to, or else the default.
fn number_of(entries: &Vec<(String, TomlValue)>, key: &str, default: u64) -> (number: u64)
    requires
        lookup(entries_view(entries@), key@) matches Some(value) ==> is_number(
            value,
            u64::MAX as int,
        ),
    ensures
        number == number_setting(entries_view(entries@), key@, default as int),
{
    match find_entry(entries, key) {
        Some(TomlValue::Number(Some(n))) => *n as u64,
        _ => default,
    }
}

/// The text a key is set to, or else the default.
fn text_of(entries: &Vec<(String, TomlValue)>, key: &str, default: String) -> (text: String)
    ensures
        text@ == text_setting(entries_view(entries@), key@, default@),
{
    match find_entry(entries, key) {
        Some(TomlValue::Text(text)) => text.clone(),
        _ => default,
    }
}

impl Config {
    /// The address to listen on.
    pub fn addr(&self) -> (addr: String)
        ensures
            addr@ == self.bind_addr@ + ":"@ + text::decimal(self.port as nat),
    {
        let port = text::to_decimal(self.port as u64);
        self.bind_addr.clone().concat(":").concat(port.as_str())
    }

    /// The configuration described by a TOML text.
    pub fn from_toml(text: &str) -> (loaded: Result<Config, ConfigError>)
        ensures
            loaded_view(loaded) == parsed_config(toml_document(text@)),
    {
        Config::from_document(parse_toml(text))
    }

    /// The configuration described by a parsed TOML document.
    pub fn from_document(document: Result<Vec<(String, TomlValue)>, String>) -> (loaded: Result<
        Config,
        ConfigError,
    >)
        ensures
            loaded_view(loaded) == parsed_config(document_view(document)),
    {
        let entries = match document {
            Ok(entries) => entries,
            Err(text) => {
                return Err(ConfigError::Syntax(text));
            },
        };
        if let Some(key) = find_unsuitable(&entries) {
            return Err(ConfigError::Setting(key));
        }
        proof {
            let views = entries_view(entries@);
            lemma_lookup_suits(views, "port"@);
            lemma_lookup_suits(views, "poll_interval_ms"@);
            lemma_lookup_suits(views, "cooldown_ms"@);
        }
        Ok(
            Config {
                port: number_of(&entries, "port", default_port() as u64) as u16,
                poll_interval_ms: number_of(&entries, "poll_interval_ms", default_poll_interval()),
                cooldown_ms: number_of(&entries, "cooldown_ms", default_cooldown()),
                bind_addr: text_of(&entries, "bind_addr", default_bind_addr()),
                log_dir: text_of(&entries, "log_dir", String::new()),
            },
        )
    }

    /// Load from standard locations (service mode uses this). `exe_config` is what reading
    /// the file next to the executable gave, if there is one.
    pub fn load_default_locations(exe_config: Option<Result<String, String>>) -> (loaded: Result<
        Config,
        ConfigError,
    >)
        ensures
            loaded_view(loaded) == file_config(file_view(exe_config)),
    {
        match exe_config {
            Some(Ok(text)) => Config::from_toml(text.as_str()),
            Some(Err(text)) => Err(ConfigError::Read(text)),
            // Fall back to defaults
            None => Ok(
                Config {
                    port: default_port(),
                    poll_interval_ms: default_poll_interval(),
                    cooldown_ms: default_cooldown(),
                    bind_addr: default_bind_addr(),
                    log_dir: String::new(),
                },
            ),
        }
    }

    /// Load config from file, then apply CLI overrides. `file` is what reading the file that
    /// the arguments name gave or, if they name none, the file next to the executable.
    pub fn from_args_and_file(args: &AppArgs, file: Option<Result<String, String>>) -> (loaded:
        Result<Config, ConfigError>)
        requires
            args.config is Some ==> file is Some,
        ensures
            loaded_view(loaded) == match file_config(file_view(file)) {
                Ok(config) => Ok(overridden(config, *args)),
                Err(e) => Err(e),
            },
    {
        match Config::load_default_locations(file) {
            Ok(config) => Ok(config.with_overrides(args)),
            Err(e) => Err(e),
        }
    }

    /// CLI args override file values
    pub fn with_overrides(self, args: &AppArgs) -> (config: Config)
        ensures
            config@ == overridden(self@, *args),
    {
        let mut config = self;
        if let Some(port) = args.port {
            config.port = port;
        }
        if let Some(ms) = args.poll_interval_ms {
            config.poll_interval_ms = ms;
        }
        if let Some(ms) = args.cooldown_ms {
            config.cooldown_ms = ms;
        }
        if let Some(addr) = &args.bind_addr {
            config.bind_addr = addr.clone();
        }
        config
    }
}

/// Every setting of a loaded configuration is the value of its key or, if the document does
/// not have the key, the default.
pub proof fn law_settings_or_defaults(entries: Entries)
    requires
        document_config(entries) is Ok,
    ensures
        ({
            let config = document_config(entries)->Ok_0;
            &&& match lookup(entries, "port"@) {
                Some(value) => value == TomlValueView::Number(Some(config.port as i64)),
                None => config.port == default_config().port,
            }
            &&& match lookup(entries, "poll_interval_ms"@) {
                Some(value) => value == TomlValueView::Number(Some(config.poll_interval_ms as i64)),
                None => config.poll_interval_ms == default_config().poll_interval_ms,
            }
            &&& match lookup(entries, "cooldown_ms"@) {
                Some(value) => value == TomlValueView::Number(Some(config.cooldown_ms as i64)),
                None => config.cooldown_ms == default_config().cooldown_ms,
            }
            &&& match lookup(entries, "bind_addr"@) {
                Some(value) => value == TomlValueView::Text(config.bind_addr),
                None => config.bind_addr == default_config().bind_addr,
            }
            &&& match lookup(entries, "log_dir"@) {
                Some(value) => value == TomlValueView::Text(config.log_dir),
                None => config.log_dir == default_config().log_dir,
            }
        }),
{
    lemma_lookup_suits(entries, "port"@);
    lemma_lookup_suits(entries, "poll_interval_ms"@);
    lemma_lookup_suits(entries, "cooldown_ms"@);
    lemma_lookup_suits(entries, "bind_addr"@);
    lemma_lookup_suits(entries, "log_dir"@);
}

/// A document is refused exactly if one of its values does not suit its setting, and the error
/// names the setting of the first such value.
pub proof fn law_first_unsuitable_value_is_named(entries: Entries)
    ensures
        document_config(entries) is Ok <==> forall|i: int|
            0 <= i < entries.len() ==> suits(#[trigger] entries[i]),
        forall|i: int|
            0 <= i < entries.len() && !suits(#[trigger] entries[i]) && (forall|j: int|
                0 <= j < i ==> suits(#[trigger] entries[j])) ==> document_config(entries) == Err::<
                ConfigView,
                _,
            >(ConfigErrorView::Setting(entries[i].0)),
    decreases entries.len(),
{
    if entries.len() > 0 {
        let rest = entries.drop_first();
        law_first_unsuitable_value_is_named(rest);
        assert(forall|i: int| 0 <= i < rest.len() ==> #[trigger] rest[i] == entries[i + 1]);
        assert(forall|i: int| 0 < i < entries.len() ==> #[trigger] entries[i] == rest[i - 1]);
    }
}

/// An empty document describes the same configuration as no document at all.
pub proof fn law_empty_document_is_default()
    ensures
        document_config(seq![]) == Ok::<_, ConfigErrorView>(default_config()),
{
}

proof fn lemma_lookup_other(
    before: Entries,
    entry: (Seq<char>, TomlValueView),
    after: Entries,
    key: Seq<char>,
)
    requires
        entry.0 != key,
    ensures
        lookup(before + seq![entry] + after, key) == lookup(before + after, key),
    decreases before.len(),
{
    if before.len() == 0 {
        assert((before + seq![entry] + after).drop_first() =~= before + after);
    } else {
        assert((before + seq![entry] + after).drop_first() =~= before.drop_first() + seq![entry]
            + after);
        assert((before + after).drop_first() =~= before.drop_first() + after);
        lemma_lookup_other(before.drop_first(), entry, after, key);
    }
}

proof fn lemma_unsuitable_other(
    before: Entries,
    entry: (Seq<char>, TomlValueView),
    after: Entries,
)
    requires
        suits(entry),
    ensures
        first_unsuitable(before + seq![entry] + after) == first_unsuitable(before + after),
    decreases before.len(),
{
    if before.len() == 0 {
        assert((before + seq![entry] + after).drop_first() =~= before + after);
    } else {
        assert((before + seq![entry] + after).drop_first() =~= before.drop_first() + seq![entry]
            + after);
        assert((before + after).drop_first() =~= before.drop_first() + after);
        lemma_unsuitable_other(before.drop_first(), entry, after);
    }
}

/// Entries under keys that name no setting do not matter, whatever their value and wherever
/// they stand.
pub proof fn law_other_entries_do_not_matter(
    before: Entries,
    entry: (Seq<char>, TomlValueView),
    after: Entries,
)
    requires
        entry.0 != "port"@,
        entry.0 != "poll_interval_ms"@,
        entry.0 != "cooldown_ms"@,
        entry.0 != "bind_addr"@,
        entry.0 != "log_dir"@,
    ensures
        document_config(before + seq![entry] + after) == document_config(before + after),
{
    lemma_unsuitable_other(before, entry, after);
    lemma_lookup_other(before, entry, after, "port"@);
    lemma_lookup_other(before, entry, after, "poll_interval_ms"@);
    lemma_lookup_other(before, entry, after, "cooldown_ms"@);
    lemma_lookup_other(before, entry, after, "bind_addr"@);
    lemma_lookup_other(before, entry, after, "log_dir"@);
}

/// What the command line gives wins over any configuration: two configurations that agree on
/// the rest are the same once the command line has been applied, and applying it again
/// changes nothing.
pub proof fn law_command_line_wins(a: ConfigView, b: ConfigView, args: AppArgs)
    requires
        args.port is Some || a.port == b.port,
        args.poll_interval_ms is Some || a.poll_interval_ms == b.poll_interval_ms,
        args.cooldown_ms is Some || a.cooldown_ms == b.cooldown_ms,
        args.bind_addr is Some || a.bind_addr == b.bind_addr,
        a.log_dir == b.log_dir,
    ensures
        overridden(a, args) == overridden(b, args),
        overridden(overridden(a, args), args) == overridden(a, args),
{
}

/// Setting by setting: an argument that is given sets its own setting, and a setting without an
/// argument keeps the value it had. The log directory has no argument.
pub proof fn law_argument_sets_its_own_setting(config: ConfigView, args: AppArgs)
    ensures
        match args.port {
            Some(port) => overridden(config, args).port == port,
            None => overridden(config, args).port == config.port,
        },
        match args.poll_interval_ms {
            Some(ms) => overridden(config, args).poll_interval_ms == ms,
            None => overridden(config, args).poll_interval_ms == config.poll_interval_ms,
        },
        match args.cooldown_ms {
            Some(ms) => overridden(config, args).cooldown_ms == ms,
            None => overridden(config, args).cooldown_ms == config.cooldown_ms,
        },
        match args.bind_addr {
            Some(addr) => overridden(config, args).bind_addr == addr@,
            None => overridden(config, args).bind_addr == config.bind_addr,
        },
        overridden(config, args).log_dir == config.log_dir,
{
}

/// Arguments do not interfere: whatever else is given on the command line and configured, a
/// setting depends on its own argument and its own configured value alone.
pub proof fn law_arguments_do_not_interfere(
    config: ConfigView,
    args: AppArgs,
    other: ConfigView,
    other_args: AppArgs,
)
    ensures
        args.port == other_args.port && config.port == other.port ==> overridden(config, args).port
            == overridden(other, other_args).port,
        args.poll_interval_ms == other_args.poll_interval_ms && config.poll_interval_ms
            == other.poll_interval_ms ==> overridden(config, args).poll_interval_ms == overridden(
            other,
            other_args,
        ).poll_interval_ms,
        args.cooldown_ms == other_args.cooldown_ms && config.cooldown_ms == other.cooldown_ms
            ==> overridden(config, args).cooldown_ms == overridden(other, other_args).cooldown_ms,
        text::option_view(args.bind_addr) == text::option_view(other_args.bind_addr)
            && config.bind_addr == other.bind_addr ==> overridden(config, args).bind_addr
            == overridden(other, other_args).bind_addr,
        config.log_dir == other.log_dir ==> overridden(config, args).log_dir == overridden(
            other,
            other_args,
        ).log_dir,
{
}

/// Which documents are accepted: those in which every port is a number from 0 to 65535, every
/// interval a number from 0 on, and the address and the log directory are texts.
pub proof fn law_accepted_documents(entries: Entries)
    ensures
        document_config(entries) is Ok <==> forall|i: int|
            0 <= i < entries.len() ==> {
                let key = (#[trigger] entries[i]).0;
                let value = entries[i].1;
                &&& key == "port"@ ==> value is Number && value->Number_0 is Some && 0
                    <= value->Number_0->0 <= 65535
                &&& key == "poll_interval_ms"@ || key == "cooldown_ms"@ ==> value is Number
                    && value->Number_0 is Some && 0 <= value->Number_0->0
                &&& key == "bind_addr"@ || key == "log_dir"@ ==> value is Text
            },
{
    law_first_unsuitable_value_is_named(entries);
    assert forall|i: int| 0 <= i < entries.len() implies (suits(#[trigger] entries[i]) <==> {
        let key = entries[i].0;
        let value = entries[i].1;
        &&& key == "port"@ ==> value is Number && value->Number_0 is Some && 0
            <= value->Number_0->0 <= 65535
        &&& key == "poll_interval_ms"@ || key == "cooldown_ms"@ ==> value is Number
            && value->Number_0 is Some && 0 <= value->Number_0->0
        &&& key == "bind_addr"@ || key == "log_dir"@ ==> value is Text
    }) by {}
}

/// A key has the value of its first entry, and none if there is no entry for it.
pub proof fn law_lookup_finds_first(entries: Entries, key: Seq<char>)
    ensures
        (forall|i: int| 0 <= i < entries.len() ==> (#[trigger] entries[i]).0 != key) <==> lookup(
            entries,
            key,
        ) is None,
        forall|i: int|
            0 <= i < entries.len() && (#[trigger] entries[i]).0 == key && (forall|j: int|
                0 <= j < i ==> (#[trigger] entries[j]).0 != key) ==> lookup(entries, key) == Some(
                entries[i].1,
            ),
    decreases entries.len(),
{
    if entries.len() > 0 {
        let rest = entries.drop_first();
        law_lookup_finds_first(rest, key);
        assert(forall|i: int| 0 <= i < rest.len() ==> #[trigger] rest[i] == entries[i + 1]);
        assert(forall|i: int| 0 < i < entries.len() ==> #[trigger] entries[i] == rest[i - 1]);
    }
}

/// An entry of a loaded document is the setting that its key names, as long as no entry before
/// it has the same key.
pub proof fn law_entry_is_setting(entries: Entries, i: int)
    requires
        document_config(entries) is Ok,
        0 <= i < entries.len(),
        forall|j: int| 0 <= j < i ==> (#[trigger] entries[j]).0 != entries[i].0,
    ensures
        ({
            let config = document_config(entries)->Ok_0;
            let key = entries[i].0;
            let value = entries[i].1;
            &&& key == "port"@ ==> config.port == value->Number_0->0
            &&& key == "poll_interval_ms"@ ==> config.poll_interval_ms == value->Number_0->0
            &&& key == "cooldown_ms"@ ==> config.cooldown_ms == value->Number_0->0
            &&& key == "bind_addr"@ ==> config.bind_addr == value->Text_0
            &&& key == "log_dir"@ ==> config.log_dir == value->Text_0
        }),
{
    law_lookup_finds_first(entries, entries[i].0);
    law_accepted_documents(entries);
    law_settings_or_defaults(entries);
}

/// The defaults, one by one, of a document without entries and of no document at all.
pub proof fn law_defaults()
    ensures
        ({
            let config = document_config(Seq::empty())->Ok_0;
            &&& document_config(Seq::empty()) is Ok
            &&& config.port == 9876 && config.poll_interval_ms == 200 && config.cooldown_ms == 3000
            &&& config.bind_addr == "127.0.0.1"@ && config.log_dir.len() == 0
            &&& file_config(None) == Ok::<_, ConfigErrorView>(config)
        }),
{
    assert(document_config(Seq::empty())->Ok_0.log_dir =~= default_config().log_dir);
}

/// What a file comes to: a file that cannot be read is reported with the reason, one that does
/// not parse with the parser's text, and every other one is what its entries describe.
pub proof fn law_file_outcomes(file: Result<Seq<char>, Seq<char>>)
    ensures
        file is Err ==> file_config(Some(file)) == Err::<ConfigView, _>(
            ConfigErrorView::Read(file->Err_0),
        ),
        file is Ok && toml_document(file->Ok_0) is Err ==> file_config(Some(file)) == Err::<
            ConfigView,
            _,
        >(ConfigErrorView::Syntax(toml_document(file->Ok_0)->Err_0)),
        file is Ok && toml_document(file->Ok_0) is Ok ==> file_config(Some(file))
            == document_config(toml_document(file->Ok_0)->Ok_0),
{
}

/// A configuration stands for its five settings.
pub proof fn law_config_view(config: Config)
    ensures
        config@.port == config.port,
        config@.poll_interval_ms == config.poll_interval_ms,
        config@.cooldown_ms == config.cooldown_ms,
        config@.bind_addr == config.bind_addr@,
        config@.log_dir == config.log_dir@,
{
}

/// What loading came to stands for the configuration, or for the kind of error and its text.
pub proof fn law_loaded_view(loaded: Result<Config, ConfigError>)
    ensures
        loaded is Ok ==> loaded_view(loaded) == Ok::<_, ConfigErrorView>(loaded->Ok_0@),
        loaded is Err ==> loaded_view(loaded) is Err && match loaded->Err_0 {
            ConfigError::Read(text) => loaded_view(loaded)->Err_0 == ConfigErrorView::Read(text@),
            ConfigError::Syntax(text) => loaded_view(loaded)->Err_0 == ConfigErrorView::Syntax(
                text@,
            ),
            ConfigError::Setting(key) => loaded_view(loaded)->Err_0 == ConfigErrorView::Setting(
                key@,
            ),
        },
{
}

/// A document stands for its entries, each one, in order, with their keys and values, or for the
/// text of the error.
pub proof fn law_document_view(document: Result<Vec<(String, TomlValue)>, String>, i: int)
    ensures
        document is Err ==> document_view(document) == Err::<Entries, _>(document->Err_0@),
        document is Ok ==> {
            let entries = document->Ok_0@;
            let views = document_view(document)->Ok_0;
            &&& document_view(document) is Ok && views.len() == entries.len()
            &&& 0 <= i < entries.len() ==> {
                &&& views[i].0 == entries[i].0@
                &&& match entries[i].1 {
                    TomlValue::Text(text) => views[i].1 == TomlValueView::Text(text@),
                    TomlValue::Number(n) => views[i].1 == TomlValueView::Number(n),
                    TomlValue::Other => views[i].1 is Other,
                }
            }
        },
{
}

/// The contents of a file stand for its text, or for the reason why there is none.
pub proof fn law_file_view(file: Option<Result<String, String>>)
    ensures
        file is None <==> file_view(file) is None,
        file is Some && file->0 is Ok ==> file_view(file) == Some(
            Ok::<_, Seq<char>>(file->0->Ok_0@),
        ),
        file is Some && file->0 is Err ==> file_view(file) == Some(
            Err::<Seq<char>, _>(file->0->Err_0@),
        ),
{
}

} // verus!
