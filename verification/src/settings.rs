//! The server's configuration: a TOML text, and what the environment puts in
//! its place.
//!
//! Reading the file and the environment is left to the caller. This module
//! turns the text into a configuration and applies the overrides.

use crate::text::{ascii_lowered, same_text, same_text_ignore_ascii_case};
use crate::toc::option_text;
use vstd::prelude::*;

verus! {

/// The whole configuration.
#[derive(Clone, Debug, PartialEq, Eq)]
pub struct LazyNotesConfiguration {
    pub settings: LazyNotesSettings,
    pub database: DatabaseSettings,
}

/// The table `settings`.
#[derive(Clone, Debug, PartialEq, Eq)]
pub struct LazyNotesSettings {
    pub data_dir: String,
    pub enable_signups: bool,
}

/// The table `database`.
#[derive(Clone, Debug, PartialEq, Eq)]
pub struct DatabaseSettings {
    pub db_host: String,
    pub database: String,
    pub namespace: String,
    pub username: String,
    pub password: String,
}

/// What the environment sets, one entry for each variable; `None` where the
/// variable is not set.
#[derive(Clone, Debug, PartialEq, Eq)]
pub struct Overrides {
    pub data_dir: Option<String>,
    pub enable_signups: Option<String>,
    pub db_host: Option<String>,
    pub database: Option<String>,
    pub namespace: Option<String>,
    pub username: Option<String>,
    pub password: Option<String>,
}

/// The view of a [`LazyNotesConfiguration`].
pub struct ConfigurationView {
    pub data_dir: Seq<char>,
    pub enable_signups: bool,
    pub db_host: Seq<char>,
    pub database: Seq<char>,
    pub namespace: Seq<char>,
    pub username: Seq<char>,
    pub password: Seq<char>,
}

/// The view of [`Overrides`].
pub struct OverridesView {
    pub data_dir: Option<Seq<char>>,
    pub enable_signups: Option<Seq<char>>,
    pub db_host: Option<Seq<char>>,
    pub database: Option<Seq<char>>,
    pub namespace: Option<Seq<char>>,
    pub username: Option<Seq<char>>,
    pub password: Option<Seq<char>>,
}

impl View for LazyNotesConfiguration {
    type V = ConfigurationView;

    open spec fn view(&self) -> ConfigurationView {
        ConfigurationView {
            data_dir: self.settings.data_dir@,
            enable_signups: self.settings.enable_signups,
            db_host: self.database.db_host@,
            database: self.database.database@,
            namespace: self.database.namespace@,
            username: self.database.username@,
            password: self.database.password@,
        }
    }
}

impl View for Overrides {
    type V = OverridesView;

    open spec fn view(&self) -> OverridesView {
        OverridesView {
            data_dir: option_text(self.data_dir),
            enable_signups: option_text(self.enable_signups),
            db_host: option_text(self.db_host),
            database: option_text(self.database),
            namespace: option_text(self.namespace),
            username: option_text(self.username),
            password: option_text(self.password),
        }
    }
}

/// The string that a TOML document holds under `key` in its table `table`, as
/// the crate `toml` reads the document: `None` where the text is no TOML
/// document, where the table or the key is missing, or where the value is no
/// string.
pub uninterp spec fn toml_string(text: Seq<char>, table: Seq<char>, key: Seq<char>) -> Option<
    Seq<char>,
>;

/// The boolean that a TOML document holds under `key` in its table `table`;
/// `None` as for [`toml_string`], or where the value is no boolean.
pub uninterp spec fn toml_bool(text: Seq<char>, table: Seq<char>, key: Seq<char>) -> Option<bool>;

/// What a TOML document holds at one place, as far as the configuration reads
/// it: a string, a boolean, or neither.
#[derive(Debug, PartialEq, Eq)]
pub enum TomlScalar {
    Text(String),
    Flag(bool),
    Other,
}

impl TomlScalar {
    /// The string, where it is one.
    pub open spec fn text(self) -> Option<Seq<char>> {
        match self {
            TomlScalar::Text(s) => Some(s@),
            _ => None,
        }
    }

    /// The boolean, where it is one.
    pub open spec fn flag(self) -> Option<bool> {
        match self {
            TomlScalar::Flag(b) => Some(b),
            _ => None,
        }
    }
}

/// Parses the text once as a `toml::Table` and looks up each place, a table
/// and a key in it, with `Map::get` and `Value::get`. What is found there is
/// handed out as it is, a `Value::String` or a `Value::Boolean`; anything else
/// and nothing are `Other`. The text and the place decide what is found, and
/// the contract names it [`toml_string`] and [`toml_bool`].
#[verifier::external_body]
fn lookup_all(text: &str, places: &Vec<(&str, &str)>) -> (found: Vec<TomlScalar>)
    ensures
        found@.len() == places@.len(),
        forall|i: int|
            0 <= i < places@.len() ==> (#[trigger] found@[i]).text() == toml_string(
                text@,
                places@[i].0@,
                places@[i].1@,
            ) && found@[i].flag() == toml_bool(text@, places@[i].0@, places@[i].1@),
{
    let document = text.parse::<toml::Table>().ok();
    places.iter().map(
        |(table, key)| match document.as_ref().and_then(|d| d.get(*table)).and_then(|t| t.get(*key)) {
            Some(toml::Value::String(s)) => TomlScalar::Text(s.clone()),
            Some(toml::Value::Boolean(b)) => TomlScalar::Flag(*b),
            _ => TomlScalar::Other,
        },
    ).collect()
}

/// The configuration that a text holds: every field of both tables, each of
/// its type. Where one is missing there is no configuration.
pub open spec fn configuration_of(text: Seq<char>) -> Option<ConfigurationView> {
    let data_dir = toml_string(text, "settings"@, "data_dir"@);
    let enable_signups = toml_bool(text, "settings"@, "enable_signups"@);
    let db_host = toml_string(text, "database"@, "db_host"@);
    let database = toml_string(text, "database"@, "database"@);
    let namespace = toml_string(text, "database"@, "namespace"@);
    let username = toml_string(text, "database"@, "username"@);
    let password = toml_string(text, "database"@, "password"@);
    if data_dir is Some && enable_signups is Some && db_host is Some && database is Some
        && namespace is Some && username is Some && password is Some {
        Some(
            ConfigurationView {
                data_dir: data_dir->0,
                enable_signups: enable_signups->0,
                db_host: db_host->0,
                database: database->0,
                namespace: namespace->0,
                username: username->0,
                password: password->0,
            },
        )
    } else {
        None
    }
}

/// The view of an optional configuration.
pub open spec fn option_configuration(config: Option<LazyNotesConfiguration>) -> Option<
    ConfigurationView,
> {
    match config {
        Some(c) => Some(c@),
        None => None,
    }
}

/// What a text says of a switch: `true` or `1` switches it on, `false` or `0`
/// off, the words in capitals or not; any other text says nothing.
pub open spec fn switch_of(text: Seq<char>) -> Option<bool> {
    if ascii_lowered(text) == ascii_lowered("true"@) || text == "1"@ {
        Some(true)
    } else if ascii_lowered(text) == ascii_lowered("false"@) || text == "0"@ {
        Some(false)
    } else {
        None
    }
}

/// The value of a field after an override: the override where there is one.
pub open spec fn overridden(value: Seq<char>, by: Option<Seq<char>>) -> Seq<char> {
    match by {
        Some(v) => v,
        None => value,
    }
}

/// The configuration after the overrides. Each text field is replaced where
/// its variable is set; the switch is set where its variable says so by
/// [`switch_of`].
pub open spec fn with_overrides(config: ConfigurationView, by: OverridesView) -> ConfigurationView {
    ConfigurationView {
        data_dir: overridden(config.data_dir, by.data_dir),
        enable_signups: match by.enable_signups {
            Some(text) => match switch_of(text) {
                Some(on) => on,
                None => config.enable_signups,
            },
            None => config.enable_signups,
        },
        db_host: overridden(config.db_host, by.db_host),
        database: overridden(config.database, by.database),
        namespace: overridden(config.namespace, by.namespace),
        username: overridden(config.username, by.username),
        password: overridden(config.password, by.password),
    }
}

/// The string found at a place, where one was found.
fn take_text(found: &mut Vec<TomlScalar>) -> (text: Option<String>)
    requires
        old(found)@.len() > 0,
    ensures
        final(found)@ == old(found)@.drop_last(),
        option_text(text) == old(found)@.last().text(),
{
    match found.pop() {
        Some(TomlScalar::Text(s)) => Some(s),
        _ => None,
    }
}

/// Reads the configuration from a TOML text.
pub fn parse_configuration(text: &str) -> (config: Option<LazyNotesConfiguration>)
    ensures
        option_configuration(config) == configuration_of(text@),
{
    let places: Vec<(&str, &str)> = vec![
        ("settings", "enable_signups"),
        ("settings", "data_dir"),
        ("database", "db_host"),
        ("database", "database"),
        ("database", "namespace"),
        ("database", "username"),
        ("database", "password"),
    ];
    let mut found = lookup_all(text, &places);
    let ghost all = found@;
    proof {
        assert(all[0].flag() == toml_bool(text@, "settings"@, "enable_signups"@));
        assert(all[1].text() == toml_string(text@, "settings"@, "data_dir"@));
        assert(all[2].text() == toml_string(text@, "database"@, "db_host"@));
        assert(all[3].text() == toml_string(text@, "database"@, "database"@));
        assert(all[4].text() == toml_string(text@, "database"@, "namespace"@));
        assert(all[5].text() == toml_string(text@, "database"@, "username"@));
        assert(all[6].text() == toml_string(text@, "database"@, "password"@));
    }
    let password = take_text(&mut found);
    let username = take_text(&mut found);
    let namespace = take_text(&mut found);
    let database = take_text(&mut found);
    let db_host = take_text(&mut found);
    let data_dir = take_text(&mut found);
    let enable_signups = match found.pop() {
        Some(TomlScalar::Flag(on)) => Some(on),
        _ => None,
    };
    match (data_dir, enable_signups, db_host, database, namespace, username, password) {
        (
            Some(data_dir),
            Some(enable_signups),
            Some(db_host),
            Some(database),
            Some(namespace),
            Some(username),
            Some(password),
        ) => Some(
            LazyNotesConfiguration {
                settings: LazyNotesSettings { data_dir, enable_signups },
                database: DatabaseSettings { db_host, database, namespace, username, password },
            },
        ),
        _ => None,
    }
}

/// What a text says of a switch.
pub fn parse_switch(text: &str) -> (switch: Option<bool>)
    ensures
        switch == switch_of(text@),
{
    if same_text_ignore_ascii_case(text, "true") || same_text(text, "1") {
        Some(true)
    } else if same_text_ignore_ascii_case(text, "false") || same_text(text, "0") {
        Some(false)
    } else {
        None
    }
}

/// Puts an override in the place of a field, where there is one.
fn override_text(value: &mut String, by: &Option<String>)
    ensures
        final(value)@ == overridden(old(value)@, option_text(*by)),
{
    if let Some(v) = by {
        *value = v.clone();
    }
}

/// Applies the overrides to a configuration.
pub fn apply_overrides(config: &mut LazyNotesConfiguration, by: &Overrides)
    ensures
        final(config)@ == with_overrides(old(config)@, by@),
{
    override_text(&mut config.settings.data_dir, &by.data_dir);
    if let Some(text) = &by.enable_signups {
        if let Some(on) = parse_switch(text.as_str()) {
            config.settings.enable_signups = on;
        }
    }
    override_text(&mut config.database.db_host, &by.db_host);
    override_text(&mut config.database.database, &by.database);
    override_text(&mut config.database.namespace, &by.namespace);
    override_text(&mut config.database.username, &by.username);
    override_text(&mut config.database.password, &by.password);
}

/// The configuration of a text, with the overrides applied. `None` where the
/// text holds no configuration.
pub fn get_configuration(text: &str, by: &Overrides) -> (config: Option<LazyNotesConfiguration>)
    ensures
        option_configuration(config) == match configuration_of(text@) {
            Some(c) => Some(with_overrides(c, by@)),
            None => None,
        },
{
    match parse_configuration(text) {
        Some(mut config) => {
            apply_overrides(&mut config, by);
            Some(config)
        },
        None => None,
    }
}

} // verus!
