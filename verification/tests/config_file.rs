use tuisky::config::{Bindings, ColumnAction, Config, GlobalAction, Intervals, Keybindings, WatcherConfig};
use tuisky::config_file::{
    config_from_input, config_to_input, ConfigError, ConfigInput, Field, IntervalsInput, KeybindingsInput,
    WatcherInput,
};
use tuisky::keys::{Key, KeyCode, KeyParseError, CONTROL, NONE};

fn pairs(table: &toml::Table) -> Vec<(String, String)> {
    table
        .iter()
        .map(|(k, v)| (k.clone(), v.as_str().expect("action name").to_string()))
        .collect()
}

fn input_from_toml(s: &str) -> ConfigInput {
    let table: toml::Table = toml::from_str(s).expect("failed to read toml");
    ConfigInput {
        num_columns: table.get("num_columns").map(|v| v.as_integer().expect("integer") as usize),
        keybindings: table.get("keybindings").map(|v| {
            let kb = v.as_table().expect("table");
            KeybindingsInput {
                global: kb.get("global").map(|g| pairs(g.as_table().expect("table"))),
                column: kb.get("column").map(|c| pairs(c.as_table().expect("table"))),
            }
        }),
        watcher: table.get("watcher").map(|w| WatcherInput {
            intervals: w.as_table().expect("table").get("intervals").map(|i| {
                let i = i.as_table().expect("table");
                let num = |name: &str| i.get(name).map(|v| v.as_integer().expect("integer") as u64);
                IntervalsInput {
                    preferences: num("preferences"),
                    feed: num("feed"),
                    post_thread: num("post_thread"),
                }
            }),
        }),
    }
}

fn toml_from_input(input: &ConfigInput) -> String {
    let mut table = toml::Table::new();
    if let Some(n) = input.num_columns {
        table.insert("num_columns".to_string(), toml::Value::Integer(n as i64));
    }
    if let Some(kb) = &input.keybindings {
        let mut t = toml::Table::new();
        let to_table = |p: &Vec<(String, String)>| {
            let mut m = toml::Table::new();
            for (k, v) in p {
                m.insert(k.clone(), toml::Value::String(v.clone()));
            }
            toml::Value::Table(m)
        };
        if let Some(g) = &kb.global {
            t.insert("global".to_string(), to_table(g));
        }
        if let Some(c) = &kb.column {
            t.insert("column".to_string(), to_table(c));
        }
        table.insert("keybindings".to_string(), toml::Value::Table(t));
    }
    if let Some(w) = &input.watcher {
        let mut t = toml::Table::new();
        if let Some(i) = &w.intervals {
            let mut it = toml::Table::new();
            for (name, v) in [("preferences", i.preferences), ("feed", i.feed), ("post_thread", i.post_thread)] {
                if let Some(v) = v {
                    it.insert(name.to_string(), toml::Value::Integer(v as i64));
                }
            }
            t.insert("intervals".to_string(), toml::Value::Table(it));
        }
        table.insert("watcher".to_string(), toml::Value::Table(t));
    }
    toml::to_string(&table).expect("failed to write toml")
}

fn same_bindings<A: Copy + PartialEq>(a: &Bindings<A>, b: &Bindings<A>) -> bool {
    let ea = a.entries();
    let eb = b.entries();
    ea.len() == eb.len() && ea.iter().all(|(k, v)| b.action_for(k) == Some(*v))
}

fn same_config(a: &Config, b: &Config) -> bool {
    a.num_columns == b.num_columns
        && a.watcher == b.watcher
        && same_bindings(&a.keybindings.global, &b.keybindings.global)
        && same_bindings(&a.keybindings.column, &b.keybindings.column)
}

#[test]
fn deserialize_empty() {
    let config = config_from_input(input_from_toml("")).expect("failed to deserialize config");
    assert!(same_config(&config, &Config::default_config()));
}

#[test]
fn deserialize() {
    let input = r#"
[keybindings.global]
Ctrl-c = "Quit"

[keybindings.column]
Ctrl-n = "NextItem"
Ctrl-p = "PrevItem"
Left = "Back"

[watcher.intervals]
feed = 20
"#;
    let config = config_from_input(input_from_toml(input)).expect("failed to deserialize config");
    let mut global = Bindings::new();
    global.bind(Key(KeyCode::Char('c'), CONTROL), GlobalAction::Quit);
    let mut column = Bindings::new();
    column.bind(Key(KeyCode::Char('n'), CONTROL), ColumnAction::NextItem);
    column.bind(Key(KeyCode::Char('p'), CONTROL), ColumnAction::PrevItem);
    column.bind(Key(KeyCode::Left, NONE), ColumnAction::Back);
    let expected = Config {
        num_columns: None,
        keybindings: Keybindings { global, column },
        watcher: WatcherConfig {
            intervals: Intervals {
                preferences: 600,
                feed: 20,
                post_thread: 60,
            },
        },
    };
    assert!(same_config(&config, &expected));
}

#[test]
fn serialize() {
    let mut global = Bindings::new();
    global.bind(Key(KeyCode::Char('c'), CONTROL), GlobalAction::Quit);
    let config = Config {
        num_columns: None,
        keybindings: Keybindings {
            global,
            column: Bindings::new(),
        },
        watcher: WatcherConfig {
            intervals: Intervals {
                feed: 10,
                preferences: 10,
                post_thread: 180,
            },
        },
    };
    let s = toml_from_input(&config_to_input(&config).expect("failed to serialize config"));
    let deserialized = config_from_input(input_from_toml(&s)).expect("failed to deserialize config");
    assert!(same_config(&deserialized, &config));
}

#[test]
fn missing_and_wrong_fields_are_refused() {
    let r = config_from_input(input_from_toml("[keybindings.global]\nCtrl-c = \"Quit\"\n"));
    assert!(matches!(r, Err(ConfigError::MissingField(Field::Column))));
    let r = config_from_input(input_from_toml("[keybindings.column]\nCtrl-c = \"Back\"\n"));
    assert!(matches!(r, Err(ConfigError::MissingField(Field::Global))));
    let r = config_from_input(input_from_toml("[watcher]\n"));
    assert!(matches!(r, Err(ConfigError::MissingField(Field::Intervals))));
    let r = config_from_input(input_from_toml("[keybindings.global]\nCtrl-c = \"Jump\"\n[keybindings.column]\n"));
    assert!(matches!(r, Err(ConfigError::UnknownAction)));
    let r = config_from_input(input_from_toml("[keybindings.global]\nAlt-c = \"Quit\"\n[keybindings.column]\n"));
    assert!(matches!(r, Err(ConfigError::InvalidKey(KeyParseError::InvalidKeyModifier))));
    let r = config_from_input(input_from_toml("num_columns = 3\n"));
    assert_eq!(r.expect("valid").num_columns, Some(3));
}

#[test]
fn default_keybindings_fill_unbound_keys_only() {
    let mut config = config_from_input(input_from_toml("[keybindings.global]\nCtrl-q = \"NextFocus\"\n[keybindings.column]\n"))
        .expect("valid");
    config.set_default_keybindings();
    assert_eq!(config.keybindings.global.action_for(&Key(KeyCode::Char('q'), CONTROL)), Some(GlobalAction::NextFocus));
    assert_eq!(config.keybindings.global.action_for(&Key(KeyCode::Char('z'), CONTROL)), Some(GlobalAction::Suspend));
    assert_eq!(config.keybindings.column.action_for(&Key(KeyCode::Down, NONE)), Some(ColumnAction::NextItem));
    assert_eq!(config.keybindings.column.entries().len(), 6);
    // adding the defaults twice changes nothing
    let before = config.keybindings.column.entries().len();
    config.set_default_keybindings();
    assert_eq!(config.keybindings.column.entries().len(), before);
}
