use findex_config::config::{FindexConfig, Plugin, Profile, production_plugins_dir, settings_location};
use findex_config::document::{find, Value};
use findex_config::settings::{load_settings, SettingsSource};

fn s(x: &str) -> String {
    x.to_string()
}

fn lookup<'a>(t: &'a Vec<(String, Value)>, key: &str) -> Option<&'a Value> {
    find(t, &s(key)).map(|i| &t[i].1)
}

fn assert_defaults(c: &FindexConfig) {
    assert_eq!(c.default_window_width, 600);
    assert_eq!(c.min_content_height, 0);
    assert_eq!(c.max_content_height, 400);
    assert_eq!(c.name_match_highlight_color, "orange");
    assert!(!c.decorate_window);
    assert!(c.close_window_on_losing_focus);
    assert_eq!(c.query_placeholder, "Search for applications");
    assert_eq!(c.icon_size, 32);
    assert_eq!(c.toggle_key, "<Shift>space");
    assert_eq!(c.min_score, 5);
    assert_eq!(c.result_size, 10);
    assert_eq!(c.plugins.len(), 2);
    assert_eq!(c.plugins[0].0, "github-repo");
    assert_eq!(c.plugins[1].0, "urlopen");
    assert_eq!(c.plugin_definitions.len(), 0);
}

const KEYS: [&str; 12] = [
    "default_window_width",
    "min_content_height",
    "max_content_height",
    "name_match_highlight_color",
    "decorate_window",
    "close_window_on_losing_focus",
    "query_placeholder",
    "icon_size",
    "toggle_key",
    "min_score",
    "result_size",
    "plugins",
];

#[test]
fn defaults_of_development_profile() {
    let c = FindexConfig::default();
    assert_defaults(&c);
    assert_eq!(c.error, "");
    assert_eq!(c.plugins[0].1.path, "plugins/github-repo/target/debug/libgithub_repo.so");
    assert_eq!(c.plugins[1].1.path, "plugins/urlopen/target/debug/liburlopen.so");
    assert!(c.plugins[0].1.prefix.is_none());
    assert!(c.plugins[0].1.config.is_empty());
}

#[test]
fn defaults_of_production_profile() {
    let c = FindexConfig::default_for(Profile::Production, "/home/u/.config/findex/plugins");
    assert_defaults(&c);
    assert_eq!(c.plugins[0].1.path, "/home/u/.config/findex/plugins/github_repo.so");
    assert_eq!(c.plugins[1].1.path, "/home/u/.config/findex/plugins/urlopen.so");
}

#[test]
fn first_run_writes_full_defaults() {
    let (c, w) = load_settings(SettingsSource::Missing, Profile::Development, "");
    assert_defaults(&c);
    assert_eq!(c.error, "");
    let w = w.expect("a first run writes the settings file");
    for k in KEYS {
        assert!(lookup(&w, k).is_some(), "missing {k}");
    }
    let back = FindexConfig::from_table(&w, Profile::Development, "").ok().unwrap();
    assert_defaults(&back);
}

#[test]
fn absent_fields_take_defaults_and_are_written() {
    let t = vec![(s("icon_size"), Value::Integer(48)), (s("toggle_key"), Value::Text(s("<Ctrl>k")))];
    let (c, w) = load_settings(SettingsSource::Parsed(t), Profile::Development, "");
    assert_eq!(c.icon_size, 48);
    assert_eq!(c.toggle_key, "<Ctrl>k");
    assert_eq!(c.result_size, 10);
    assert_eq!(c.default_window_width, 600);
    assert_eq!(c.query_placeholder, "Search for applications");
    assert_eq!(c.plugins.len(), 2);
    let w = w.unwrap();
    assert!(matches!(lookup(&w, "result_size"), Some(Value::Integer(10))));
    assert!(matches!(lookup(&w, "icon_size"), Some(Value::Integer(48))));
    for k in KEYS {
        assert!(lookup(&w, k).is_some(), "missing {k}");
    }
}

#[test]
fn empty_document_gives_defaults() {
    let (c, w) = load_settings(SettingsSource::Parsed(Vec::new()), Profile::Development, "");
    assert_defaults(&c);
    assert!(w.is_some());
}

fn plugin_table(prefix: Option<&str>, path: &str, config: Vec<(&str, &str)>) -> Value {
    let mut t = Vec::new();
    if let Some(p) = prefix {
        t.push((s("prefix"), Value::Text(s(p))));
    }
    t.push((s("path"), Value::Text(s(path))));
    t.push((
        s("config"),
        Value::Table(config.into_iter().map(|(k, v)| (s(k), Value::Text(s(v)))).collect()),
    ));
    Value::Table(t)
}

#[test]
fn round_trip_is_stable() {
    let t = vec![
        (s("decorate_window"), Value::Boolean(true)),
        (s("min_score"), Value::Integer(-3)),
        (s("name_match_highlight_color"), Value::Text(s("red"))),
        (
            s("plugins"),
            Value::Table(vec![(
                s("calc"),
                plugin_table(Some("="), "/p/calc.so", vec![("precision", "4")]),
            )]),
        ),
    ];
    let (c1, w1) = load_settings(SettingsSource::Parsed(t), Profile::Development, "");
    let (c2, w2) = load_settings(SettingsSource::Parsed(w1.unwrap()), Profile::Development, "");
    let (c3, _) = load_settings(SettingsSource::Parsed(w2.unwrap()), Profile::Development, "");
    for c in [&c2, &c3] {
        assert_eq!(c.decorate_window, c1.decorate_window);
        assert_eq!(c.min_score, -3);
        assert_eq!(c.name_match_highlight_color, "red");
        assert_eq!(c.icon_size, c1.icon_size);
        assert_eq!(c.plugins.len(), 1);
        assert_eq!(c.plugins[0].0, "calc");
        assert_eq!(c.plugins[0].1.prefix.as_deref(), Some("="));
        assert_eq!(c.plugins[0].1.path, "/p/calc.so");
        assert_eq!(c.plugins[0].1.config, vec![(s("precision"), s("4"))]);
    }
}

#[test]
fn malformed_file_gives_defaults_and_error() {
    let (c, w) = load_settings(SettingsSource::Malformed(s("expected `=`")), Profile::Development, "");
    assert_defaults(&c);
    assert_eq!(c.error, "Error while parsing settings: expected `=`");
    assert!(w.is_none());
}

#[test]
fn wrong_kind_of_value_refuses_whole_document() {
    let t = vec![(s("icon_size"), Value::Integer(64)), (s("decorate_window"), Value::Text(s("yes")))];
    let (c, w) = load_settings(SettingsSource::Parsed(t), Profile::Development, "");
    assert_defaults(&c);
    assert!(c.error.starts_with("Error while parsing settings"));
    assert!(w.is_none());
}

#[test]
fn out_of_range_integer_is_refused() {
    let t = vec![(s("icon_size"), Value::Integer(1 << 40))];
    assert!(FindexConfig::from_table(&t, Profile::Development, "").is_err());
    let t = vec![(s("result_size"), Value::Integer(-1))];
    assert!(FindexConfig::from_table(&t, Profile::Development, "").is_err());
    let t = vec![(s("min_score"), Value::Other)];
    assert!(FindexConfig::from_table(&t, Profile::Development, "").is_err());
}

#[test]
fn plugin_without_path_is_refused() {
    let plugin = Value::Table(vec![(s("config"), Value::Table(Vec::new()))]);
    let t = vec![(s("plugins"), Value::Table(vec![(s("x"), plugin)]))];
    assert!(FindexConfig::from_table(&t, Profile::Development, "").is_err());
    let plugin = Value::Table(vec![(s("path"), Value::Text(s("/x.so")))]);
    let t = vec![(s("plugins"), Value::Table(vec![(s("x"), plugin)]))];
    assert!(FindexConfig::from_table(&t, Profile::Development, "").is_err());
    let t = vec![(s("plugins"), Value::Integer(3))];
    assert!(FindexConfig::from_table(&t, Profile::Development, "").is_err());
}

#[test]
fn plugin_config_values_must_be_strings() {
    let plugin = Value::Table(vec![
        (s("path"), Value::Text(s("/x.so"))),
        (s("config"), Value::Table(vec![(s("n"), Value::Integer(1))])),
    ]);
    let t = vec![(s("plugins"), Value::Table(vec![(s("x"), plugin)]))];
    assert!(FindexConfig::from_table(&t, Profile::Development, "").is_err());
}

#[test]
fn declared_plugins_replace_the_defaults() {
    let t = vec![(
        s("plugins"),
        Value::Table(vec![(s("only"), plugin_table(None, "/only.so", vec![]))]),
    )];
    let c = FindexConfig::from_table(&t, Profile::Development, "").ok().unwrap();
    assert_eq!(c.plugins.len(), 1);
    assert_eq!(c.plugins[0].0, "only");
    assert!(c.plugins[0].1.prefix.is_none());
}

#[test]
fn encoded_plugin_omits_absent_prefix() {
    let mut c = FindexConfig::default();
    c.plugins = vec![(s("a"), Plugin { prefix: None, path: s("/a.so"), config: Vec::new() })];
    let w = c.to_table();
    match lookup(&w, "plugins") {
        Some(Value::Table(p)) => match &p[0].1 {
            Value::Table(e) => {
                assert!(lookup(e, "prefix").is_none());
                assert!(matches!(lookup(e, "path"), Some(Value::Text(x)) if x == "/a.so"));
            }
            _ => panic!("plugin is not a table"),
        },
        _ => panic!("plugins is not a table"),
    }
}

#[test]
fn plugin_dir_is_under_home() {
    let d = production_plugins_dir();
    assert!(d.ends_with("/.config/findex/plugins"));
    assert!(!d.starts_with('~'));
}

#[test]
fn settings_locations() {
    let (p, d) = settings_location(Profile::Development);
    assert_eq!(p, "settings.toml");
    assert!(d.is_none());
    let (p, d) = settings_location(Profile::Production);
    assert!(p.ends_with("/.config/findex/settings.toml"));
    assert!(!p.starts_with('~'));
    assert!(d.unwrap().ends_with("/.config/findex"));
}
