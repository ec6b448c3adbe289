//! Reading the configuration out of a settings document, with every absent
//! field taken from the defaults, and writing it back as a document.
use vstd::prelude::*;
use crate::config::{FindexConfig, Plugin, PluginModel, Settings, Profile, default_settings,
    pairs_view, entries_view, opt_view};
use crate::document::{Value, lookup, find, lemma_lookup_at};

verus! {

/// An integer field: `default` when absent; refused when it is not an
/// integer in `lo..=hi`.
pub open spec fn int_in(t: Seq<(String, Value)>, key: Seq<char>, lo: int, hi: int, default: int) -> Option<int> {
    match lookup(t, key) {
        None => Some(default),
        Some(Value::Integer(i)) => if lo <= i <= hi { Some(i as int) } else { None },
        Some(_) => None,
    }
}

/// A string field: `default` when absent; refused when it is not a string.
pub open spec fn text_in(t: Seq<(String, Value)>, key: Seq<char>, default: Seq<char>) -> Option<Seq<char>> {
    match lookup(t, key) {
        None => Some(default),
        Some(Value::Text(s)) => Some(s@),
        Some(_) => None,
    }
}

/// A boolean field: `default` when absent; refused when it is not a boolean.
pub open spec fn bool_in(t: Seq<(String, Value)>, key: Seq<char>, default: bool) -> Option<bool> {
    match lookup(t, key) {
        None => Some(default),
        Some(Value::Boolean(b)) => Some(b),
        Some(_) => None,
    }
}

/// The string of a string value.
pub open spec fn text_of(v: Value) -> Seq<char> {
    match v {
        Value::Text(s) => s@,
        _ => Seq::empty(),
    }
}

/// A table's entries with the values read as strings.
pub open spec fn text_pairs_of(t: Seq<(String, Value)>) -> Seq<(Seq<char>, Seq<char>)> {
    t.map_values(|e: (String, Value)| (e.0@, text_of(e.1)))
}

/// A table whose values are all strings, as its pairs of strings.
pub open spec fn text_pairs(t: Seq<(String, Value)>) -> Option<Seq<(Seq<char>, Seq<char>)>> {
    if forall|i: int| 0 <= i < t.len() ==> #[trigger] t[i].1 is Text {
        Some(text_pairs_of(t))
    } else {
        None
    }
}

/// One plugin table: `path` and `config` are required, `prefix` is optional.
pub open spec fn plugin_of(v: Value) -> Option<PluginModel> {
    match v {
        Value::Table(t) => {
            let prefix = match lookup(t@, "prefix"@) {
                None => Some(None),
                Some(Value::Text(s)) => Some(Some(s@)),
                Some(_) => None,
            };
            let path = match lookup(t@, "path"@) {
                Some(Value::Text(s)) => Some(s@),
                _ => None,
            };
            let config = match lookup(t@, "config"@) {
                Some(Value::Table(c)) => text_pairs(c@),
                _ => None,
            };
            if prefix is Some && path is Some && config is Some {
                Some(PluginModel { prefix: prefix->0, path: path->0, config: config->0 })
            } else {
                None
            }
        },
        _ => None,
    }
}

/// A table's entries with the values read as plugins.
pub open spec fn plugin_entries_of(t: Seq<(String, Value)>) -> Seq<(Seq<char>, PluginModel)> {
    t.map_values(|e: (String, Value)| (e.0@, plugin_of(e.1)->0))
}

/// The table of plugins, each under its name.
pub open spec fn plugins_of(t: Seq<(String, Value)>) -> Option<Seq<(Seq<char>, PluginModel)>> {
    if forall|i: int| 0 <= i < t.len() ==> #[trigger] plugin_of(t[i].1) is Some {
        Some(plugin_entries_of(t))
    } else {
        None
    }
}

/// The `plugins` field: `default` when absent; refused when it is not a
/// table of plugins.
pub open spec fn plugins_in(t: Seq<(String, Value)>, default: Seq<(Seq<char>, PluginModel)>) -> Option<Seq<(Seq<char>, PluginModel)>> {
    match lookup(t, "plugins"@) {
        None => Some(default),
        Some(Value::Table(p)) => plugins_of(p@),
        Some(_) => None,
    }
}

/// The settings that a document gives, each absent field taken from `d`;
/// `None` when a field that is present does not fit.
pub open spec fn decode(t: Seq<(String, Value)>, d: Settings) -> Option<Settings> {
    let width = int_in(t, "default_window_width"@, i32::MIN as int, i32::MAX as int, d.default_window_width as int);
    let min_h = int_in(t, "min_content_height"@, i32::MIN as int, i32::MAX as int, d.min_content_height as int);
    let max_h = int_in(t, "max_content_height"@, i32::MIN as int, i32::MAX as int, d.max_content_height as int);
    let color = text_in(t, "name_match_highlight_color"@, d.name_match_highlight_color);
    let decorate = bool_in(t, "decorate_window"@, d.decorate_window);
    let close = bool_in(t, "close_window_on_losing_focus"@, d.close_window_on_losing_focus);
    let placeholder = text_in(t, "query_placeholder"@, d.query_placeholder);
    let icon = int_in(t, "icon_size"@, i32::MIN as int, i32::MAX as int, d.icon_size as int);
    let toggle = text_in(t, "toggle_key"@, d.toggle_key);
    let score = int_in(t, "min_score"@, isize::MIN as int, isize::MAX as int, d.min_score as int);
    let size = int_in(t, "result_size"@, 0, usize::MAX as int, d.result_size as int);
    let plugins = plugins_in(t, d.plugins);
    if width is Some && min_h is Some && max_h is Some && color is Some && decorate is Some
        && close is Some && placeholder is Some && icon is Some && toggle is Some
        && score is Some && size is Some && plugins is Some {
        Some(Settings {
            default_window_width: width->0 as i32,
            min_content_height: min_h->0 as i32,
            max_content_height: max_h->0 as i32,
            name_match_highlight_color: color->0,
            decorate_window: decorate->0,
            close_window_on_losing_focus: close->0,
            query_placeholder: placeholder->0,
            icon_size: icon->0 as i32,
            toggle_key: toggle->0,
            min_score: score->0 as isize,
            result_size: size->0 as usize,
            plugins: plugins->0,
        })
    } else {
        None
    }
}

fn int_field(t: &Vec<(String, Value)>, key: &String, lo: i64, hi: i64, default: i64) -> (r: Option<i64>)
    ensures
        match int_in(t@, key@, lo as int, hi as int, default as int) {
            Some(v) => r == Some(v as i64),
            None => r is None,
        },
{
    match find(t, key) {
        None => Some(default),
        Some(i) => match &t[i].1 {
            Value::Integer(v) => if lo <= *v && *v <= hi { Some(*v) } else { None },
            _ => None,
        },
    }
}

fn text_field(t: &Vec<(String, Value)>, key: &String, default: String) -> (r: Option<String>)
    ensures
        opt_view(r) == text_in(t@, key@, default@),
{
    match find(t, key) {
        None => Some(default),
        Some(i) => match &t[i].1 {
            Value::Text(s) => Some(s.clone()),
            _ => None,
        },
    }
}

fn bool_field(t: &Vec<(String, Value)>, key: &String, default: bool) -> (r: Option<bool>)
    ensures
        r == bool_in(t@, key@, default),
{
    match find(t, key) {
        None => Some(default),
        Some(i) => match &t[i].1 {
            Value::Boolean(b) => Some(*b),
            _ => None,
        },
    }
}

fn pairs_from(t: &Vec<(String, Value)>) -> (r: Option<Vec<(String, String)>>)
    ensures
        match r {
            Some(v) => text_pairs(t@) == Some(pairs_view(v@)),
            None => text_pairs(t@) is None,
        },
{
    let mut out: Vec<(String, String)> = Vec::new();
    let mut i: usize = 0;
    while i < t.len()
        invariant
            i <= t@.len(),
            forall|j: int| 0 <= j < i ==> #[trigger] t@[j].1 is Text,
            out@.len() == i,
            pairs_view(out@) =~= text_pairs_of(t@.subrange(0, i as int)),
        decreases t@.len() - i,
    {
        match &t[i].1 {
            Value::Text(s) => {
                let k = t[i].0.clone();
                let x = s.clone();
                let ghost prev = out@;
                out.push((k, x));
                proof {
                    let a = pairs_view(out@);
                    let b = text_pairs_of(t@.subrange(0, i + 1));
                    assert forall|j: int| 0 <= j < i + 1 implies a[j] == b[j] by {
                        if j < i {
                            assert(pairs_view(prev)[j] == text_pairs_of(t@.subrange(0, i as int))[j]);
                        }
                    }
                    assert(a =~= b);
                }
            },
            _ => {
                return None;
            },
        }
        i = i + 1;
    }
    assert(t@.subrange(0, t@.len() as int) =~= t@);
    Some(out)
}

fn plugin_from(v: &Value) -> (r: Option<Plugin>)
    ensures
        match r {
            Some(p) => plugin_of(*v) == Some(p@),
            None => plugin_of(*v) is None,
        },
{
    let t = match v {
        Value::Table(t) => t,
        _ => {
            return None;
        },
    };
    let prefix = match find(t, &String::from_str("prefix")) {
        None => None,
        Some(i) => match &t[i].1 {
            Value::Text(s) => Some(s.clone()),
            _ => {
                return None;
            },
        },
    };
    let path = match find(t, &String::from_str("path")) {
        Some(i) => match &t[i].1 {
            Value::Text(s) => s.clone(),
            _ => {
                return None;
            },
        },
        None => {
            return None;
        },
    };
    let config = match find(t, &String::from_str("config")) {
        Some(i) => match &t[i].1 {
            Value::Table(c) => match pairs_from(c) {
                Some(c) => c,
                None => {
                    return None;
                },
            },
            _ => {
                return None;
            },
        },
        None => {
            return None;
        },
    };
    Some(Plugin { prefix, path, config })
}

fn plugins_from(t: &Vec<(String, Value)>) -> (r: Option<Vec<(String, Plugin)>>)
    ensures
        match r {
            Some(v) => plugins_of(t@) == Some(entries_view(v@)),
            None => plugins_of(t@) is None,
        },
{
    let mut out: Vec<(String, Plugin)> = Vec::new();
    let mut i: usize = 0;
    while i < t.len()
        invariant
            i <= t@.len(),
            forall|j: int| 0 <= j < i ==> #[trigger] plugin_of(t@[j].1) is Some,
            out@.len() == i,
            entries_view(out@) =~= plugin_entries_of(t@.subrange(0, i as int)),
        decreases t@.len() - i,
    {
        match plugin_from(&t[i].1) {
            Some(p) => {
                let k = t[i].0.clone();
                let ghost prev = out@;
                out.push((k, p));
                proof {
                    let a = entries_view(out@);
                    let b = plugin_entries_of(t@.subrange(0, i + 1));
                    assert forall|j: int| 0 <= j < i + 1 implies a[j] == b[j] by {
                        if j < i {
                            assert(entries_view(prev)[j] == plugin_entries_of(t@.subrange(0, i as int))[j]);
                        }
                    }
                    assert(a =~= b);
                }
            },
            None => {
                return None;
            },
        }
        i = i + 1;
    }
    assert(t@.subrange(0, t@.len() as int) =~= t@);
    Some(out)
}

/// The message that a refused settings document gives.
fn refused(key: &str) -> (r: String)
    ensures
        r@.len() > 0,
{
    proof {
        reveal_strlit("Error while parsing settings: invalid value for ");
        assert("Error while parsing settings: invalid value for "@.len() == 48);
    }
    String::from_str("Error while parsing settings: invalid value for ").concat(key)
}

impl FindexConfig {
    /// Reads a settings document: each field present in `t` replaces the
    /// built-in value of `profile`, each absent one keeps it. A field that is
    /// present with the wrong kind of value, or out of range, refuses the
    /// whole document.
    pub fn from_table(t: &Vec<(String, Value)>, profile: Profile, plugins_dir: &str) -> (r: Result<FindexConfig, String>)
        ensures
            match r {
                Ok(c) => decode(t@, default_settings(profile, plugins_dir@)) == Some(c.settings())
                    && c.is_fresh() && c.result_size <= i64::MAX,
                Err(e) => decode(t@, default_settings(profile, plugins_dir@)) is None && e@.len() > 0,
            },
    {
        let mut c = FindexConfig::default_for(profile, plugins_dir);
        let ghost d = c.settings();
        match int_field(t, &String::from_str("default_window_width"), i32::MIN as i64, i32::MAX as i64, c.default_window_width as i64) {
            Some(v) => { c.default_window_width = v as i32; },
            None => { return Err(refused("default_window_width")); },
        }
        match int_field(t, &String::from_str("min_content_height"), i32::MIN as i64, i32::MAX as i64, c.min_content_height as i64) {
            Some(v) => { c.min_content_height = v as i32; },
            None => { return Err(refused("min_content_height")); },
        }
        match int_field(t, &String::from_str("max_content_height"), i32::MIN as i64, i32::MAX as i64, c.max_content_height as i64) {
            Some(v) => { c.max_content_height = v as i32; },
            None => { return Err(refused("max_content_height")); },
        }
        match text_field(t, &String::from_str("name_match_highlight_color"), c.name_match_highlight_color.clone()) {
            Some(v) => { c.name_match_highlight_color = v; },
            None => { return Err(refused("name_match_highlight_color")); },
        }
        match bool_field(t, &String::from_str("decorate_window"), c.decorate_window) {
            Some(v) => { c.decorate_window = v; },
            None => { return Err(refused("decorate_window")); },
        }
        match bool_field(t, &String::from_str("close_window_on_losing_focus"), c.close_window_on_losing_focus) {
            Some(v) => { c.close_window_on_losing_focus = v; },
            None => { return Err(refused("close_window_on_losing_focus")); },
        }
        match text_field(t, &String::from_str("query_placeholder"), c.query_placeholder.clone()) {
            Some(v) => { c.query_placeholder = v; },
            None => { return Err(refused("query_placeholder")); },
        }
        match int_field(t, &String::from_str("icon_size"), i32::MIN as i64, i32::MAX as i64, c.icon_size as i64) {
            Some(v) => { c.icon_size = v as i32; },
            None => { return Err(refused("icon_size")); },
        }
        match text_field(t, &String::from_str("toggle_key"), c.toggle_key.clone()) {
            Some(v) => { c.toggle_key = v; },
            None => { return Err(refused("toggle_key")); },
        }
        match int_field(t, &String::from_str("min_score"), isize::MIN as i64, isize::MAX as i64, c.min_score as i64) {
            Some(v) => { c.min_score = v as isize; },
            None => { return Err(refused("min_score")); },
        }
        let size_max: i64 = if usize::MAX as u64 > i64::MAX as u64 { i64::MAX } else { usize::MAX as i64 };
        match int_field(t, &String::from_str("result_size"), 0, size_max, 10) {
            Some(v) => { c.result_size = v as usize; },
            None => { return Err(refused("result_size")); },
        }
        match find(t, &String::from_str("plugins")) {
            None => {},
            Some(i) => match &t[i].1 {
                Value::Table(p) => match plugins_from(p) {
                    Some(p) => { c.plugins = p; },
                    None => { return Err(refused("plugins")); },
                },
                _ => { return Err(refused("plugins")); },
            },
        }
        Ok(c)
    }
}

/// The keys that a written settings document always holds, by position.
pub open spec fn field_key(i: int) -> Seq<char> {
    if i == 0 {
        "default_window_width"@
    } else if i == 1 {
        "min_content_height"@
    } else if i == 2 {
        "max_content_height"@
    } else if i == 3 {
        "name_match_highlight_color"@
    } else if i == 4 {
        "decorate_window"@
    } else if i == 5 {
        "close_window_on_losing_focus"@
    } else if i == 6 {
        "query_placeholder"@
    } else if i == 7 {
        "icon_size"@
    } else if i == 8 {
        "toggle_key"@
    } else if i == 9 {
        "min_score"@
    } else if i == 10 {
        "result_size"@
    } else {
        "plugins"@
    }
}

/// How many fields a written settings document holds.
pub const FIELD_COUNT: usize = 12;

proof fn lemma_field_keys_distinct()
    ensures
        forall|i: int, j: int| 0 <= i < j < FIELD_COUNT ==> field_key(i) != field_key(j),
{
    reveal_strlit("default_window_width");
    assert("default_window_width"@.len() == 20 && "default_window_width"@[1] == 'e');
    reveal_strlit("min_content_height");
    assert("min_content_height"@.len() == 18 && "min_content_height"@[1] == 'i');
    reveal_strlit("max_content_height");
    assert("max_content_height"@.len() == 18 && "max_content_height"@[1] == 'a');
    reveal_strlit("name_match_highlight_color");
    assert("name_match_highlight_color"@.len() == 26 && "name_match_highlight_color"@[1] == 'a');
    reveal_strlit("decorate_window");
    assert("decorate_window"@.len() == 15 && "decorate_window"@[1] == 'e');
    reveal_strlit("close_window_on_losing_focus");
    assert("close_window_on_losing_focus"@.len() == 28 && "close_window_on_losing_focus"@[1] == 'l');
    reveal_strlit("query_placeholder");
    assert("query_placeholder"@.len() == 17 && "query_placeholder"@[1] == 'u');
    reveal_strlit("icon_size");
    assert("icon_size"@.len() == 9 && "icon_size"@[1] == 'c');
    reveal_strlit("toggle_key");
    assert("toggle_key"@.len() == 10 && "toggle_key"@[1] == 'o');
    reveal_strlit("min_score");
    assert("min_score"@.len() == 9 && "min_score"@[1] == 'i');
    reveal_strlit("result_size");
    assert("result_size"@.len() == 11 && "result_size"@[1] == 'e');
    reveal_strlit("plugins");
    assert("plugins"@.len() == 7 && "plugins"@[1] == 'l');
}

fn pairs_to_table(c: &Vec<(String, String)>) -> (r: Vec<(String, Value)>)
    ensures
        text_pairs(r@) == Some(pairs_view(c@)),
{
    let mut out: Vec<(String, Value)> = Vec::new();
    let mut i: usize = 0;
    while i < c.len()
        invariant
            i <= c@.len(),
            out@.len() == i,
            forall|j: int| 0 <= j < i ==> #[trigger] out@[j].1 is Text,
            text_pairs_of(out@) =~= pairs_view(c@.subrange(0, i as int)),
        decreases c@.len() - i,
    {
        let ghost prev = out@;
        out.push((c[i].0.clone(), Value::Text(c[i].1.clone())));
        proof {
            let a = text_pairs_of(out@);
            let b = pairs_view(c@.subrange(0, i + 1));
            assert forall|j: int| 0 <= j < i + 1 implies a[j] == b[j] by {
                if j < i {
                    assert(text_pairs_of(prev)[j] == pairs_view(c@.subrange(0, i as int))[j]);
                }
            }
            assert(a =~= b);
        }
        i = i + 1;
    }
    assert(c@.subrange(0, c@.len() as int) =~= c@);
    out
}

fn plugin_to_value(p: &Plugin) -> (r: Value)
    ensures
        plugin_of(r) == Some(p@),
{
    let mut t: Vec<(String, Value)> = Vec::new();
    match &p.prefix {
        Some(x) => { t.push((String::from_str("prefix"), Value::Text(x.clone()))); },
        None => {},
    }
    t.push((String::from_str("path"), Value::Text(p.path.clone())));
    t.push((String::from_str("config"), Value::Table(pairs_to_table(&p.config))));
    proof {
        reveal_strlit("prefix");
        reveal_strlit("path");
        reveal_strlit("config");
        let n = t@.len() as int;
        assert("path"@.len() == 4 && "config"@.len() == 6 && "prefix"@.len() == 6);
        assert("prefix"@[0] == 'p' && "config"@[0] == 'c');
        assert("path"@ != "config"@);
        assert("prefix"@ != "config"@);
        assert("prefix"@ != "path"@);
        lemma_lookup_at(t@, "path"@, n - 2);
        lemma_lookup_at(t@, "config"@, n - 1);
        if p.prefix is Some {
            lemma_lookup_at(t@, "prefix"@, 0);
        } else {
            crate::document::lemma_lookup_absent(t@, "prefix"@);
        }
    }
    Value::Table(t)
}

fn plugins_to_table(ps: &Vec<(String, Plugin)>) -> (r: Vec<(String, Value)>)
    ensures
        plugins_of(r@) == Some(entries_view(ps@)),
{
    let mut out: Vec<(String, Value)> = Vec::new();
    let mut i: usize = 0;
    while i < ps.len()
        invariant
            i <= ps@.len(),
            out@.len() == i,
            forall|j: int| 0 <= j < i ==> #[trigger] plugin_of(out@[j].1) is Some,
            plugin_entries_of(out@) =~= entries_view(ps@.subrange(0, i as int)),
        decreases ps@.len() - i,
    {
        let ghost prev = out@;
        out.push((ps[i].0.clone(), plugin_to_value(&ps[i].1)));
        proof {
            let a = plugin_entries_of(out@);
            let b = entries_view(ps@.subrange(0, i + 1));
            assert forall|j: int| 0 <= j < i + 1 implies a[j] == b[j] by {
                if j < i {
                    assert(plugin_entries_of(prev)[j] == entries_view(ps@.subrange(0, i as int))[j]);
                }
            }
            assert(a =~= b);
        }
        i = i + 1;
    }
    assert(ps@.subrange(0, ps@.len() as int) =~= ps@);
    out
}

impl FindexConfig {
    /// The settings document of this configuration: every field written out,
    /// so that reading it back gives these settings whatever the defaults.
    pub fn to_table(&self) -> (r: Vec<(String, Value)>)
        requires
            self.result_size <= i64::MAX,
        ensures
            forall|d: Settings| decode(r@, d) == Some(self.settings()),
            forall|i: int| 0 <= i < FIELD_COUNT ==> lookup(r@, #[trigger] field_key(i)) is Some,
    {
        let mut r: Vec<(String, Value)> = Vec::new();
        r.push((String::from_str("default_window_width"), Value::Integer(self.default_window_width as i64)));
        r.push((String::from_str("min_content_height"), Value::Integer(self.min_content_height as i64)));
        r.push((String::from_str("max_content_height"), Value::Integer(self.max_content_height as i64)));
        r.push((String::from_str("name_match_highlight_color"), Value::Text(self.name_match_highlight_color.clone())));
        r.push((String::from_str("decorate_window"), Value::Boolean(self.decorate_window)));
        r.push((String::from_str("close_window_on_losing_focus"), Value::Boolean(self.close_window_on_losing_focus)));
        r.push((String::from_str("query_placeholder"), Value::Text(self.query_placeholder.clone())));
        r.push((String::from_str("icon_size"), Value::Integer(self.icon_size as i64)));
        r.push((String::from_str("toggle_key"), Value::Text(self.toggle_key.clone())));
        r.push((String::from_str("min_score"), Value::Integer(self.min_score as i64)));
        r.push((String::from_str("result_size"), Value::Integer(self.result_size as i64)));
        r.push((String::from_str("plugins"), Value::Table(plugins_to_table(&self.plugins))));
        proof {
            lemma_field_keys_distinct();
            assert forall|i: int| 0 <= i < FIELD_COUNT implies r@[i].0@ == field_key(i) by {}
            assert forall|i: int| 0 <= i < FIELD_COUNT implies lookup(r@, #[trigger] field_key(i)) == Some(r@[i].1) by {
                lemma_lookup_at(r@, field_key(i), i);
            }
            assert forall|d: Settings| decode(r@, d) == Some(self.settings()) by {
                assert(lookup(r@, field_key(0)) == Some(r@[0].1));
                assert(lookup(r@, field_key(1)) == Some(r@[1].1));
                assert(lookup(r@, field_key(2)) == Some(r@[2].1));
                assert(lookup(r@, field_key(3)) == Some(r@[3].1));
                assert(lookup(r@, field_key(4)) == Some(r@[4].1));
                assert(lookup(r@, field_key(5)) == Some(r@[5].1));
                assert(lookup(r@, field_key(6)) == Some(r@[6].1));
                assert(lookup(r@, field_key(7)) == Some(r@[7].1));
                assert(lookup(r@, field_key(8)) == Some(r@[8].1));
                assert(lookup(r@, field_key(9)) == Some(r@[9].1));
                assert(lookup(r@, field_key(10)) == Some(r@[10].1));
                assert(lookup(r@, field_key(11)) == Some(r@[11].1));
            }
        }
        r
    }
}

/// What was found where the settings file should be.
pub enum SettingsSource {
    /// There is no settings file yet.
    Missing,
    /// The file is not a well-formed document; the parser's message.
    Malformed(String),
    /// The file's document.
    Parsed(Vec<(String, Value)>),
}

/// The error of a settings file that is not a well-formed document.
pub open spec fn parse_error(message: Seq<char>) -> Seq<char> {
    "Error while parsing settings: "@ + message
}

/// The configuration that failed to load: the defaults, with the error set.
fn failed_config(profile: Profile, plugins_dir: &str, error: String) -> (r: FindexConfig)
    ensures
        r.settings() == default_settings(profile, plugins_dir@),
        r.error@ == error@,
        r.plugin_definitions.wf(),
        r.plugin_definitions@.len() == 0,
{
    let mut c = FindexConfig::default_for(profile, plugins_dir);
    c.error = error;
    c
}

/// Decides what the settings store yields: the configuration, and the
/// document to write back to the settings file, if any. A missing file gives
/// the defaults and writes them; a file that cannot be read as settings gives
/// the defaults with the error set and is left as it is; any other gives its
/// settings, absent fields filled from the defaults, and is rewritten whole.
pub fn load_settings(source: SettingsSource, profile: Profile, plugins_dir: &str) -> (r: (FindexConfig, Option<Vec<(String, Value)>>))
    ensures
        r.0.plugin_definitions.wf(),
        r.0.plugin_definitions@.len() == 0,
        r.0.error@.len() == 0 <==> r.1 is Some,
        r.1 matches Some(w) ==> (forall|d: Settings| decode(w@, d) == Some(r.0.settings()))
            && (forall|i: int| 0 <= i < FIELD_COUNT ==> lookup(w@, #[trigger] field_key(i)) is Some),
        match source {
            SettingsSource::Missing => r.0.settings() == default_settings(profile, plugins_dir@)
                && r.1 is Some,
            SettingsSource::Malformed(m) => r.0.settings() == default_settings(profile, plugins_dir@)
                && r.0.error@ == parse_error(m@),
            SettingsSource::Parsed(t) => match decode(t@, default_settings(profile, plugins_dir@)) {
                Some(s) => r.0.settings() == s && r.1 is Some,
                None => r.0.settings() == default_settings(profile, plugins_dir@) && r.1 is None,
            },
        },
{
    proof {
        reveal_strlit("Error while parsing settings: ");
        assert("Error while parsing settings: "@.len() == 30);
    }
    match source {
        SettingsSource::Missing => {
            let c = FindexConfig::default_for(profile, plugins_dir);
            let w = c.to_table();
            (c, Some(w))
        },
        SettingsSource::Malformed(m) => {
            let e = String::from_str("Error while parsing settings: ").concat(m.as_str());
            (failed_config(profile, plugins_dir, e), None)
        },
        SettingsSource::Parsed(t) => {
            match FindexConfig::from_table(&t, profile, plugins_dir) {
                Ok(c) => {
                    let w = c.to_table();
                    (c, Some(w))
                },
                Err(e) => {
                    (failed_config(profile, plugins_dir, e), None)
                },
            }
        },
    }
}

/// Every field that a document leaves out is read as its default.
pub proof fn lemma_default_fill(t: Seq<(String, Value)>, d: Settings)
    ensures
        decode(t, d) matches Some(s) ==> {
            &&& lookup(t, "default_window_width"@) is None ==> s.default_window_width == d.default_window_width
            &&& lookup(t, "min_content_height"@) is None ==> s.min_content_height == d.min_content_height
            &&& lookup(t, "max_content_height"@) is None ==> s.max_content_height == d.max_content_height
            &&& lookup(t, "name_match_highlight_color"@) is None
                ==> s.name_match_highlight_color == d.name_match_highlight_color
            &&& lookup(t, "decorate_window"@) is None ==> s.decorate_window == d.decorate_window
            &&& lookup(t, "close_window_on_losing_focus"@) is None
                ==> s.close_window_on_losing_focus == d.close_window_on_losing_focus
            &&& lookup(t, "query_placeholder"@) is None ==> s.query_placeholder == d.query_placeholder
            &&& lookup(t, "icon_size"@) is None ==> s.icon_size == d.icon_size
            &&& lookup(t, "toggle_key"@) is None ==> s.toggle_key == d.toggle_key
            &&& lookup(t, "min_score"@) is None ==> s.min_score == d.min_score
            &&& lookup(t, "result_size"@) is None ==> s.result_size == d.result_size
            &&& lookup(t, "plugins"@) is None ==> s.plugins == d.plugins
        },
{
}

/// Loading a document, writing the result back and loading that again gives
/// the same settings, and so does every further cycle: `w` is any document
/// that reads back as the loaded settings under every defaults, which is
/// what `FindexConfig::to_table` writes.
pub proof fn lemma_reload_identical(t: Seq<(String, Value)>, w: Seq<(String, Value)>, d: Settings)
    requires
        decode(t, d) is Some,
        forall|e: Settings| decode(w, e) == decode(t, d),
    ensures
        decode(w, d) == decode(t, d),
        forall|w2: Seq<(String, Value)>| (forall|e: Settings| #[trigger] decode(w2, e) == decode(w, d))
            ==> decode(w2, d) == decode(t, d),
{
}

} // verus!
