//! The launcher's configuration: its tunables, the declared plugins and the
//! registry of loaded plugins, with the built-in defaults.
use vstd::prelude::*;
use crate::registry::Registry;

verus! {

/// One declared plugin: where its binary lies, an optional prefix that
/// overrides the one the plugin reports, and its own settings.
pub struct Plugin {
    pub prefix: Option<String>,
    pub path: String,
    pub config: Vec<(String, String)>,
}

/// A declared plugin as plain values.
pub struct PluginModel {
    pub prefix: Option<Seq<char>>,
    pub path: Seq<char>,
    pub config: Seq<(Seq<char>, Seq<char>)>,
}

/// A pair of strings as a pair of character sequences.
pub open spec fn pair_view(e: (String, String)) -> (Seq<char>, Seq<char>) {
    (e.0@, e.1@)
}

/// A plugin's settings as pairs of character sequences.
pub open spec fn pairs_view(v: Seq<(String, String)>) -> Seq<(Seq<char>, Seq<char>)> {
    v.map_values(|e: (String, String)| pair_view(e))
}

/// An optional string as an optional character sequence.
pub open spec fn opt_view(o: Option<String>) -> Option<Seq<char>> {
    match o {
        Some(s) => Some(s@),
        None => None,
    }
}

impl View for Plugin {
    type V = PluginModel;

    open spec fn view(&self) -> PluginModel {
        PluginModel {
            prefix: opt_view(self.prefix),
            path: self.path@,
            config: pairs_view(self.config@),
        }
    }
}

/// A named plugin as plain values.
pub open spec fn entry_view(e: (String, Plugin)) -> (Seq<char>, PluginModel) {
    (e.0@, e.1@)
}

/// The declared plugins as plain values.
pub open spec fn entries_view(v: Seq<(String, Plugin)>) -> Seq<(Seq<char>, PluginModel)> {
    v.map_values(|e: (String, Plugin)| entry_view(e))
}

/// The whole configuration of the launcher.
pub struct FindexConfig {
    pub default_window_width: i32,
    pub min_content_height: i32,
    pub max_content_height: i32,
    pub name_match_highlight_color: String,
    pub decorate_window: bool,
    pub close_window_on_losing_focus: bool,
    pub query_placeholder: String,
    pub icon_size: i32,
    pub toggle_key: String,
    pub min_score: isize,
    pub result_size: usize,
    /// The declared plugins, by name.
    pub plugins: Vec<(String, Plugin)>,
    /// Set when the settings file could not be read as settings.
    pub error: String,
    /// The loaded plugins, by effective prefix; empty until they are loaded.
    pub plugin_definitions: Registry,
}

/// What is written to and read from the settings file: every field but the
/// error and the registry.
pub struct Settings {
    pub default_window_width: i32,
    pub min_content_height: i32,
    pub max_content_height: i32,
    pub name_match_highlight_color: Seq<char>,
    pub decorate_window: bool,
    pub close_window_on_losing_focus: bool,
    pub query_placeholder: Seq<char>,
    pub icon_size: i32,
    pub toggle_key: Seq<char>,
    pub min_score: isize,
    pub result_size: usize,
    pub plugins: Seq<(Seq<char>, PluginModel)>,
}

impl FindexConfig {
    /// The persistent part of the configuration.
    pub open spec fn settings(&self) -> Settings {
        Settings {
            default_window_width: self.default_window_width,
            min_content_height: self.min_content_height,
            max_content_height: self.max_content_height,
            name_match_highlight_color: self.name_match_highlight_color@,
            decorate_window: self.decorate_window,
            close_window_on_losing_focus: self.close_window_on_losing_focus,
            query_placeholder: self.query_placeholder@,
            icon_size: self.icon_size,
            toggle_key: self.toggle_key@,
            min_score: self.min_score,
            result_size: self.result_size,
            plugins: entries_view(self.plugins@),
        }
    }

    /// The settings hold, the error is empty and no plugin is loaded yet.
    pub open spec fn is_fresh(&self) -> bool {
        &&& self.error@.len() == 0
        &&& self.plugin_definitions.wf()
        &&& self.plugin_definitions@.len() == 0
    }
}

/// Where the built-in plugins are looked for.
#[derive(Clone, Copy, Debug, PartialEq, Eq)]
pub enum Profile {
    /// Next to the sources, as built in a working tree.
    Development,
    /// In the user's plugin directory.
    Production,
}

/// A plugin at `path` with no prefix of its own and no settings.
pub open spec fn plugin_at(path: Seq<char>) -> PluginModel {
    PluginModel { prefix: None, path, config: Seq::empty() }
}

/// The built-in plugins of a profile; `dir` is the user's plugin directory.
pub open spec fn default_plugins(profile: Profile, dir: Seq<char>) -> Seq<(Seq<char>, PluginModel)> {
    match profile {
        Profile::Development => seq![
            ("github-repo"@, plugin_at("plugins/github-repo/target/debug/libgithub_repo.so"@)),
            ("urlopen"@, plugin_at("plugins/urlopen/target/debug/liburlopen.so"@)),
        ],
        Profile::Production => seq![
            ("github-repo"@, plugin_at(dir + "/github_repo.so"@)),
            ("urlopen"@, plugin_at(dir + "/urlopen.so"@)),
        ],
    }
}

/// The built-in settings of a profile.
pub open spec fn default_settings(profile: Profile, dir: Seq<char>) -> Settings {
    Settings {
        default_window_width: 600,
        min_content_height: 0,
        max_content_height: 400,
        name_match_highlight_color: "orange"@,
        decorate_window: false,
        close_window_on_losing_focus: true,
        query_placeholder: "Search for applications"@,
        icon_size: 32,
        toggle_key: "<Shift>space"@,
        min_score: 5,
        result_size: 10,
        plugins: default_plugins(profile, dir),
    }
}

fn plugin_at_path(path: String) -> (r: Plugin)
    ensures
        r@ == plugin_at(path@),
{
    let r = Plugin { prefix: None, path, config: Vec::new() };
    assert(r@.config =~= Seq::<(Seq<char>, Seq<char>)>::empty());
    r
}

impl FindexConfig {
    /// The built-in configuration of `profile`, with its plugins under
    /// `plugins_dir` for the production profile.
    pub fn default_for(profile: Profile, plugins_dir: &str) -> (r: FindexConfig)
        ensures
            r.settings() == default_settings(profile, plugins_dir@),
            r.is_fresh(),
    {
        let (github, urlopen) = match profile {
            Profile::Development => (
                String::from_str("plugins/github-repo/target/debug/libgithub_repo.so"),
                String::from_str("plugins/urlopen/target/debug/liburlopen.so"),
            ),
            Profile::Production => (
                plugins_dir.to_string().concat("/github_repo.so"),
                plugins_dir.to_string().concat("/urlopen.so"),
            ),
        };
        let mut plugins: Vec<(String, Plugin)> = Vec::new();
        plugins.push((String::from_str("github-repo"), plugin_at_path(github)));
        plugins.push((String::from_str("urlopen"), plugin_at_path(urlopen)));
        let r = FindexConfig {
            default_window_width: 600,
            min_content_height: 0,
            max_content_height: 400,
            name_match_highlight_color: String::from_str("orange"),
            decorate_window: false,
            close_window_on_losing_focus: true,
            query_placeholder: String::from_str("Search for applications"),
            icon_size: 32,
            toggle_key: String::from_str("<Shift>space"),
            min_score: 5,
            result_size: 10,
            plugins,
            error: String::new(),
            plugin_definitions: Registry::new(),
        };
        assert(r.settings().plugins =~= default_plugins(profile, plugins_dir@));
        r
    }
}

impl Default for FindexConfig {
    /// The built-in configuration of the development profile.
    fn default() -> (r: FindexConfig)
        ensures
            r.settings() == default_settings(Profile::Development, Seq::empty()),
            r.is_fresh(),
    {
        FindexConfig::default_for(Profile::Development, "")
    }
}

/// Relies on shellexpand::tilde: a path that starts with `~` followed by
/// `/` has the `~` replaced by the home directory when one is known; any
/// other path comes back as it is.
#[verifier::external_body]
fn expand_tilde(path: &str) -> (r: String)
    ensures
        path@.len() == 0 || path@[0] != '~' ==> r@ == path@,
        path@.len() > 0 && path@[0] == '~' ==> r@.len() >= path@.len() - 1
            && r@.subrange(r@.len() - (path@.len() - 1), r@.len() as int) == path@.subrange(1, path@.len() as int),
{
    shellexpand::tilde(path).to_string()
}

/// `s` ends with `tail`.
pub open spec fn ends_with(s: Seq<char>, tail: Seq<char>) -> bool {
    s.len() >= tail.len() && s.subrange(s.len() - tail.len(), s.len() as int) == tail
}

/// The user's plugin directory, under the home directory.
pub fn production_plugins_dir() -> (r: String)
    ensures
        ends_with(r@, "/.config/findex/plugins"@),
{
    proof {
        reveal_strlit("~/.config/findex/plugins");
        reveal_strlit("/.config/findex/plugins");
        assert("~/.config/findex/plugins"@.subrange(1, 24) =~= "/.config/findex/plugins"@);
    }
    expand_tilde("~/.config/findex/plugins")
}

/// Where the settings file of a profile lies, and the directory that must
/// exist to hold it, if any.
pub fn settings_location(profile: Profile) -> (r: (String, Option<String>))
    ensures
        profile == Profile::Development ==> r.0@ == "settings.toml"@ && r.1 is None,
        profile == Profile::Production ==> ends_with(r.0@, "/.config/findex/settings.toml"@)
            && (r.1 matches Some(dir) && ends_with(dir@, "/.config/findex"@)),
{
    match profile {
        Profile::Development => (String::from_str("settings.toml"), None),
        Profile::Production => {
            proof {
                reveal_strlit("~/.config/findex/settings.toml");
                reveal_strlit("/.config/findex/settings.toml");
                reveal_strlit("~/.config/findex");
                reveal_strlit("/.config/findex");
                assert("~/.config/findex/settings.toml"@.subrange(1, 30) =~= "/.config/findex/settings.toml"@);
                assert("~/.config/findex"@.subrange(1, 16) =~= "/.config/findex"@);
            }
            (expand_tilde("~/.config/findex/settings.toml"), Some(expand_tilde("~/.config/findex")))
        },
    }
}

} // verus!
