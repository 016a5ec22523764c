//! Settings and their defaults. Reading the TOML file is done by the caller;
//! this module holds the values, the defaults and the `~` expansion of paths.
use vstd::prelude::*;

verus! {

/// General settings.
#[derive(Debug, Clone)]
pub struct GeneralSettings {
    pub cache_dir: String,
    pub log_file: String,
    pub preload_count: u8,
}

/// Locations of the input files.
#[derive(Debug, Clone)]
pub struct PathSettings {
    pub cookies: String,
    pub playlists: String,
}

/// Colors of the interface, as `#rrggbb` strings.
#[derive(Debug, Clone)]
pub struct ThemeSettings {
    pub name: String,
    pub primary: String,
    pub secondary: String,
    pub visualizer_colors: Vec<String>,
}

/// The key names bound to each command.
#[derive(Debug, Clone)]
pub struct KeybindingSettings {
    pub play_pause: String,
    pub next: String,
    pub previous: String,
    pub volume_up: String,
    pub volume_down: String,
    pub shuffle: String,
    pub repeat: String,
    pub favorite: String,
    pub quit: String,
    pub search: String,
    pub search_alt: String,
    pub queue: String,
}

/// Visualizer settings. The decay factor is kept in thousandths
/// (`850` stands for a factor of 0.85).
#[derive(Debug, Clone)]
pub struct VisualizerSettings {
    pub bars: u16,
    pub fps: u16,
    pub decay_milli: u16,
}

/// All settings.
#[derive(Debug, Clone)]
pub struct Settings {
    pub general: GeneralSettings,
    pub paths: PathSettings,
    pub theme: ThemeSettings,
    pub keybindings: KeybindingSettings,
    pub visualizer: VisualizerSettings,
}

pub fn default_cache_dir() -> (r: String)
    ensures
        r@ == "~/.termtube/cache"@,
{
    "~/.termtube/cache".to_string()
}

pub fn default_log_file() -> (r: String)
    ensures
        r@ == "~/.termtube/termtube.log"@,
{
    "~/.termtube/termtube.log".to_string()
}

pub fn default_preload_count() -> (r: u8)
    ensures
        r == 5,
{
    5
}

pub fn default_cookies_path() -> (r: String)
    ensures
        r@ == "~/.termtube/cookies.txt"@,
{
    "~/.termtube/cookies.txt".to_string()
}

pub fn default_playlists_path() -> (r: String)
    ensures
        r@ == "~/.termtube/playlist.txt"@,
{
    "~/.termtube/playlist.txt".to_string()
}

pub fn default_theme_name() -> (r: String)
    ensures
        r@ == "default"@,
{
    "default".to_string()
}

pub fn default_primary_color() -> (r: String)
    ensures
        r@ == "#61afef"@,
{
    "#61afef".to_string()
}

pub fn default_secondary_color() -> (r: String)
    ensures
        r@ == "#c678dd"@,
{
    "#c678dd".to_string()
}

pub fn default_visualizer_colors() -> (r: Vec<String>)
    ensures
        r@.len() == 3,
        r@[0]@ == "#98c379"@,
        r@[1]@ == "#e5c07b"@,
        r@[2]@ == "#e06c75"@,
{
    let mut v: Vec<String> = Vec::new();
    v.push("#98c379".to_string());
    v.push("#e5c07b".to_string());
    v.push("#e06c75".to_string());
    v
}

pub fn default_play_pause() -> (r: String)
    ensures
        r@ == "space"@,
{
    "space".to_string()
}

pub fn default_next() -> (r: String)
    ensures
        r@ == "n"@,
{
    "n".to_string()
}

pub fn default_previous() -> (r: String)
    ensures
        r@ == "p"@,
{
    "p".to_string()
}

pub fn default_volume_up() -> (r: String)
    ensures
        r@ == "+"@,
{
    "+".to_string()
}

pub fn default_volume_down() -> (r: String)
    ensures
        r@ == "-"@,
{
    "-".to_string()
}

pub fn default_shuffle() -> (r: String)
    ensures
        r@ == "s"@,
{
    "s".to_string()
}

pub fn default_repeat() -> (r: String)
    ensures
        r@ == "r"@,
{
    "r".to_string()
}

pub fn default_favorite() -> (r: String)
    ensures
        r@ == "f"@,
{
    "f".to_string()
}

pub fn default_quit() -> (r: String)
    ensures
        r@ == "q"@,
{
    "q".to_string()
}

pub fn default_search() -> (r: String)
    ensures
        r@ == "/"@,
{
    "/".to_string()
}

/// The second key that opens the search screen.
pub fn default_search_alt() -> (r: String)
    ensures
        r@ == "F"@,
{
    "F".to_string()
}

pub fn default_queue() -> (r: String)
    ensures
        r@ == "Q"@,
{
    "Q".to_string()
}

pub fn default_bars() -> (r: u16)
    ensures
        r == 24,
{
    24
}

pub fn default_fps() -> (r: u16)
    ensures
        r == 30,
{
    30
}

/// The default decay factor, 0.85, in thousandths.
pub fn default_decay_milli() -> (r: u16)
    ensures
        r == 850,
{
    850
}

impl Default for GeneralSettings {
    fn default() -> (r: Self)
        ensures
            r.cache_dir@ == "~/.termtube/cache"@,
            r.log_file@ == "~/.termtube/termtube.log"@,
            r.preload_count == 5,
    {
        Self {
            cache_dir: default_cache_dir(),
            log_file: default_log_file(),
            preload_count: default_preload_count(),
        }
    }
}

impl Default for PathSettings {
    fn default() -> (r: Self)
        ensures
            r.cookies@ == "~/.termtube/cookies.txt"@,
            r.playlists@ == "~/.termtube/playlist.txt"@,
    {
        Self { cookies: default_cookies_path(), playlists: default_playlists_path() }
    }
}

impl Default for ThemeSettings {
    fn default() -> (r: Self)
        ensures
            r.name@ == "default"@,
            r.primary@ == "#61afef"@,
            r.secondary@ == "#c678dd"@,
            r.visualizer_colors@.len() == 3,
            r.visualizer_colors@[0]@ == "#98c379"@,
            r.visualizer_colors@[1]@ == "#e5c07b"@,
            r.visualizer_colors@[2]@ == "#e06c75"@,
    {
        Self {
            name: default_theme_name(),
            primary: default_primary_color(),
            secondary: default_secondary_color(),
            visualizer_colors: default_visualizer_colors(),
        }
    }
}

/// Whether `k` holds the default key bindings.
pub open spec fn default_keybindings(k: KeybindingSettings) -> bool {
    &&& k.play_pause@ == "space"@
    &&& k.next@ == "n"@
    &&& k.previous@ == "p"@
    &&& k.volume_up@ == "+"@
    &&& k.volume_down@ == "-"@
    &&& k.shuffle@ == "s"@
    &&& k.repeat@ == "r"@
    &&& k.favorite@ == "f"@
    &&& k.quit@ == "q"@
    &&& k.search@ == "/"@
    &&& k.search_alt@ == "F"@
    &&& k.queue@ == "Q"@
}

impl Default for KeybindingSettings {
    fn default() -> (r: Self)
        ensures
            default_keybindings(r),
    {
        Self {
            play_pause: default_play_pause(),
            next: default_next(),
            previous: default_previous(),
            volume_up: default_volume_up(),
            volume_down: default_volume_down(),
            shuffle: default_shuffle(),
            repeat: default_repeat(),
            favorite: default_favorite(),
            quit: default_quit(),
            search: default_search(),
            search_alt: default_search_alt(),
            queue: default_queue(),
        }
    }
}

impl Default for VisualizerSettings {
    fn default() -> (r: Self)
        ensures
            r.bars == 24,
            r.fps == 30,
            r.decay_milli == 850,
    {
        Self { bars: default_bars(), fps: default_fps(), decay_milli: default_decay_milli() }
    }
}

impl Default for Settings {
    fn default() -> (r: Self)
        ensures
            r.general.cache_dir@ == "~/.termtube/cache"@,
            r.general.log_file@ == "~/.termtube/termtube.log"@,
            r.general.preload_count == 5,
            r.paths.cookies@ == "~/.termtube/cookies.txt"@,
            r.paths.playlists@ == "~/.termtube/playlist.txt"@,
            r.theme.name@ == "default"@,
            r.theme.primary@ == "#61afef"@,
            r.theme.secondary@ == "#c678dd"@,
            r.theme.visualizer_colors@.len() == 3,
            default_keybindings(r.keybindings),
            r.visualizer.bars == 24,
            r.visualizer.fps == 30,
            r.visualizer.decay_milli == 850,
    {
        Self {
            general: GeneralSettings::default(),
            paths: PathSettings::default(),
            theme: ThemeSettings::default(),
            keybindings: KeybindingSettings::default(),
            visualizer: VisualizerSettings::default(),
        }
    }
}

/// Whether `s` starts with a `~` that names the home directory: `~` alone or
/// followed by a path separator.
pub open spec fn tilde_prefixed(s: Seq<char>) -> bool {
    s.len() > 0 && s[0] == '~' && (s.len() == 1 || s[1] == '/' || s[1] == '\\')
}

/// The possible results of expanding the leading `~` of `s`: `s` itself when it
/// has no such `~` or no home directory is known, or some home directory
/// followed by the rest of `s`.
pub open spec fn tilde_expansion_of(s: Seq<char>, r: Seq<char>) -> bool {
    ||| r == s
    ||| (tilde_prefixed(s) && exists|home: Seq<char>| r == home + s.drop_first())
}

/// `shellexpand::tilde`: replaces a leading `~` (alone or before a separator)
/// by the home directory when one is known, and otherwise returns the input.
/// Which home directory comes back depends on the environment and is left open.
#[verifier::external_body]
pub(crate) fn expand_tilde(s: &str) -> (r: String)
    ensures
        tilde_expansion_of(s@, r@),
{
    shellexpand::tilde(s).to_string()
}

impl Settings {
    /// Expand shell paths like ~ to absolute paths.
    pub fn resolve_paths(&mut self)
        ensures
            tilde_expansion_of(old(self).general.cache_dir@, final(self).general.cache_dir@),
            tilde_expansion_of(old(self).general.log_file@, final(self).general.log_file@),
            tilde_expansion_of(old(self).paths.cookies@, final(self).paths.cookies@),
            tilde_expansion_of(old(self).paths.playlists@, final(self).paths.playlists@),
            final(self).general.preload_count == old(self).general.preload_count,
            final(self).theme == old(self).theme,
            final(self).keybindings == old(self).keybindings,
            final(self).visualizer == old(self).visualizer,
    {
        self.general.cache_dir = expand_tilde(self.general.cache_dir.as_str());
        self.general.log_file = expand_tilde(self.general.log_file.as_str());
        self.paths.cookies = expand_tilde(self.paths.cookies.as_str());
        self.paths.playlists = expand_tilde(self.paths.playlists.as_str());
    }

    /// Replaces the cookies and playlist paths by those given on the command line.
    pub fn apply_overrides(&mut self, cookies: Option<String>, playlists: Option<String>)
        ensures
            final(self).paths.cookies == match cookies {
                Some(c) => c,
                None => old(self).paths.cookies,
            },
            final(self).paths.playlists == match playlists {
                Some(p) => p,
                None => old(self).paths.playlists,
            },
            final(self).general == old(self).general,
            final(self).theme == old(self).theme,
            final(self).keybindings == old(self).keybindings,
            final(self).visualizer == old(self).visualizer,
    {
        if let Some(c) = cookies {
            self.paths.cookies = c;
        }
        if let Some(p) = playlists {
            self.paths.playlists = p;
        }
    }
}

} // verus!
