//! Themes: the colours and icons of the screen. A theme is put together from partial
//! themes, each of which gives some of the colours and icons.

use crate::text::str_equal;
use vstd::prelude::*;

verus! {

/// Name of the file that describes a theme within its archive.
pub const MANIFEST_NAME: &'static str = "theme.toml";

/// The colours of a theme.
#[derive(Debug, PartialEq, Eq)]
pub struct ThemeColors {
    pub background: String,
    pub foreground: String,
    pub container: String,
    pub border: String,
    pub button_idle: String,
    pub button_hover: String,
    pub button_press: String,
    pub success: String,
    pub warning: String,
    pub error: String,
}

/// Some of the colours of a theme.
#[derive(Debug, PartialEq, Eq)]
pub struct PartialThemeColors {
    pub background: Option<String>,
    pub foreground: Option<String>,
    pub container: Option<String>,
    pub border: Option<String>,
    pub button_idle: Option<String>,
    pub button_hover: Option<String>,
    pub button_press: Option<String>,
    pub success: Option<String>,
    pub warning: Option<String>,
    pub error: Option<String>,
}

/// The icons of a theme, each as the bytes of its image.
#[derive(Debug, PartialEq, Eq)]
pub struct ThemeIcons {
    pub background_task_running: Vec<u8>,
}

/// Some of the icons of a theme.
#[derive(Debug, PartialEq, Eq)]
pub struct PartialThemeIcons {
    pub background_task_running: Option<Vec<u8>>,
}

/// The icons that the description of a theme names, each by the name of its file.
#[derive(Debug, PartialEq, Eq)]
pub struct PartialThemeManifestIcons {
    pub background_task_running: Option<String>,
}

/// The description of a partial theme.
#[derive(Debug, PartialEq, Eq)]
pub struct PartialThemeManifest {
    pub name: String,
    pub colors: PartialThemeColors,
    pub icons: PartialThemeManifestIcons,
}

/// A theme that gives some colours and icons.
#[derive(Debug, PartialEq, Eq)]
pub struct PartialTheme {
    pub name: String,
    pub colors: PartialThemeColors,
    pub icons: PartialThemeIcons,
}

/// A theme that gives every colour and icon.
#[derive(Debug, PartialEq, Eq)]
pub struct Theme {
    pub colors: ThemeColors,
    pub icons: ThemeIcons,
}

/// Why a theme could not be loaded.
#[derive(Debug, PartialEq, Eq)]
pub enum ThemeError {
    /// The archive holds no description of the theme.
    MissingManifest,
    /// The description names an icon that the archive does not hold.
    MissingIcon(String),
}

/// One file of an archive.
#[derive(Debug, PartialEq, Eq)]
pub struct ArchiveFile {
    pub name: String,
    pub contents: Vec<u8>,
}

impl PartialThemeColors {
    /// Whether every colour is given.
    pub open spec fn is_whole(self) -> bool {
        &&& self.background is Some
        &&& self.foreground is Some
        &&& self.container is Some
        &&& self.border is Some
        &&& self.button_idle is Some
        &&& self.button_hover is Some
        &&& self.button_press is Some
        &&& self.success is Some
        &&& self.warning is Some
        &&& self.error is Some
    }
}

impl Theme {
    /// Whether a partial theme gives every colour and icon.
    pub open spec fn is_whole(partial: PartialTheme) -> bool {
        partial.colors.is_whole() && partial.icons.background_task_running is Some
    }

    /// The theme that a partial theme is, if it gives every colour and icon.
    pub fn from_partial(partial: PartialTheme) -> (r: Option<Theme>)
        ensures
            match r {
                Some(theme) => {
                    &&& Theme::is_whole(partial)
                    &&& Some(theme.colors.background) == partial.colors.background
                    &&& Some(theme.colors.foreground) == partial.colors.foreground
                    &&& Some(theme.colors.container) == partial.colors.container
                    &&& Some(theme.colors.border) == partial.colors.border
                    &&& Some(theme.colors.button_idle) == partial.colors.button_idle
                    &&& Some(theme.colors.button_hover) == partial.colors.button_hover
                    &&& Some(theme.colors.button_press) == partial.colors.button_press
                    &&& Some(theme.colors.success) == partial.colors.success
                    &&& Some(theme.colors.warning) == partial.colors.warning
                    &&& Some(theme.colors.error) == partial.colors.error
                    &&& Some(theme.icons.background_task_running)
                        == partial.icons.background_task_running
                },
                None => !Theme::is_whole(partial),
            },
    {
        let colors = partial.colors;
        Some(
            Theme {
                colors: ThemeColors {
                    background: colors.background?,
                    foreground: colors.foreground?,
                    container: colors.container?,
                    border: colors.border?,
                    button_idle: colors.button_idle?,
                    button_hover: colors.button_hover?,
                    button_press: colors.button_press?,
                    success: colors.success?,
                    warning: colors.warning?,
                    error: colors.error?,
                },
                icons: ThemeIcons {
                    background_task_running: partial.icons.background_task_running?,
                },
            },
        )
    }

    /// Lays one partial theme over the theme: what the partial theme gives replaces what
    /// the theme had.
    pub fn apply_partial(&mut self, partial: &PartialTheme)
        ensures
            final(self).colors.background@ == match partial.colors.background {
                Some(c) => c@,
                None => old(self).colors.background@,
            },
            final(self).colors.foreground@ == match partial.colors.foreground {
                Some(c) => c@,
                None => old(self).colors.foreground@,
            },
            final(self).colors.container@ == match partial.colors.container {
                Some(c) => c@,
                None => old(self).colors.container@,
            },
            final(self).colors.border@ == match partial.colors.border {
                Some(c) => c@,
                None => old(self).colors.border@,
            },
            final(self).colors.button_idle@ == match partial.colors.button_idle {
                Some(c) => c@,
                None => old(self).colors.button_idle@,
            },
            final(self).colors.button_hover@ == match partial.colors.button_hover {
                Some(c) => c@,
                None => old(self).colors.button_hover@,
            },
            final(self).colors.button_press@ == match partial.colors.button_press {
                Some(c) => c@,
                None => old(self).colors.button_press@,
            },
            final(self).colors.success@ == match partial.colors.success {
                Some(c) => c@,
                None => old(self).colors.success@,
            },
            final(self).colors.warning@ == match partial.colors.warning {
                Some(c) => c@,
                None => old(self).colors.warning@,
            },
            final(self).colors.error@ == match partial.colors.error {
                Some(c) => c@,
                None => old(self).colors.error@,
            },
            final(self).icons.background_task_running@ == match partial.icons.background_task_running {
                Some(i) => i@,
                None => old(self).icons.background_task_running@,
            },
    {
        if let Some(color) = &partial.colors.background {
            self.colors.background = color.clone();
        }
        if let Some(color) = &partial.colors.foreground {
            self.colors.foreground = color.clone();
        }
        if let Some(color) = &partial.colors.container {
            self.colors.container = color.clone();
        }
        if let Some(color) = &partial.colors.border {
            self.colors.border = color.clone();
        }
        if let Some(color) = &partial.colors.button_idle {
            self.colors.button_idle = color.clone();
        }
        if let Some(color) = &partial.colors.button_hover {
            self.colors.button_hover = color.clone();
        }
        if let Some(color) = &partial.colors.button_press {
            self.colors.button_press = color.clone();
        }
        if let Some(color) = &partial.colors.success {
            self.colors.success = color.clone();
        }
        if let Some(color) = &partial.colors.warning {
            self.colors.warning = color.clone();
        }
        if let Some(color) = &partial.colors.error {
            self.colors.error = color.clone();
        }
        if let Some(icon) = &partial.icons.background_task_running {
            self.icons.background_task_running = crate::ident::copy_bytes(icon);
        }
    }

    /// Lays partial themes over the theme, one after the other: for every colour and icon
    /// the last partial theme that gives it decides.
    pub fn apply_partials(&mut self, partials: &Vec<PartialTheme>)
        ensures
            final(self)@ == overlaid(old(self)@, partials@, partials@.len()),
    {
        let mut i: usize = 0;
        while i < partials.len()
            invariant
                i <= partials@.len(),
                self@ == overlaid(old(self)@, partials@, i as nat),
            decreases partials@.len() - i,
        {
            self.apply_partial(&partials[i]);
            i += 1;
        }
    }
}

/// What a theme stands for: its colours as text and its icons as bytes.
pub struct ThemeView {
    pub background: Seq<char>,
    pub foreground: Seq<char>,
    pub container: Seq<char>,
    pub border: Seq<char>,
    pub button_idle: Seq<char>,
    pub button_hover: Seq<char>,
    pub button_press: Seq<char>,
    pub success: Seq<char>,
    pub warning: Seq<char>,
    pub error: Seq<char>,
    pub background_task_running: Seq<u8>,
}

impl View for Theme {
    type V = ThemeView;

    open spec fn view(&self) -> ThemeView {
        ThemeView {
            background: self.colors.background@,
            foreground: self.colors.foreground@,
            container: self.colors.container@,
            border: self.colors.border@,
            button_idle: self.colors.button_idle@,
            button_hover: self.colors.button_hover@,
            button_press: self.colors.button_press@,
            success: self.colors.success@,
            warning: self.colors.warning@,
            error: self.colors.error@,
            background_task_running: self.icons.background_task_running@,
        }
    }
}

/// A theme with one partial theme laid over it.
pub open spec fn overlay(theme: ThemeView, partial: PartialTheme) -> ThemeView {
    ThemeView {
        background: match partial.colors.background {
            Some(c) => c@,
            None => theme.background,
        },
        foreground: match partial.colors.foreground {
            Some(c) => c@,
            None => theme.foreground,
        },
        container: match partial.colors.container {
            Some(c) => c@,
            None => theme.container,
        },
        border: match partial.colors.border {
            Some(c) => c@,
            None => theme.border,
        },
        button_idle: match partial.colors.button_idle {
            Some(c) => c@,
            None => theme.button_idle,
        },
        button_hover: match partial.colors.button_hover {
            Some(c) => c@,
            None => theme.button_hover,
        },
        button_press: match partial.colors.button_press {
            Some(c) => c@,
            None => theme.button_press,
        },
        success: match partial.colors.success {
            Some(c) => c@,
            None => theme.success,
        },
        warning: match partial.colors.warning {
            Some(c) => c@,
            None => theme.warning,
        },
        error: match partial.colors.error {
            Some(c) => c@,
            None => theme.error,
        },
        background_task_running: match partial.icons.background_task_running {
            Some(i) => i@,
            None => theme.background_task_running,
        },
    }
}

/// A theme with the first `k` partial themes laid over it, one after the other.
pub open spec fn overlaid(theme: ThemeView, partials: Seq<PartialTheme>, k: nat) -> ThemeView
    decreases k,
{
    if k == 0 {
        theme
    } else {
        overlay(overlaid(theme, partials, (k - 1) as nat), partials[k - 1])
    }
}

/// Selects the files of the given name.
pub open spec fn file_named(name: Seq<char>) -> spec_fn(ArchiveFile) -> bool {
    |f: ArchiveFile| f.name@ == name
}

/// The contents of the last of the first `k` files that has the given name.
pub open spec fn last_named(files: Seq<ArchiveFile>, name: Seq<char>, k: nat) -> Option<Seq<u8>>
    decreases k,
{
    if k == 0 {
        None
    } else if files[k - 1].name@ == name {
        Some(files[k - 1].contents@)
    } else {
        last_named(files, name, (k - 1) as nat)
    }
}

/// Where the description of the theme stands among the files of an archive: it is the
/// first file of its name.
pub fn find_manifest(files: &Vec<ArchiveFile>) -> (r: Result<usize, ThemeError>)
    ensures
        match r {
            Ok(i) => crate::db::model::first_where(files@, file_named(MANIFEST_NAME@)) == Some(
                i as int,
            ) && i < files@.len(),
            Err(e) => e == ThemeError::MissingManifest && crate::db::model::first_where(
                files@,
                file_named(MANIFEST_NAME@),
            ) is None,
        },
{
    let mut i: usize = 0;
    while i < files.len()
        invariant
            i <= files@.len(),
            forall|j: int| 0 <= j < i ==> !(file_named(MANIFEST_NAME@))(#[trigger] files@[j]),
        decreases files@.len() - i,
    {
        if str_equal(files[i].name.as_str(), MANIFEST_NAME) {
            proof {
                crate::db::model::lemma_first_where_is(files@, file_named(MANIFEST_NAME@), i as int);
            }
            return Ok(i);
        }
        i += 1;
    }
    proof {
        crate::db::model::lemma_first_where_none(files@, file_named(MANIFEST_NAME@));
    }
    Err(ThemeError::MissingManifest)
}

fn find_icon(files: &Vec<ArchiveFile>, name: &str) -> (r: Option<Vec<u8>>)
    ensures
        match r {
            Some(bytes) => last_named(files@, name@, files@.len()) == Some(bytes@),
            None => last_named(files@, name@, files@.len()) is None,
        },
{
    let mut found: Option<Vec<u8>> = None;
    let mut i: usize = 0;
    while i < files.len()
        invariant
            i <= files@.len(),
            match found {
                Some(bytes) => last_named(files@, name@, i as nat) == Some(bytes@),
                None => last_named(files@, name@, i as nat) is None,
            },
        decreases files@.len() - i,
    {
        if str_equal(files[i].name.as_str(), name) {
            found = Some(crate::ident::copy_bytes(&files[i].contents));
        }
        i += 1;
    }
    found
}

impl PartialTheme {
    /// Whether the partial theme gives every colour and icon, so that it is a theme.
    pub fn gives_everything(&self) -> (r: bool)
        ensures
            r == Theme::is_whole(*self),
    {
        self.colors.background.is_some() &&
        self.colors.foreground.is_some() &&
        self.colors.container.is_some() &&
        self.colors.border.is_some() &&
        self.colors.button_idle.is_some() &&
        self.colors.button_hover.is_some() &&
        self.colors.button_press.is_some() &&
        self.colors.success.is_some() &&
        self.colors.warning.is_some() &&
        self.colors.error.is_some()
            && self.icons.background_task_running.is_some()
    }

    /// Puts a partial theme together from its description and the files of its archive.
    /// The colours come from the description; each icon that the description names is the
    /// last file of that name, and its lack is an error.
    pub fn build(manifest: PartialThemeManifest, files: &Vec<ArchiveFile>) -> (r: Result<
        PartialTheme,
        ThemeError,
    >)
        ensures
            match manifest.icons.background_task_running {
                Some(name) => match last_named(files@, name@, files@.len()) {
                    Some(bytes) => r matches Ok(theme) && theme.name == manifest.name
                        && theme.colors == manifest.colors && (
                    theme.icons.background_task_running matches Some(icon) && icon@ == bytes),
                    None => r == Err::<PartialTheme, ThemeError>(ThemeError::MissingIcon(name)),
                },
                None => r matches Ok(theme) && theme.name == manifest.name && theme.colors
                    == manifest.colors && theme.icons.background_task_running is None,
            },
    {
        let icon = match manifest.icons.background_task_running {
            Some(name) => match find_icon(files, name.as_str()) {
                Some(bytes) => Some(bytes),
                None => {
                    return Err(ThemeError::MissingIcon(name));
                },
            },
            None => None,
        };
        Ok(
            PartialTheme {
                name: manifest.name,
                colors: manifest.colors,
                icons: PartialThemeIcons { background_task_running: icon },
            },
        )
    }
}

/// A file whose name no other file of the archive has is found under that name wherever
/// it stands among the files: the order of the files does not matter.
pub proof fn lemma_file_is_found_wherever_it_stands(
    files: Seq<ArchiveFile>,
    name: Seq<char>,
    i: int,
    k: nat,
)
    requires
        0 <= i < files.len(),
        k <= files.len(),
        files[i].name@ == name,
        forall|j: int| 0 <= j < files.len() && j != i ==> (#[trigger] files[j]).name@ != name,
    ensures
        last_named(files, name, k) == if i < k {
            Some(files[i].contents@)
        } else {
            None
        },
    decreases k,
{
    if k > 0 {
        lemma_file_is_found_wherever_it_stands(files, name, i, (k - 1) as nat);
    }
}

} // verus!
