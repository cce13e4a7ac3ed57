//! Enumerations of the theme preference and of the XDG user directories.

use vstd::prelude::*;
use crate::util::listing::{join_path, joined_path};
use crate::globals::{FALLBACK_XDG_PICTURES_DIR, FALLBACK_XDG_VIDEOS_DIR};

verus! {

/// Representation of the preferred theme options offered
/// in the application main popover menu widget.
#[derive(Debug, Clone, Copy, PartialEq, Eq, Structural)]
pub enum PreferredAdwaitaTheme {
    System,
    Light,
    Dark,
}

/// The number stored in the `adwaita-theme` settings key for a theme.
pub open spec fn theme_value(theme: PreferredAdwaitaTheme) -> i32 {
    match theme {
        PreferredAdwaitaTheme::System => 0,
        PreferredAdwaitaTheme::Light => 1,
        PreferredAdwaitaTheme::Dark => 2,
    }
}

/// The theme whose settings key value is `value`, if any.
pub open spec fn theme_of_value(value: i32) -> Option<PreferredAdwaitaTheme> {
    if value == 0 {
        Some(PreferredAdwaitaTheme::System)
    } else if value == 1 {
        Some(PreferredAdwaitaTheme::Light)
    } else if value == 2 {
        Some(PreferredAdwaitaTheme::Dark)
    } else {
        None
    }
}

impl PreferredAdwaitaTheme {
    /// Translates a variant to the `i32` kept in the `adwaita-theme`
    /// settings key; the value is in the range of that key.
    pub fn value(&self) -> (v: i32)
        ensures
            v == theme_value(*self),
            0 <= v <= 2,
    {
        match *self {
            PreferredAdwaitaTheme::System => 0,
            PreferredAdwaitaTheme::Light => 1,
            PreferredAdwaitaTheme::Dark => 2,
        }
    }

    /// The theme kept as `value` in the `adwaita-theme` settings key, or
    /// `None` when the value is out of the key's range.
    pub open spec fn spec_from_value(value: i32) -> Option<PreferredAdwaitaTheme> {
        theme_of_value(value)
    }

    /// The theme kept as `value` in the `adwaita-theme` settings key, or
    /// `None` when the value is out of the key's range.
    pub fn from_value(value: i32) -> (r: Option<PreferredAdwaitaTheme>)
        ensures
            r == theme_of_value(value),
    {
        match value {
            0 => Some(PreferredAdwaitaTheme::System),
            1 => Some(PreferredAdwaitaTheme::Light),
            2 => Some(PreferredAdwaitaTheme::Dark),
            _ => None,
        }
    }
}

/// Reading a theme back from the value it is kept as gives the same
/// theme, and every value in the key's range is the value of its theme.
pub proof fn law_theme_value_round_trip(theme: PreferredAdwaitaTheme, value: i32)
    ensures
        theme_of_value(theme_value(theme)) == Some(theme),
        theme_of_value(value) matches Some(t) ==> theme_value(t) == value,
        theme_of_value(value) is Some <==> 0 <= value <= 2,
{
}

/// `s` without one trailing `\n`, and then without one trailing `\r`
/// before it, when it ends with a `\n`.
pub open spec fn trimmed_newline(s: Seq<char>) -> Seq<char> {
    if s.len() > 0 && s.last() == '\n' {
        let t = s.drop_last();
        if t.len() > 0 && t.last() == '\r' {
            t.drop_last()
        } else {
            t
        }
    } else {
        s
    }
}

/// Removes a trailing `\n`, or `\r\n`, from `string`.
pub fn trim_newline(string: &mut String)
    ensures
        final(string)@ == trimmed_newline(old(string)@),
{
    let len: usize = string.unicode_len();
    if len > 0 && string.get_char(len - 1) == '\n' {
        let t = String::from_str(string.as_str().substring_char(0, len - 1));
        proof {
            assert(t@ =~= old(string)@.drop_last());
        }
        *string = t;
        let len2: usize = string.unicode_len();
        if len2 > 0 && string.get_char(len2 - 1) == '\r' {
            let t2 = String::from_str(string.as_str().substring_char(0, len2 - 1));
            proof {
                assert(t2@ =~= old(string)@.drop_last().drop_last());
            }
            *string = t2;
        }
    }
}

/// Represents all XDG user directories
/// per the freedesktop specification.
#[derive(Debug, Clone, Copy, PartialEq, Eq, Structural)]
pub enum XDGUserDir {
    Desktop,
    Download,
    Templates,
    Public,
    Documents,
    Music,
    Pictures,
    Videos,
}

/// The environment variable that holds the directory, as configured in
/// `$XDG_CONFIG_HOME/user-dirs.dirs`.
pub open spec fn xdg_variable_name(dir: XDGUserDir) -> Seq<char> {
    match dir {
        XDGUserDir::Desktop => "XDG_DESKTOP_DIR"@,
        XDGUserDir::Download => "XDG_DOWNLOAD_DIR"@,
        XDGUserDir::Templates => "XDG_TEMPLATES_DIR"@,
        XDGUserDir::Public => "XDG_PUBLICSHARE_DIR"@,
        XDGUserDir::Documents => "XDG_DOCUMENTS_DIR"@,
        XDGUserDir::Music => "XDG_MUSIC_DIR"@,
        XDGUserDir::Pictures => "XDG_PICTURES_DIR"@,
        XDGUserDir::Videos => "XDG_VIDEOS_DIR"@,
    }
}

/// The name of the directory for the `xdg-user-dir` utility.
pub open spec fn xdg_utility_name(dir: XDGUserDir) -> Seq<char> {
    match dir {
        XDGUserDir::Desktop => "DESKTOP"@,
        XDGUserDir::Download => "DOWNLOAD"@,
        XDGUserDir::Templates => "TEMPLATES"@,
        XDGUserDir::Public => "PUBLICSHARE"@,
        XDGUserDir::Documents => "DOCUMENTS"@,
        XDGUserDir::Music => "MUSIC"@,
        XDGUserDir::Pictures => "PICTURES"@,
        XDGUserDir::Videos => "VIDEOS"@,
    }
}

/// Each XDG user directory goes by its name in the freedesktop user-dirs
/// specification: DESKTOP, DOWNLOAD, TEMPLATES, PUBLICSHARE, DOCUMENTS,
/// MUSIC, PICTURES and VIDEOS for the `xdg-user-dir` utility, and
/// `XDG_<NAME>_DIR` for its variable in `user-dirs.dirs`.
pub proof fn law_xdg_user_dir_names(dir: XDGUserDir)
    ensures
        xdg_utility_name(dir) == (match dir {
            XDGUserDir::Desktop => "DESKTOP"@,
            XDGUserDir::Download => "DOWNLOAD"@,
            XDGUserDir::Templates => "TEMPLATES"@,
            XDGUserDir::Public => "PUBLICSHARE"@,
            XDGUserDir::Documents => "DOCUMENTS"@,
            XDGUserDir::Music => "MUSIC"@,
            XDGUserDir::Pictures => "PICTURES"@,
            XDGUserDir::Videos => "VIDEOS"@,
        }),
        xdg_variable_name(dir) == "XDG_"@ + xdg_utility_name(dir) + "_DIR"@,
{
    reveal_strlit("XDG_");
    reveal_strlit("_DIR");
    match dir {
        XDGUserDir::Desktop => {
            reveal_strlit("DESKTOP");
            reveal_strlit("XDG_DESKTOP_DIR");
            assert("XDG_DESKTOP_DIR"@ =~= "XDG_"@ + "DESKTOP"@ + "_DIR"@);
        },
        XDGUserDir::Download => {
            reveal_strlit("DOWNLOAD");
            reveal_strlit("XDG_DOWNLOAD_DIR");
            assert("XDG_DOWNLOAD_DIR"@ =~= "XDG_"@ + "DOWNLOAD"@ + "_DIR"@);
        },
        XDGUserDir::Templates => {
            reveal_strlit("TEMPLATES");
            reveal_strlit("XDG_TEMPLATES_DIR");
            assert("XDG_TEMPLATES_DIR"@ =~= "XDG_"@ + "TEMPLATES"@ + "_DIR"@);
        },
        XDGUserDir::Public => {
            reveal_strlit("PUBLICSHARE");
            reveal_strlit("XDG_PUBLICSHARE_DIR");
            assert("XDG_PUBLICSHARE_DIR"@ =~= "XDG_"@ + "PUBLICSHARE"@ + "_DIR"@);
        },
        XDGUserDir::Documents => {
            reveal_strlit("DOCUMENTS");
            reveal_strlit("XDG_DOCUMENTS_DIR");
            assert("XDG_DOCUMENTS_DIR"@ =~= "XDG_"@ + "DOCUMENTS"@ + "_DIR"@);
        },
        XDGUserDir::Music => {
            reveal_strlit("MUSIC");
            reveal_strlit("XDG_MUSIC_DIR");
            assert("XDG_MUSIC_DIR"@ =~= "XDG_"@ + "MUSIC"@ + "_DIR"@);
        },
        XDGUserDir::Pictures => {
            reveal_strlit("PICTURES");
            reveal_strlit("XDG_PICTURES_DIR");
            assert("XDG_PICTURES_DIR"@ =~= "XDG_"@ + "PICTURES"@ + "_DIR"@);
        },
        XDGUserDir::Videos => {
            reveal_strlit("VIDEOS");
            reveal_strlit("XDG_VIDEOS_DIR");
            assert("XDG_VIDEOS_DIR"@ =~= "XDG_"@ + "VIDEOS"@ + "_DIR"@);
        },
    }
}

/// The path of the directory: the environment variable's value when it is
/// set; otherwise what the `xdg-user-dir` utility printed, without its
/// trailing newline, unless that is `$HOME` itself, in which case the
/// fallback folder under `$HOME`.
pub open spec fn xdg_user_dir_path(
    dir: XDGUserDir,
    env_value: Option<Seq<char>>,
    home: Seq<char>,
    utility_output: Seq<char>,
) -> Seq<char> {
    match env_value {
        Some(v) => v,
        None => {
            let out = trimmed_newline(utility_output);
            if out == home {
                if dir == XDGUserDir::Pictures {
                    joined_path(home, FALLBACK_XDG_PICTURES_DIR@)
                } else {
                    joined_path(home, FALLBACK_XDG_VIDEOS_DIR@)
                }
            } else {
                out
            }
        }
    }
}

impl XDGUserDir {
    /// The variable name of the directory as configured in
    /// `$XDG_CONFIG_HOME/user-dirs.dirs`, and its name for the
    /// `xdg-user-dir` utility.
    pub fn value(&self) -> (r: (&'static str, &'static str))
        ensures
            r.0@ == xdg_variable_name(*self),
            r.1@ == xdg_utility_name(*self),
    {
        match *self {
            XDGUserDir::Desktop => ("XDG_DESKTOP_DIR", "DESKTOP"),
            XDGUserDir::Download => ("XDG_DOWNLOAD_DIR", "DOWNLOAD"),
            XDGUserDir::Templates => ("XDG_TEMPLATES_DIR", "TEMPLATES"),
            XDGUserDir::Public => ("XDG_PUBLICSHARE_DIR", "PUBLICSHARE"),
            XDGUserDir::Documents => ("XDG_DOCUMENTS_DIR", "DOCUMENTS"),
            XDGUserDir::Music => ("XDG_MUSIC_DIR", "MUSIC"),
            XDGUserDir::Pictures => ("XDG_PICTURES_DIR", "PICTURES"),
            XDGUserDir::Videos => ("XDG_VIDEOS_DIR", "VIDEOS"),
        }
    }

    /// The absolute path of the directory, from the value of its
    /// environment variable (`env_value`, when set) or else from what the
    /// `xdg-user-dir` utility printed for it (`utility_output`). When the
    /// utility names `$HOME` itself, the pictures and videos directories
    /// fall back to their folder under `$HOME`.
    pub fn get_path(&self, env_value: Option<String>, home: &str, utility_output: Option<String>) -> (r: String)
        requires
            env_value is None ==> utility_output is Some,
            env_value is None && trimmed_newline(utility_output->0@) == home@
                ==> (*self == XDGUserDir::Pictures || *self == XDGUserDir::Videos),
        ensures
            r@ == xdg_user_dir_path(
                *self,
                match env_value { Some(v) => Some(v@), None => None },
                home@,
                match utility_output { Some(o) => o@, None => Seq::empty() },
            ),
    {
        match env_value {
            Some(dir) => dir,
            None => {
                let mut xdg_user_dir: String = match utility_output {
                    Some(o) => o,
                    None => String::new(),
                };
                trim_newline(&mut xdg_user_dir);
                let home_string = String::from_str(home);
                if xdg_user_dir == home_string {
                    match *self {
                        XDGUserDir::Pictures => join_path(home, FALLBACK_XDG_PICTURES_DIR),
                        _ => join_path(home, FALLBACK_XDG_VIDEOS_DIR),
                    }
                } else {
                    xdg_user_dir
                }
            },
        }
    }
}

} // verus!
