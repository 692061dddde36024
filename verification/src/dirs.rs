//! The directories in which settings, data and sockets are kept.
//!
//! A path is given by its parts, which the caller joins with the
//! separator of its system.

use vstd::prelude::*;

use crate::plan::pair;
use crate::text::starts_with;

verus! {

/// Whether a path starts at the root of the file system.
pub open spec fn is_absolute(path: Seq<char>) -> bool {
    "/"@.is_prefix_of(path)
}

/// The directory that the XDG base directory rules give: the directory
/// that the environment names, where it names one by an absolute path,
/// and else `fallback` below the home directory.
pub open spec fn xdg_dir(
    named: Option<Seq<char>>,
    home: Option<Seq<char>>,
    fallback: Seq<char>,
) -> Option<Seq<Seq<char>>> {
    match named {
        Some(path) if is_absolute(path) => Some(seq![path]),
        _ => match home {
            Some(home) => Some(seq![home, fallback]),
            None => None,
        },
    }
}

/// The model of an optional path.
pub open spec fn path_view(path: Option<Vec<String>>) -> Option<Seq<Seq<char>>> {
    match path {
        Some(parts) => Some(parts.deep_view()),
        None => None,
    }
}

/// The model of an optional borrowed text.
pub open spec fn str_view(text: Option<&str>) -> Option<Seq<char>> {
    match text {
        Some(text) => Some(text@),
        None => None,
    }
}

fn xdg(named: Option<&str>, home: Option<&str>, fallback: &str) -> (dir: Option<Vec<String>>)
    ensures
        path_view(dir) == xdg_dir(str_view(named), str_view(home), fallback@),
{
    match named {
        Some(path) => {
            if starts_with(path, "/") {
                let mut parts: Vec<String> = Vec::new();
                parts.push(String::from_str(path));
                proof {
                    assert(parts.deep_view() =~= seq![path@]);
                }
                return Some(parts);
            }
        },
        None => {},
    }
    match home {
        Some(home) => Some(pair(home, fallback)),
        None => None,
    }
}

/// The directory for configuration files: the value of `XDG_CONFIG_HOME`
/// where that is an absolute path, else `.config` below the home
/// directory; none where neither is known.
pub fn config(xdg_config_home: Option<&str>, home: Option<&str>) -> (dir: Option<Vec<String>>)
    ensures
        path_view(dir) == xdg_dir(str_view(xdg_config_home), str_view(home), ".config"@),
{
    xdg(xdg_config_home, home, ".config")
}

/// The directory for data files: the value of `XDG_DATA_HOME` where that
/// is an absolute path, else `.local/share` below the home directory; none
/// where neither is known.
pub fn data(xdg_data_home: Option<&str>, home: Option<&str>) -> (dir: Option<Vec<String>>)
    ensures
        path_view(dir) == xdg_dir(str_view(xdg_data_home), str_view(home), ".local/share"@),
{
    xdg(xdg_data_home, home, ".local/share")
}

/// The directory for sockets.
pub fn temp() -> (dir: &'static str)
    ensures
        dir@ == "/tmp"@,
{
    "/tmp"
}

} // verus!
