//! Where the application keeps its data on the host.

use vstd::prelude::*;

verus! {

/// The name of the application's own folder.
pub const APP_NAME: &'static str = "Auto Capture Pair";

/// The family of the operating system the host runs.
#[derive(Clone, Copy, Debug, PartialEq, Eq, Structural)]
pub enum Platform {
    Windows,
    Other,
}

/// The folders that the environment names; each is absent where its
/// variable is not set.
#[derive(Debug, PartialEq, Eq)]
pub struct Environment {
    /// `APPDATA`.
    pub appdata: Option<String>,
    /// `XDG_DATA_HOME`.
    pub xdg_data_home: Option<String>,
    /// `HOME`.
    pub home: Option<String>,
}

/// A folder, as a base and the components that lead down from it.
#[derive(Debug, PartialEq, Eq)]
pub struct Folder {
    pub base: String,
    pub parts: Vec<String>,
}

/// The components of `parts`, as mathematical values.
pub open spec fn part_views(parts: Seq<String>) -> Seq<Seq<char>> {
    parts.map_values(|part: String| part@)
}

/// Where the application's data lies: on Windows under `APPDATA`; elsewhere
/// under `XDG_DATA_HOME`, or under `.local/share` of `HOME` where that is
/// not set. `None` where the environment names no base.
pub open spec fn data_folder(platform: Platform, env: Environment) -> Option<(Seq<char>, Seq<Seq<char>>)> {
    match platform {
        Platform::Windows => match env.appdata {
            Some(base) => Some((base@, seq![APP_NAME@])),
            None => None,
        },
        Platform::Other => match env.xdg_data_home {
            Some(base) => Some((base@, seq![APP_NAME@])),
            None => match env.home {
                Some(base) => Some((base@, seq![".local"@, "share"@, APP_NAME@])),
                None => None,
            },
        },
    }
}

/// What is reported where the environment names no base.
pub open spec fn no_folder_text(platform: Platform) -> Seq<char> {
    match platform {
        Platform::Windows => "APPDATA not set"@,
        Platform::Other => "Could not determine data directory"@,
    }
}

/// Decides where the application's data lies on this host.
pub fn app_data_folder(platform: Platform, env: Environment) -> (out: Result<Folder, String>)
    ensures
        match out {
            Ok(folder) => data_folder(platform, env) == Some((folder.base@, part_views(folder.parts@))),
            Err(text) => data_folder(platform, env) is None && text@ == no_folder_text(platform),
        },
{
    match platform {
        Platform::Windows => match env.appdata {
            Some(base) => {
                let parts = vec![String::from_str(APP_NAME)];
                proof {
                    assert(part_views(parts@) =~= seq![APP_NAME@]);
                }
                Ok(Folder { base, parts })
            },
            None => Err(String::from_str("APPDATA not set")),
        },
        Platform::Other => match env.xdg_data_home {
            Some(base) => {
                let parts = vec![String::from_str(APP_NAME)];
                proof {
                    assert(part_views(parts@) =~= seq![APP_NAME@]);
                }
                Ok(Folder { base, parts })
            },
            None => match env.home {
                Some(base) => {
                    let parts = vec![
                        String::from_str(".local"),
                        String::from_str("share"),
                        String::from_str(APP_NAME),
                    ];
                    proof {
                        assert(part_views(parts@) =~= seq![".local"@, "share"@, APP_NAME@]);
                    }
                    Ok(Folder { base, parts })
                },
                None => Err(String::from_str("Could not determine data directory")),
            },
        },
    }
}

} // verus!
