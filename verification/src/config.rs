use vstd::prelude::*;
use vstd::string::StringExecFns;

verus! {

/// Relies on `dirs::config_dir`: the user's configuration directory as a
/// path string, or `None` where the platform defines no such directory.
/// The result depends on the machine and environment, so nothing more is
/// promised of it.
#[verifier::external_body]
fn user_config_dir() -> (r: Option<String>) {
    dirs::config_dir().map(|d| d.display().to_string())
}

/// The configuration file's path under a given configuration directory:
/// `zupo/config.toml` under the directory when one exists, and the
/// conventional `~/.config/zupo/config.toml` when none does.
pub fn config_file_path_under(dir: Option<String>) -> (r: String)
    ensures
        dir matches Some(d) ==> r@ == d@ + "/zupo/config.toml"@,
        dir is None ==> r@ == "~/.config/zupo/config.toml"@,
{
    match dir {
        Some(d) => d.concat("/zupo/config.toml"),
        None => String::from_str("~/.config/zupo/config.toml"),
    }
}

/// Where the persisted configuration lives: `config_file_path_under` the
/// user's configuration directory as the platform reports it.
pub fn config_file_path() -> (r: String)
    ensures
        exists|dir: Seq<char>| r@ == dir + "/zupo/config.toml"@,
{
    let dir = user_config_dir();
    let ghost had_dir = dir is Some;
    let r = config_file_path_under(dir);
    proof {
        if !had_dir {
            reveal_strlit("~/.config/zupo/config.toml");
            reveal_strlit("~/.config");
            reveal_strlit("/zupo/config.toml");
            assert(r@ =~= "~/.config"@ + "/zupo/config.toml"@);
        }
    }
    r
}

} // verus!
