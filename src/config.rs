use vstd::prelude::*;
use vstd::string::*;

verus! {

/// `name` under the directory `dir`, with one `/` between them; an empty
/// directory adds nothing.
pub open spec fn joined_path(dir: Seq<char>, name: Seq<char>) -> Seq<char> {
    if dir.len() == 0 || dir.last() == '/' {
        dir + name
    } else {
        dir + seq!['/'] + name
    }
}

/// The path `name` under the directory `dir`.
pub fn join_path(dir: &String, name: &str) -> (r: String)
    ensures
        r@ == joined_path(dir@, name@),
{
    let s = dir.as_str();
    let n = s.unicode_len();
    let mut r = dir.clone();
    if n > 0 && s.get_char(n - 1) != '/' {
        r.append("/");
        proof {
            reveal_strlit("/");
        }
    }
    r.append(name);
    proof {
        if dir@.len() > 0 && dir@.last() != '/' {
            assert(r@ =~= dir@ + seq!['/'] + name@);
        }
    }
    r
}

/// Where data is kept: the directory named by the override when there is
/// one, else the platform's data directory for the program when it is known,
/// else `./.data`.
pub fn get_data_dir(data_override: Option<String>, platform_dir: Option<String>) -> (r: String)
    ensures
        r@ == match (data_override, platform_dir) {
            (Some(d), _) => d@,
            (None, Some(p)) => p@,
            (None, None) => "./.data"@,
        },
{
    match data_override {
        Some(d) => d,
        None => match platform_dir {
            Some(p) => p,
            None => String::from_str("./.data"),
        },
    }
}

/// Where the configuration is kept: the directory named by the override
/// when there is one, else the platform's configuration directory for the
/// program when it is known, else `./.config`.
pub fn get_config_dir(config_override: Option<String>, platform_dir: Option<String>) -> (r: String)
    ensures
        r@ == match (config_override, platform_dir) {
            (Some(d), _) => d@,
            (None, Some(p)) => p@,
            (None, None) => "./.config"@,
        },
{
    match config_override {
        Some(d) => d,
        None => match platform_dir {
            Some(p) => p,
            None => String::from_str("./.config"),
        },
    }
}

/// The configuration file in the working directory, read before the one in
/// the configuration directory.
pub fn local_config_file() -> (r: String)
    ensures
        r@ == ".mongo-tui.config.json"@,
{
    String::from_str(".mongo-tui.config.json")
}

/// The configuration file in the configuration directory.
pub fn os_config_file(config_dir: &String) -> (r: String)
    ensures
        r@ == joined_path(config_dir@, "config.json"@),
{
    join_path(config_dir, "config.json")
}

} // verus!
