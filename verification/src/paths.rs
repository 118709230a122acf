//! Derivation of the file-system layout under the application-data root:
//! where the managed binary, the downloaded archive, the persisted version
//! cache and the isolated configuration directories live.  Paths are joined
//! with `/`, which every supported platform accepts.

use crate::platform::{get_binary_name, spec_binary_name, Os};
use vstd::prelude::*;
use vstd::string::StringExecFns;

verus! {

/// Directory the managed binary is installed under.
pub fn get_bin_dir(app_data_dir: &str) -> (r: String)
    ensures
        r@ == app_data_dir@ + "/bin"@,
{
    let mut r = app_data_dir.to_owned();
    r.append("/bin");
    r
}

/// Full path of the installed binary: the ground truth for "is installed".
pub fn get_opencode_bin_path(app_data_dir: &str, os: Os) -> (r: String)
    ensures
        r@ == app_data_dir@ + "/bin/"@ + spec_binary_name(os),
{
    let mut r = get_bin_dir(app_data_dir);
    r.append("/");
    r.append(get_binary_name(os));
    proof {
        reveal_strlit("/bin");
        reveal_strlit("/");
        reveal_strlit("/bin/");
        assert(r@ =~= app_data_dir@ + "/bin/"@ + spec_binary_name(os));
    }
    r
}

/// Path the downloaded release archive is streamed to; distinct from the
/// install target, so a failed download never leaves a partial file there.
pub fn get_archive_path(app_data_dir: &str) -> (r: String)
    ensures
        r@ == app_data_dir@ + "/bin/opencode.zip"@,
{
    let mut r = get_bin_dir(app_data_dir);
    r.append("/opencode.zip");
    proof {
        reveal_strlit("/bin");
        reveal_strlit("/opencode.zip");
        reveal_strlit("/bin/opencode.zip");
        assert(r@ =~= app_data_dir@ + "/bin/opencode.zip"@);
    }
    r
}

/// Path of the persisted version cache record.
pub fn get_version_cache_path(app_data_dir: &str) -> (r: String)
    ensures
        r@ == app_data_dir@ + "/version_cache.json"@,
{
    let mut r = app_data_dir.to_owned();
    r.append("/version_cache.json");
    r
}

/// Cache directory handed to the spawned process for isolation.
pub fn get_cache_dir(app_data_dir: &str) -> (r: String)
    ensures
        r@ == app_data_dir@ + "/cache"@,
{
    let mut r = app_data_dir.to_owned();
    r.append("/cache");
    r
}

/// Configuration directory the managed binary reads on startup.
pub fn get_opencode_config_dir(app_data_dir: &str) -> (r: String)
    ensures
        r@ == app_data_dir@ + "/opencode"@,
{
    let mut r = app_data_dir.to_owned();
    r.append("/opencode");
    r
}

/// The companion configuration file written or patched before each start.
pub fn get_opencode_config_file(app_data_dir: &str) -> (r: String)
    ensures
        r@ == app_data_dir@ + "/opencode/opencode.json"@,
{
    let mut r = app_data_dir.to_owned();
    r.append("/opencode/opencode.json");
    r
}

/// Which binary the supervisor launches: a non-empty custom path that
/// exists overrides the installed one; otherwise the installed binary, if
/// it exists.  The existence of the file is the ground truth for "is
/// installed", never an in-memory flag.
pub fn choose_binary_path(
    custom_path: Option<&String>,
    custom_exists: bool,
    default_path: &str,
    default_exists: bool,
) -> (r: Option<String>)
    ensures
        match custom_path {
            Some(c) => if c@.len() > 0 && custom_exists {
                r matches Some(p) && p@ == c@
            } else if default_exists {
                r matches Some(p) && p@ == default_path@
            } else {
                r is None
            },
            None => if default_exists {
                r matches Some(p) && p@ == default_path@
            } else {
                r is None
            },
        },
{
    match custom_path {
        Some(c) => {
            if !c.as_str().is_empty() && custom_exists {
                return Some(c.clone());
            }
            if default_exists {
                Some(default_path.to_owned())
            } else {
                None
            }
        },
        None => {
            if default_exists {
                Some(default_path.to_owned())
            } else {
                None
            }
        },
    }
}

/// Where a companion bridge plugin would have been installed; its presence
/// decides whether the written configuration names it.
pub fn get_plugin_dist_path(app_data_dir: &str) -> (r: String)
    ensures
        r@ == app_data_dir@ + "/opencode/plugins/opencode/dist/index.js"@,
{
    let mut r = app_data_dir.to_owned();
    r.append("/opencode/plugins/opencode/dist/index.js");
    r
}

} // verus!
