//! The companion configuration file the managed binary reads on its own
//! startup: what a fresh file holds, how a bridge-plugin path becomes the
//! URL the file names, and when an existing file is patched in place
//! instead of rewritten.

use crate::strutil::spec_u64_digits;
use crate::strutil::u16_to_string;
use vstd::prelude::*;
use vstd::string::StrSliceExecFns;
use vstd::string::StringExecFns;

verus! {

/// A path with every backslash replaced by a forward slash.
pub open spec fn spec_forward_slashes(s: Seq<char>) -> Seq<char> {
    Seq::new(
        s.len(),
        |i: int|
            if s[i] == '\\' {
                '/'
            } else {
                s[i]
            },
    )
}

/// The `file://` URL under which the configuration names a plugin path.
pub open spec fn spec_plugin_url(path: Seq<char>) -> Seq<char> {
    "file://"@ + spec_forward_slashes(path)
}

/// Turn a plugin path into the `file://` URL the configuration names.
pub fn plugin_file_url(path: &str) -> (r: String)
    ensures
        r@ == spec_plugin_url(path@),
{
    let n = path.unicode_len();
    let mut r = String::from_str("file://");
    let mut i: usize = 0;
    while i < n
        invariant
            n == path@.len(),
            0 <= i <= n,
            r@ == "file://"@ + spec_forward_slashes(path@.take(i as int)),
        decreases n - i,
    {
        let c = path.get_char(i);
        if c == '\\' {
            r.append("/");
        } else {
            r.append(path.substring_char(i, i + 1));
        }
        proof {
            reveal_strlit("/");
            assert(path@.take(i + 1) =~= path@.take(i as int) + seq![path@[i as int]]);
            assert(spec_forward_slashes(path@.take(i + 1)) =~= spec_forward_slashes(
                path@.take(i as int),
            ) + seq![
                if path@[i as int] == '\\' {
                    '/'
                } else {
                    path@[i as int]
                },
            ]);
            assert(path@.subrange(i as int, i + 1) =~= seq![path@[i as int]]);
        }
        i = i + 1;
    }
    proof {
        assert(path@.take(n as int) =~= path@);
    }
    r
}

/// The content of a freshly written configuration file: a server block with
/// the resolved port and loopback hostname, self-update disabled, sharing
/// disabled, and the bridge plugin where one is installed.
pub open spec fn spec_config_json(port: u16, plugin_url: Option<Seq<char>>) -> Seq<char> {
    "{\"$schema\":\"https://opencode.ai/config.json\",\"server\":{\"port\":"@ + spec_u64_digits(
        port as nat,
    ) + ",\"hostname\":\"127.0.0.1\"},\"autoupdate\":false,\"share\":\"disabled\""@ + match (
    plugin_url) {
        Some(u) => ",\"plugin\":[\""@ + u + "\"]"@,
        None => Seq::<char>::empty(),
    } + "}"@
}

/// Build the content of a fresh configuration file.
pub fn build_opencode_config(port: u16, plugin_url: Option<&str>) -> (r: String)
    ensures
        r@ == spec_config_json(
            port,
            match plugin_url {
                Some(u) => Some(u@),
                None => None,
            },
        ),
{
    let mut r = String::from_str(
        "{\"$schema\":\"https://opencode.ai/config.json\",\"server\":{\"port\":",
    );
    let digits = u16_to_string(port);
    r.append(digits.as_str());
    r.append(",\"hostname\":\"127.0.0.1\"},\"autoupdate\":false,\"share\":\"disabled\"");
    match plugin_url {
        Some(u) => {
            r.append(",\"plugin\":[\"");
            r.append(u);
            r.append("\"]");
        },
        None => {},
    }
    r.append("}");
    proof {
        assert(r@ =~= spec_config_json(
            port,
            match plugin_url {
                Some(u) => Some(u@),
                None => None,
            },
        ));
    }
    r
}

/// How the configuration file is brought up to date before a start: an
/// existing file keeps every field a companion step may have added and has
/// only its port patched; a missing file is written fresh.
#[derive(Debug, Clone, PartialEq, Eq)]
pub enum ConfigWritePlan {
    PatchExisting { port: u16 },
    WriteFresh { content: String },
}

/// Decide how the configuration file is brought up to date.
pub fn plan_config_write(file_exists: bool, port: u16, plugin_url: Option<&str>) -> (r:
    ConfigWritePlan)
    ensures
        file_exists ==> (r matches ConfigWritePlan::PatchExisting { port: p } && p == port),
        !file_exists ==> (r matches ConfigWritePlan::WriteFresh { content } && content@
            == spec_config_json(
            port,
            match plugin_url {
                Some(u) => Some(u@),
                None => None,
            },
        )),
{
    if file_exists {
        ConfigWritePlan::PatchExisting { port }
    } else {
        ConfigWritePlan::WriteFresh { content: build_opencode_config(port, plugin_url) }
    }
}

} // verus!
