//! The login item: the launch agent's property list and where it lives.

use vstd::prelude::*;
use vstd::string::*;
use crate::paths::{join, joined};
use crate::text::{ends_with, find, is_suffix, occurs_in, occurs_at};

verus! {

pub open spec fn plist_head() -> Seq<char> {
    "<?xml version=\"1.0\" encoding=\"UTF-8\"?>\n<!DOCTYPE plist PUBLIC \"-//Apple//DTD PLIST 1.0//EN\" \"http://www.apple.com/DTDs/PropertyList-1.0.dtd\">\n<plist version=\"1.0\">\n<dict>\n    <key>Label</key>\n    <string>com.oushima.rsync</string>\n"@
}

pub open spec fn plist_tail() -> Seq<char> {
    "\n    <key>RunAtLoad</key>\n    <true/>\n    <key>KeepAlive</key>\n    <false/>\n    <key>LaunchOnlyOnce</key>\n    <true/>\n</dict>\n</plist>\n"@
}

/// The program arguments: an application bundle is started through
/// `/usr/bin/open -a`, anything else directly.
pub open spec fn program_arguments(app_path: Seq<char>) -> Seq<char> {
    if is_suffix(".app"@, app_path) {
        "    <key>ProgramArguments</key>\n    <array>\n        <string>/usr/bin/open</string>\n        <string>-a</string>\n        <string>"@
            + app_path + "</string>\n    </array>"@
    } else {
        "    <key>ProgramArguments</key>\n    <array>\n        <string>"@ + app_path + "</string>\n    </array>"@
    }
}

pub open spec fn plist_of(app_path: Seq<char>) -> Seq<char> {
    plist_head() + program_arguments(app_path) + plist_tail()
}

/// The launch agent that starts the application at login.
pub fn generate_plist_content(app_path: &str) -> (r: String)
    ensures
        r@ == plist_of(app_path@),
{
    let mut out = String::from_str("<?xml version=\"1.0\" encoding=\"UTF-8\"?>\n<!DOCTYPE plist PUBLIC \"-//Apple//DTD PLIST 1.0//EN\" \"http://www.apple.com/DTDs/PropertyList-1.0.dtd\">\n<plist version=\"1.0\">\n<dict>\n    <key>Label</key>\n    <string>com.oushima.rsync</string>\n");
    if ends_with(app_path, ".app") {
        out.append("    <key>ProgramArguments</key>\n    <array>\n        <string>/usr/bin/open</string>\n        <string>-a</string>\n        <string>");
    } else {
        out.append("    <key>ProgramArguments</key>\n    <array>\n        <string>");
    }
    out.append(app_path);
    out.append("</string>\n    </array>");
    out.append("\n    <key>RunAtLoad</key>\n    <true/>\n    <key>KeepAlive</key>\n    <false/>\n    <key>LaunchOnlyOnce</key>\n    <true/>\n</dict>\n</plist>\n");
    proof {
        assert(out@ =~= plist_of(app_path@));
    }
    out
}

/// The bundle an executable belongs to: the path up to and including the
/// first `.app` that is followed by `/`, else the executable path itself.
pub open spec fn bundle_of(exe: Seq<char>) -> Seq<char> {
    if occurs_in(".app/"@, exe) {
        let i = choose|i: int| occurs_at(".app/"@, exe, i) && forall|j: int| 0 <= j < i ==> !occurs_at(".app/"@, exe, j);
        exe.subrange(0, i + 4)
    } else {
        exe
    }
}

pub fn app_bundle_path(exe: &str) -> (r: String)
    ensures
        r@ == bundle_of(exe@),
{
    proof {
        reveal_strlit(".app/");
    }
    let _n = exe.unicode_len();
    match find(exe, ".app/") {
        Some(i) => {
            proof {
                let k = choose|k: int| occurs_at(".app/"@, exe@, k) && forall|j: int| 0 <= j < k ==> !occurs_at(".app/"@, exe@, j);
                if k < i {
                } else if k > i {
                    assert(!occurs_at(".app/"@, exe@, i as int));
                }
                assert(k == i);
            }
            let end = i + 4;
            String::from_str(exe.substring_char(0, end))
        },
        None => String::from_str(exe),
    }
}

/// Relies on `dirs::home_dir`: the user's home directory, if one is known.
#[verifier::external_body]
fn home_dir() -> (r: Option<String>) {
    dirs::home_dir().map(|p| p.to_string_lossy().into_owned())
}

/// `home/Library/LaunchAgents`.
pub open spec fn agents_dir_of(home: Seq<char>) -> Seq<char> {
    joined(joined(home, "Library"@), "LaunchAgents"@)
}

/// `home/Library/LaunchAgents/com.oushima.rsync.plist`.
pub open spec fn plist_path_of(home: Seq<char>) -> Seq<char> {
    joined(agents_dir_of(home), "com.oushima.rsync.plist"@)
}

/// The directory of launch agents under the home directory `home`.
pub fn launch_agents_dir_in(home: Option<&str>) -> (r: Option<String>)
    ensures
        r.is_some() == home.is_some(),
        r.is_some() ==> r.unwrap()@ == agents_dir_of(home.unwrap()@),
{
    match home {
        Some(h) => {
            let library = join(h, "Library");
            Some(join(library.as_str(), "LaunchAgents"))
        },
        None => None,
    }
}

/// Where the launch agent's file lives under the home directory `home`.
pub fn plist_path_in(home: Option<&str>) -> (r: Option<String>)
    ensures
        r.is_some() == home.is_some(),
        r.is_some() ==> r.unwrap()@ == plist_path_of(home.unwrap()@),
{
    match launch_agents_dir_in(home) {
        Some(dir) => Some(join(dir.as_str(), "com.oushima.rsync.plist")),
        None => None,
    }
}

/// The directory of the user's launch agents, under the home directory.
pub fn get_launch_agents_dir() -> (r: Option<String>)
    ensures
        r.is_some() ==> exists|home: Seq<char>| r.unwrap()@ == agents_dir_of(home),
{
    let home = home_dir();
    let r = match &home {
        Some(h) => launch_agents_dir_in(Some(h.as_str())),
        None => None,
    };
    r
}

/// Where the launch agent's file lives.
pub fn get_plist_path() -> (r: Option<String>)
    ensures
        r.is_some() ==> exists|home: Seq<char>| r.unwrap()@ == plist_path_of(home),
{
    let home = home_dir();
    let r = match &home {
        Some(h) => plist_path_in(Some(h.as_str())),
        None => None,
    };
    r
}

/// Relies on `std::path::Path::exists`: whether the filesystem holds the path now.
#[verifier::external_body]
fn path_exists(p: &str) -> (r: bool) {
    std::path::Path::new(p).exists()
}

/// Whether the launch agent is installed for the home directory `home`:
/// never without a home directory.
pub fn auto_start_enabled_in(home: Option<&str>) -> (r: bool)
    ensures
        home.is_none() ==> !r,
{
    match plist_path_in(home) {
        Some(p) => path_exists(p.as_str()),
        None => false,
    }
}

/// Whether the launch agent is installed for the current user.
pub fn is_auto_start_enabled() -> (r: bool) {
    let home = home_dir();
    match &home {
        Some(h) => auto_start_enabled_in(Some(h.as_str())),
        None => auto_start_enabled_in(None),
    }
}

} // verus!
