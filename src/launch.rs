//! How each supervised service is launched: its arguments, the environment
//! injected into it, the settings read from the environment, and the
//! ordered candidates for the application server's script and runtime.

use vstd::prelude::*;
use crate::daemon::{host_address, host_address_spec};
use crate::resolver::views;
use crate::text::{decimal_seq, decimal_string, eq_ascii_folded, eq_ignore_ascii_case, parse_u16, parse_u16_spec};

verus! {

/// The daemon port used when none is configured.
pub const DEFAULT_DAEMON_PORT: u16 = 11434;

/// The application server port used when none is configured.
pub const DEFAULT_APP_PORT: u16 = 4317;

/// A configured port: the setting where it reads as a port number, else
/// the default.
pub fn port_setting(raw: Option<&str>, default: u16) -> (r: u16)
    ensures
        r == match raw {
            Some(s) => match parse_u16_spec(s@) {
                Some(p) => p,
                None => default,
            },
            None => default,
        },
{
    match raw {
        Some(s) => match parse_u16(s) {
            Some(p) => p,
            None => default,
        },
        None => default,
    }
}

/// A boolean setting is on when it reads `1` or `true` in any case.
pub open spec fn flag_on(v: Seq<char>) -> bool {
    v == "1"@ || eq_ascii_folded(v, "true"@)
}

/// Whether a boolean setting is on; an absent one is off.
pub fn flag_setting(raw: Option<&str>) -> (r: bool)
    ensures
        r == match raw {
            Some(s) => flag_on(s@),
            None => false,
        },
{
    match raw {
        Some(s) => {
            let one = String::from_str("1");
            let s_owned = String::from_str(s);
            s_owned == one || eq_ignore_ascii_case(s, "true")
        },
        None => false,
    }
}

/// The unauthenticated local mode is allowed only in a development build
/// or where the setting is exactly `1`.
pub fn allow_unauthenticated(raw: Option<&str>, development_build: bool) -> (r: bool)
    ensures
        r == (development_build || (raw matches Some(s) && s@ == "1"@)),
{
    match raw {
        Some(s) => {
            let one = String::from_str("1");
            let s_owned = String::from_str(s);
            s_owned == one || development_build
        },
        None => development_build,
    }
}

/// `--model <model> --port <port> --no-webui`: the inference server's
/// arguments.
pub fn server_args(model: &str, port: u16) -> (r: Vec<String>)
    ensures
        r@.len() == 5,
        r@[0]@ == "--model"@,
        r@[1]@ == model@,
        r@[2]@ == "--port"@,
        r@[3]@ == decimal_seq(port as nat),
        r@[4]@ == "--no-webui"@,
{
    let mut v: Vec<String> = Vec::new();
    v.push(String::from_str("--model"));
    v.push(String::from_str(model));
    v.push(String::from_str("--port"));
    v.push(decimal_string(port as u64));
    v.push(String::from_str("--no-webui"));
    v
}

/// The origins the daemon accepts, comma-separated.
pub open spec fn allowed_origins() -> Seq<char> {
    "app://*,file://*,tauri://*,http://localhost,https://localhost,http://127.0.0.1,https://127.0.0.1"@
}

/// The environment of a daemon invocation: its host and port and its
/// private model store, plus the accepted origins when it serves.
pub fn daemon_env(port: u16, model_store: &str, serving: bool) -> (r: Vec<(String, String)>)
    ensures
        r@.len() == if serving {
            3int
        } else {
            2int
        },
        r@[0].0@ == "OLLAMA_HOST"@ && r@[0].1@ == host_address_spec(port),
        r@[1].0@ == "OLLAMA_MODELS"@ && r@[1].1@ == model_store@,
        serving ==> r@[2].0@ == "OLLAMA_ORIGINS"@ && r@[2].1@ == allowed_origins(),
{
    let mut v: Vec<(String, String)> = Vec::new();
    v.push((String::from_str("OLLAMA_HOST"), host_address(port)));
    v.push((String::from_str("OLLAMA_MODELS"), String::from_str(model_store)));
    if serving {
        v.push(
            (
                String::from_str("OLLAMA_ORIGINS"),
                String::from_str(
                    "app://*,file://*,tauri://*,http://localhost,https://localhost,http://127.0.0.1,https://127.0.0.1",
                ),
            ),
        );
    }
    v
}

/// The application server's environment: its port and host, the
/// unauthenticated mode where allowed, then the entries of its environment
/// file in order.
pub fn app_server_env(port: u16, allow_unauth: bool, file_entries: &Vec<(String, String)>) -> (r:
    Vec<(String, String)>)
    ensures
        ({
            let head: int = if allow_unauth {
                3
            } else {
                2
            };
            &&& r@.len() == head + file_entries@.len()
            &&& r@[0].0@ == "PORT"@ && r@[0].1@ == decimal_seq(port as nat)
            &&& r@[1].0@ == "HOST"@ && r@[1].1@ == "127.0.0.1"@
            &&& allow_unauth ==> r@[2].0@ == "ALLOW_DEV_UNAUTH"@ && r@[2].1@ == "1"@
            &&& forall|i: int|
                0 <= i < file_entries@.len() ==> r@[head + i].0@ == file_entries@[i].0@ && r@[head
                    + i].1@ == file_entries@[i].1@
        }),
{
    let mut v: Vec<(String, String)> = Vec::new();
    v.push((String::from_str("PORT"), decimal_string(port as u64)));
    v.push((String::from_str("HOST"), String::from_str("127.0.0.1")));
    if allow_unauth {
        v.push((String::from_str("ALLOW_DEV_UNAUTH"), String::from_str("1")));
    }
    let head = v.len();
    let mut i: usize = 0;
    while i < file_entries.len()
        invariant
            head == if allow_unauth {
                3int
            } else {
                2int
            },
            v@.len() == head + i,
            i <= file_entries@.len(),
            v@[0].0@ == "PORT"@ && v@[0].1@ == decimal_seq(port as nat),
            v@[1].0@ == "HOST"@ && v@[1].1@ == "127.0.0.1"@,
            allow_unauth ==> v@[2].0@ == "ALLOW_DEV_UNAUTH"@ && v@[2].1@ == "1"@,
            forall|k: int|
                0 <= k < i ==> v@[head + k].0@ == file_entries@[k].0@ && v@[head + k].1@
                    == file_entries@[k].1@,
        decreases file_entries@.len() - i,
    {
        let k = String::from_str(file_entries[i].0.as_str());
        let val = String::from_str(file_entries[i].1.as_str());
        v.push((k, val));
        i = i + 1;
    }
    v
}

/// Appends `a/b` to `out`.
fn push_joined(out: &mut Vec<String>, a: &str, b: &str)
    ensures
        final(out)@.len() == old(out)@.len() + 1,
        forall|i: int| 0 <= i < old(out)@.len() ==> final(out)@[i] == old(out)@[i],
        final(out)@[old(out)@.len() as int]@ == a@ + seq!['/'] + b@,
{
    let mut s = String::from_str(a);
    crate::text::push_char(&mut s, '/');
    s.append(b);
    out.push(s);
}

/// Where the application server's script may be, in priority order: beside
/// the executable in the layouts bundles use, then in the resource
/// directory.
pub open spec fn script_candidates_spec(exe_dir: Seq<char>, resource_dir: Seq<char>) -> Seq<
    Seq<char>,
> {
    seq![
        exe_dir + seq!['/'] + "../../.next/standalone/server.js"@,
        exe_dir + seq!['/'] + "../Resources/.next/standalone/server.js"@,
        exe_dir + seq!['/'] + "../Resources/_up_/.next/standalone/server.js"@,
        resource_dir + seq!['/'] + ".next/standalone/server.js"@,
        resource_dir + seq!['/'] + "_up_/.next/standalone/server.js"@,
    ]
}

/// The candidate locations of the application server's script.
pub fn script_candidates(exe_dir: &str, resource_dir: &str) -> (r: Vec<String>)
    ensures
        views(r@) == script_candidates_spec(exe_dir@, resource_dir@),
{
    let mut v: Vec<String> = Vec::new();
    push_joined(&mut v, exe_dir, "../../.next/standalone/server.js");
    push_joined(&mut v, exe_dir, "../Resources/.next/standalone/server.js");
    push_joined(&mut v, exe_dir, "../Resources/_up_/.next/standalone/server.js");
    push_joined(&mut v, resource_dir, ".next/standalone/server.js");
    push_joined(&mut v, resource_dir, "_up_/.next/standalone/server.js");
    proof {
        assert(views(v@) =~= script_candidates_spec(exe_dir@, resource_dir@));
    }
    v
}

/// Where a bundled JavaScript runtime may be, in priority order: the
/// sidecars among the resources, then the copies beside the executable.
pub open spec fn runtime_candidates_spec(resource_dir: Seq<char>, exe_dir: Seq<char>) -> Seq<
    Seq<char>,
> {
    seq![
        resource_dir + seq!['/'] + "sidecar/node"@,
        resource_dir + seq!['/'] + "sidecar/node-x86_64-apple-darwin"@,
        resource_dir + seq!['/'] + "sidecar/node-aarch64-apple-darwin"@,
        resource_dir + seq!['/'] + "sidecar/node.exe"@,
        exe_dir + seq!['/'] + "node"@,
        exe_dir + seq!['/'] + "node-x86_64-apple-darwin"@,
        exe_dir + seq!['/'] + "node-aarch64-apple-darwin"@,
    ]
}

/// The candidate locations of a bundled JavaScript runtime.
pub fn runtime_candidates(resource_dir: &str, exe_dir: &str) -> (r: Vec<String>)
    ensures
        views(r@) == runtime_candidates_spec(resource_dir@, exe_dir@),
{
    let mut v: Vec<String> = Vec::new();
    push_joined(&mut v, resource_dir, "sidecar/node");
    push_joined(&mut v, resource_dir, "sidecar/node-x86_64-apple-darwin");
    push_joined(&mut v, resource_dir, "sidecar/node-aarch64-apple-darwin");
    push_joined(&mut v, resource_dir, "sidecar/node.exe");
    push_joined(&mut v, exe_dir, "node");
    push_joined(&mut v, exe_dir, "node-x86_64-apple-darwin");
    push_joined(&mut v, exe_dir, "node-aarch64-apple-darwin");
    proof {
        assert(views(v@) =~= runtime_candidates_spec(resource_dir@, exe_dir@));
    }
    v
}

/// The runtimes to try in turn: the bundled one found, if any, then the
/// `node` found through the search path.
pub fn runtime_launch_order(bundled: Option<String>) -> (r: Vec<String>)
    ensures
        bundled is None ==> views(r@) == seq!["node"@],
        bundled matches Some(b) ==> views(r@) == seq![b@, "node"@],
{
    let ghost given = bundled;
    let mut v: Vec<String> = Vec::new();
    match bundled {
        Some(b) => {
            v.push(b);
        },
        None => {},
    }
    v.push(String::from_str("node"));
    proof {
        match given {
            Some(b) => {
                assert(views(v@) =~= seq![b@, "node"@]);
            },
            None => {
                assert(views(v@) =~= seq!["node"@]);
            },
        }
    }
    v
}

/// How the application server is brought up.
#[derive(Clone, Copy, Debug, PartialEq, Eq, Structural)]
pub enum AppServerStart {
    /// No script was found: nothing can run locally.
    NoScript,
    /// Something already listens on the port: treat it as the server.
    AlreadyListening,
    /// Launch the script with the runtimes in order.
    Launch,
}

/// Decides how the application server is brought up.
pub fn app_server_start(script_found: bool, port_in_use: bool) -> (r: AppServerStart)
    ensures
        !script_found ==> r == AppServerStart::NoScript,
        script_found && port_in_use ==> r == AppServerStart::AlreadyListening,
        script_found && !port_in_use ==> r == AppServerStart::Launch,
{
    if !script_found {
        AppServerStart::NoScript
    } else if port_in_use {
        AppServerStart::AlreadyListening
    } else {
        AppServerStart::Launch
    }
}

} // verus!
