//! What the adapter decides while a session starts: the handshake with the agent,
//! the capabilities it declares to the editor, and the runtime it starts the agent with.
use vstd::prelude::*;
use vstd::string::{StrSliceExecFns, StringExecFns};
use crate::copilot::{EditorConfiguration, EditorInfo, EditorPluginInfo, SetEditorInfoParams};
use crate::text::{parse_decimal_u32, parse_u32, str_equal, trim, trimmed_of};

verus! {

/// The name under which the adapter presents itself.
pub const PLUGIN_NAME: &'static str = "lapce-copilot";

/// The editor the adapter runs in, and its version.
pub const EDITOR_NAME: &'static str = "Lapce";

pub const EDITOR_VERSION: &'static str = "0.3.1";

/// `p` is the handshake that introduces the editor, and the adapter at
/// `plugin_version`, with completions shown by the editor and offered while
/// typing, in every language.
pub open spec fn is_handshake(p: SetEditorInfoParams, plugin_version: Seq<char>) -> bool {
    &&& p.editor_info.name@ == EDITOR_NAME@
    &&& p.editor_info.version@ == EDITOR_VERSION@
    &&& p.editor_plugin_info.name@ == PLUGIN_NAME@
    &&& p.editor_plugin_info.version@ == plugin_version
    &&& p.editor_configuration matches Some(c) && {
        &&& c.show_editor_completions == Some(true)
        &&& c.enable_auto_completions == Some(true)
        &&& c.delay_completions is None
        &&& c.filter_completions is None
        &&& c.disabled_languages matches Some(l) && l@.len() == 0
    }
    &&& p.network_proxy is None
    &&& p.auth_provider is None
    &&& p.options is None
}

/// The `setEditorInfo` parameters sent once when the session starts.
pub fn editor_info_params(plugin_version: String) -> (r: SetEditorInfoParams)
    ensures
        is_handshake(r, plugin_version@),
{
    SetEditorInfoParams {
        editor_info: EditorInfo {
            name: String::from_str(EDITOR_NAME),
            version: String::from_str(EDITOR_VERSION),
        },
        editor_plugin_info: EditorPluginInfo {
            name: String::from_str(PLUGIN_NAME),
            version: plugin_version,
        },
        editor_configuration: Some(
            EditorConfiguration {
                show_editor_completions: Some(true),
                enable_auto_completions: Some(true),
                delay_completions: None,
                filter_completions: None,
                disabled_languages: Some(Vec::new()),
            },
        ),
        network_proxy: None,
        auth_provider: None,
        options: None,
    }
}

/// Whether the agent's answer to `setEditorInfo` is the plain "OK"; any other
/// answer is worth a warning and nothing more.
pub fn editor_info_acknowledged(answer: &str) -> (r: bool)
    ensures
        r == (answer@ == "OK"@),
{
    str_equal(answer, "OK")
}

/// How the editor is to report document changes.
#[derive(Debug, Clone, Copy, PartialEq, Eq, Structural)]
pub enum TextDocumentSyncKind {
    Nothing,
    Full,
    Incremental,
}

/// What the adapter tells the editor it supports.
#[derive(Debug)]
pub struct AdapterCapabilities {
    pub inline_completion_provider: bool,
    pub change: TextDocumentSyncKind,
    pub open_close: bool,
    pub save: bool,
    pub server_name: String,
    pub server_version: String,
}

/// The answer to the editor's `initialize`: inline completions, and whole
/// documents on open and on change.
pub fn declared_capabilities(plugin_version: String) -> (r: AdapterCapabilities)
    ensures
        r.inline_completion_provider,
        r.change == TextDocumentSyncKind::Full,
        r.open_close,
        r.save,
        r.server_name@ == PLUGIN_NAME@,
        r.server_version@ == plugin_version@,
{
    AdapterCapabilities {
        inline_completion_provider: true,
        change: TextDocumentSyncKind::Full,
        open_close: true,
        save: true,
        server_name: String::from_str(PLUGIN_NAME),
        server_version: plugin_version,
    }
}

/// A program to run, with its arguments.
#[derive(Debug)]
pub struct OpenCommand {
    pub program: String,
    pub args: Vec<String>,
}

pub open spec fn opens_with_xdg(os: Seq<char>) -> bool {
    ||| os == "linux"@
    ||| os == "freebsd"@
    ||| os == "netbsd"@
    ||| os == "openbsd"@
    ||| os == "solaris"@
    ||| os == "android"@
}

/// `c` runs `program` with the arguments `args`.
pub open spec fn runs(c: OpenCommand, program: Seq<char>, args: Seq<Seq<char>>) -> bool {
    &&& c.program@ == program
    &&& c.args@.len() == args.len()
    &&& forall|i: int| 0 <= i < args.len() ==> #[trigger] c.args@[i]@ == args[i]
}

/// The command that opens `url` in the default browser on the operating system
/// `os`, or `None` where no such command is known.
pub fn open_command(os: &str, url: &str) -> (r: Option<OpenCommand>)
    ensures
        opens_with_xdg(os@) ==> (r matches Some(c) && runs(c, "xdg-open"@, seq![url@])),
        os@ == "macos"@ ==> (r matches Some(c) && runs(c, "open"@, seq![url@])),
        os@ == "windows"@ ==> (r matches Some(c) && runs(
            c,
            "cmd"@,
            seq!["/C"@, "start"@, url@],
        )),
        r is Some <==> (opens_with_xdg(os@) || os@ == "macos"@ || os@ == "windows"@),
{
    proof {
        reveal_strlit("linux");
        reveal_strlit("freebsd");
        reveal_strlit("netbsd");
        reveal_strlit("openbsd");
        reveal_strlit("solaris");
        reveal_strlit("android");
        reveal_strlit("macos");
        reveal_strlit("windows");
        // The names differ in their first letter.
        assert("linux"@[0] == 'l' && "freebsd"@[0] == 'f' && "netbsd"@[0] == 'n');
        assert("openbsd"@[0] == 'o' && "solaris"@[0] == 's' && "android"@[0] == 'a');
        assert("macos"@[0] == 'm' && "windows"@[0] == 'w');
    }
    let unix_like = str_equal(os, "linux") || str_equal(os, "freebsd") || str_equal(os, "netbsd")
        || str_equal(os, "openbsd") || str_equal(os, "solaris") || str_equal(os, "android");
    if unix_like {
        let args = vec![String::from_str(url)];
        assert(args@[0]@ == seq![url@][0]);
        Some(OpenCommand { program: String::from_str("xdg-open"), args })
    } else if str_equal(os, "macos") {
        let args = vec![String::from_str(url)];
        assert(args@[0]@ == seq![url@][0]);
        Some(OpenCommand { program: String::from_str("open"), args })
    } else if str_equal(os, "windows") {
        let args = vec![String::from_str("/C"), String::from_str("start"), String::from_str(url)];
        let ghost want = seq!["/C"@, "start"@, url@];
        assert(args@[0]@ == want[0] && args@[1]@ == want[1] && args@[2]@ == want[2]);
        Some(OpenCommand { program: String::from_str("cmd"), args })
    } else {
        None
    }
}

/// The runtime that executes the agent: a path, and the same path as a `urn:` URI.
#[derive(Debug)]
pub struct NodeRuntime {
    pub path: String,
    pub uri: String,
}

/// The runtime configured by the user, or `node` from the search path.
pub fn node_runtime(configured: Option<String>) -> (r: NodeRuntime)
    ensures
        r.path@ == (match configured {
            Some(p) => p@,
            None => "node"@,
        }),
        r.uri@ == "urn:"@ + r.path@,
{
    let path = match configured {
        Some(p) => p,
        None => String::from_str("node"),
    };
    let uri = String::from_str("urn:").concat(path.as_str());
    NodeRuntime { path, uri }
}

/// `s` with a leading `file://` removed, if it has one.
pub open spec fn without_file_scheme(s: Seq<char>) -> Seq<char> {
    if s.len() >= 7 && s.subrange(0, 7) == "file://"@ {
        s.subrange(7, s.len() as int)
    } else {
        s
    }
}

/// The directory the adapter is installed in, from its location as given by the editor.
pub fn install_directory(location: &str) -> (r: String)
    ensures
        r@ == without_file_scheme(location@),
{
    proof {
        reveal_strlit("file://");
    }
    let n = location.unicode_len();
    if n >= 7 && str_equal(location.substring_char(0, 7), "file://") {
        location.substring_char(7, n).to_owned()
    } else {
        location.to_owned()
    }
}

/// The oldest major version of Node.js that runs the agent.
pub const MIN_NODE_MAJOR: u32 = 16;

/// What the runtime's `--version` run says of it.
#[derive(Debug, Clone, Copy, PartialEq, Eq, Structural)]
pub enum NodeVersionCheck {
    /// The runtime did not exit successfully.
    Failed,
    /// It printed nothing that could be read.
    NoOutput,
    /// Its output holds no major version.
    Unparsable,
    TooOld { major: u32 },
    Supported { major: u32 },
}

/// `s` without a leading `v`.
pub open spec fn without_v(s: Seq<char>) -> Seq<char> {
    if s.len() > 0 && s[0] == 'v' {
        s.drop_first()
    } else {
        s
    }
}

/// `d` is the place of the first `.` in `s`.
pub open spec fn is_first_dot(s: Seq<char>, d: int) -> bool {
    &&& 0 <= d < s.len()
    &&& s[d] == '.'
    &&& forall|j: int| 0 <= j < d ==> s[j] != '.'
}

/// What stands before the first `.` of `s`; empty if `s` has none.
pub open spec fn before_first_dot(s: Seq<char>) -> Seq<char> {
    if exists|d: int| is_first_dot(s, d) {
        s.subrange(0, choose|d: int| is_first_dot(s, d))
    } else {
        Seq::empty()
    }
}

/// The verdict on a version such as `v16.16.0`: its major version must be at
/// least `MIN_NODE_MAJOR`.
pub open spec fn node_verdict(version: Seq<char>) -> NodeVersionCheck {
    match parse_u32(before_first_dot(without_v(version))) {
        None => NodeVersionCheck::Unparsable,
        Some(major) => if major < MIN_NODE_MAJOR {
            NodeVersionCheck::TooOld { major }
        } else {
            NodeVersionCheck::Supported { major }
        },
    }
}

/// Judges a version string as the runtime prints it, without surrounding whitespace.
pub fn node_version_verdict(version: &str) -> (r: NodeVersionCheck)
    ensures
        r == node_verdict(version@),
{
    let n = version.unicode_len();
    let start: usize = if n > 0 && version.get_char(0) == 'v' {
        1
    } else {
        0
    };
    let ghost t = without_v(version@);
    assert(t =~= version@.subrange(start as int, n as int));
    let mut i: usize = start;
    while i < n
        invariant
            start <= i <= n,
            n == version@.len(),
            t == version@.subrange(start as int, n as int),
            forall|j: int| 0 <= j < i - start ==> t[j] != '.',
        ensures
            start <= i <= n,
            forall|j: int| 0 <= j < i - start ==> t[j] != '.',
            i < n ==> t[i - start] == '.',
        decreases n - i,
    {
        if version.get_char(i) == '.' {
            break;
        }
        i = i + 1;
    }
    let major_text: &str = if i < n {
        assert(is_first_dot(t, i - start));
        assert forall|d: int| #[trigger] is_first_dot(t, d) implies d == i - start by {
            if d < i - start {
                assert(t[d] != '.');
            } else if d > i - start {
                assert(t[i - start] != '.');
            }
        }
        version.substring_char(start, i)
    } else {
        assert(!exists|d: int| is_first_dot(t, d));
        ""
    };
    proof {
        if i == n {
            reveal_strlit("");
            assert(major_text@ =~= Seq::<char>::empty());
        } else {
            assert(major_text@ =~= t.subrange(0, i - start));
        }
    }
    match parse_decimal_u32(major_text) {
        None => NodeVersionCheck::Unparsable,
        Some(major) => if major < MIN_NODE_MAJOR {
            NodeVersionCheck::TooOld { major }
        } else {
            NodeVersionCheck::Supported { major }
        },
    }
}

/// Judges a run of `node --version` by whether it succeeded and what it printed.
pub fn check_node_version(success: bool, stdout: Option<&str>) -> (r: NodeVersionCheck)
    ensures
        !success ==> r == NodeVersionCheck::Failed,
        success && stdout is None ==> r == NodeVersionCheck::NoOutput,
        success ==> (stdout matches Some(out) ==> r == node_verdict(trimmed_of(out@))),
{
    if !success {
        return NodeVersionCheck::Failed;
    }
    match stdout {
        None => NodeVersionCheck::NoOutput,
        Some(out) => node_version_verdict(trim(out)),
    }
}

} // verus!
