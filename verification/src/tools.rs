//! Built-in tool invocations: deciding which tool a request names, checking
//! its arguments, and rendering each tool's outcome.  The file, process, and
//! directory work itself is the surrounding process's, behind the
//! [`ToolInvocation`] value this module validates.

use vstd::prelude::*;

use crate::text::{dec_str, str_eq};

verus! {

/// Arguments for reading a file's contents.
#[derive(Debug)]
pub struct ReadFileArgs {
    /// Path to the file to read.
    pub path: String,
}

/// Arguments for writing contents to a file.
#[derive(Debug)]
pub struct WriteFileArgs {
    /// Path to the file to write.
    pub path: String,
    /// Contents to write to the file.
    pub content: String,
}

/// Arguments for listing a directory.
#[derive(Debug)]
pub struct ListDirectoryArgs {
    /// Path to the directory to list.
    pub path: String,
}

/// Arguments for running a shell command.
#[derive(Debug)]
pub struct RunCommandArgs {
    /// Command to run.
    pub command: String,
    /// Working directory for the command.
    pub cwd: Option<String>,
}

/// Arguments for searching code.
#[derive(Debug)]
pub struct SearchCodeArgs {
    /// Pattern to search for.
    pub pattern: String,
    /// Directory to search in.
    pub path: Option<String>,
    /// File pattern to filter.
    pub glob: Option<String>,
}

/// One validated tool invocation, ready for the surrounding process to run.
#[derive(Debug)]
pub enum ToolInvocation {
    ReadFile { path: String },
    WriteFile { path: String, content: String },
    ListDirectory { path: String },
    RunCommand { command: String },
    SearchCode { pattern: String, glob: Option<String> },
}

/// The built-in tools, keyed by name.
#[derive(Clone, Copy, Debug, PartialEq, Eq, Structural)]
pub enum ToolKind {
    ReadFile,
    WriteFile,
    ListDirectory,
    RunCommand,
    SearchCode,
    Unknown,
}

/// Which built-in tool `name` names.
pub open spec fn tool_kind(name: Seq<char>) -> ToolKind {
    if name == "read_file"@ {
        ToolKind::ReadFile
    } else if name == "write_file"@ {
        ToolKind::WriteFile
    } else if name == "list_directory"@ {
        ToolKind::ListDirectory
    } else if name == "run_command"@ {
        ToolKind::RunCommand
    } else if name == "search_code"@ {
        ToolKind::SearchCode
    } else {
        ToolKind::Unknown
    }
}

/// Which built-in tool the name names.
pub fn classify_tool(name: &str) -> (k: ToolKind)
    ensures
        k == tool_kind(name@),
{
    if str_eq(name, "read_file") {
        ToolKind::ReadFile
    } else if str_eq(name, "write_file") {
        ToolKind::WriteFile
    } else if str_eq(name, "list_directory") {
        ToolKind::ListDirectory
    } else if str_eq(name, "run_command") {
        ToolKind::RunCommand
    } else if str_eq(name, "search_code") {
        ToolKind::SearchCode
    } else {
        ToolKind::Unknown
    }
}

pub open spec fn unknown_tool_text(name: Seq<char>) -> Seq<char> {
    "Unknown tool: "@ + name
}

/// Validate the extracted arguments for the named tool: exactly the known
/// tools with all their required arguments present yield an invocation, and
/// each absence yields its own error.
pub fn build_tool_invocation(
    tool_name: &str,
    path: Option<String>,
    content: Option<String>,
    command: Option<String>,
    pattern: Option<String>,
    glob: Option<String>,
) -> (r: Result<ToolInvocation, String>)
    ensures
        tool_kind(tool_name@) is ReadFile ==> match r {
            Ok(inv) => inv matches ToolInvocation::ReadFile { path: p } && path is Some && p
                == path.unwrap(),
            Err(msg) => path is None && msg@ == "Missing 'path' argument"@,
        },
        tool_kind(tool_name@) is WriteFile ==> match r {
            Ok(inv) => inv matches ToolInvocation::WriteFile {
                path: p,
                content: c,
            } && path is Some && content is Some && p == path.unwrap() && c == content.unwrap(),
            Err(msg) => (path is None && msg@ == "Missing 'path' argument"@) || (path is Some
                && content is None && msg@ == "Missing 'content' argument"@),
        },
        tool_kind(tool_name@) is ListDirectory ==> match r {
            Ok(inv) => inv matches ToolInvocation::ListDirectory { path: p } && path is Some && p
                == path.unwrap(),
            Err(msg) => path is None && msg@ == "Missing 'path' argument"@,
        },
        tool_kind(tool_name@) is RunCommand ==> match r {
            Ok(inv) => inv matches ToolInvocation::RunCommand { command: c } && command is Some
                && c == command.unwrap(),
            Err(msg) => command is None && msg@ == "Missing 'command' argument"@,
        },
        tool_kind(tool_name@) is SearchCode ==> match r {
            Ok(inv) => inv matches ToolInvocation::SearchCode {
                pattern: p,
                glob: g,
            } && pattern is Some && p == pattern.unwrap() && g == glob,
            Err(msg) => pattern is None && msg@ == "Missing 'pattern' argument"@,
        },
        tool_kind(tool_name@) is Unknown ==> match r {
            Ok(inv) => false,
            Err(msg) => msg@ == unknown_tool_text(tool_name@),
        },
{
    match classify_tool(tool_name) {
        ToolKind::ReadFile => {
            match path {
                Some(p) => Ok(ToolInvocation::ReadFile { path: p }),
                None => Err("Missing 'path' argument".to_owned()),
            }
        },
        ToolKind::WriteFile => {
            match path {
                Some(p) => match content {
                    Some(c) => Ok(ToolInvocation::WriteFile { path: p, content: c }),
                    None => Err("Missing 'content' argument".to_owned()),
                },
                None => Err("Missing 'path' argument".to_owned()),
            }
        },
        ToolKind::ListDirectory => {
            match path {
                Some(p) => Ok(ToolInvocation::ListDirectory { path: p }),
                None => Err("Missing 'path' argument".to_owned()),
            }
        },
        ToolKind::RunCommand => {
            match command {
                Some(c) => Ok(ToolInvocation::RunCommand { command: c }),
                None => Err("Missing 'command' argument".to_owned()),
            }
        },
        ToolKind::SearchCode => {
            match pattern {
                Some(p) => Ok(ToolInvocation::SearchCode { pattern: p, glob }),
                None => Err("Missing 'pattern' argument".to_owned()),
            }
        },
        ToolKind::Unknown => {
            let mut msg = "Unknown tool: ".to_owned();
            msg.append(tool_name);
            Err(msg)
        },
    }
}

/// Whether `s` parses as one JSON document.  What `serde_json::from_str`
/// accepts depends on the text alone, so its outcome can carry a name.
pub uninterp spec fn json_parses(s: Seq<char>) -> bool;

/// The string value the JSON document `s` holds at the top-level key
/// `key`: absent when `s` does not parse, lacks the key, or holds
/// something other than a string there.
pub uninterp spec fn json_str_field(s: Seq<char>, key: Seq<char>) -> Option<Seq<char>>;

/// Relies on `serde_json::from_str::<Value>`: parsing succeeds exactly for
/// valid JSON documents.
#[verifier::external_body]
fn json_document_parses(s: &str) -> (b: bool)
    ensures
        b == json_parses(s@),
{
    serde_json::from_str::<serde_json::Value>(s).is_ok()
}

/// Relies on `serde_json::from_str::<Value>`, `Value::get` and
/// `Value::as_str`: an owned copy of the string the document holds at
/// `key`, absent when the text does not parse or `key` does not hold a
/// string.  A function of the text and key alone, so the outcome carries
/// the name `json_str_field`.
#[verifier::external_body]
fn json_string_field(s: &str, key: &str) -> (r: Option<String>)
    ensures
        r matches Some(t) ==> json_str_field(s@, key@) == Some(t@),
        r is None ==> json_str_field(s@, key@) is None,
        !json_parses(s@) ==> r is None,
{
    serde_json::from_str::<serde_json::Value>(s)
        .ok()
        .and_then(|v| v.get(key).and_then(|x| x.as_str()).map(|t| t.to_string()))
}

/// Parse a tool request's JSON arguments and validate them for the named
/// tool: the parse-failure text exactly when the arguments do not parse;
/// otherwise the unknown-tool error for an unknown name, a missing-argument
/// error exactly when a required key holds no string, and an invocation of
/// the named tool carrying the keys' values whenever everything is there.
pub fn prepare_tool_invocation(tool_name: &str, arguments: &str) -> (r: Result<
    ToolInvocation,
    String,
>)
    ensures
        !json_parses(arguments@) ==> match r {
            Ok(inv) => false,
            Err(msg) => msg@ == "Failed to parse tool arguments"@,
        },
        json_parses(arguments@) ==> {
            &&& (tool_kind(tool_name@) is Unknown ==> match r {
                Ok(inv) => false,
                Err(msg) => msg@ == unknown_tool_text(tool_name@),
            })
            &&& (tool_kind(tool_name@) is ReadFile ==> match r {
                Ok(inv) => inv matches ToolInvocation::ReadFile { path: p } && json_str_field(
                    arguments@,
                    "path"@,
                ) == Some(p@),
                Err(msg) => json_str_field(arguments@, "path"@) is None && msg@
                    == "Missing 'path' argument"@,
            })
            &&& (tool_kind(tool_name@) is WriteFile ==> match r {
                Ok(inv) => inv matches ToolInvocation::WriteFile { path: p, content: c }
                    && json_str_field(arguments@, "path"@) == Some(p@) && json_str_field(
                    arguments@,
                    "content"@,
                ) == Some(c@),
                Err(msg) => (json_str_field(arguments@, "path"@) is None && msg@
                    == "Missing 'path' argument"@) || (json_str_field(arguments@, "path"@)
                    is Some && json_str_field(arguments@, "content"@) is None && msg@
                    == "Missing 'content' argument"@),
            })
            &&& (tool_kind(tool_name@) is ListDirectory ==> match r {
                Ok(inv) => inv matches ToolInvocation::ListDirectory { path: p }
                    && json_str_field(arguments@, "path"@) == Some(p@),
                Err(msg) => json_str_field(arguments@, "path"@) is None && msg@
                    == "Missing 'path' argument"@,
            })
            &&& (tool_kind(tool_name@) is RunCommand ==> match r {
                Ok(inv) => inv matches ToolInvocation::RunCommand { command: c }
                    && json_str_field(arguments@, "command"@) == Some(c@),
                Err(msg) => json_str_field(arguments@, "command"@) is None && msg@
                    == "Missing 'command' argument"@,
            })
            &&& (tool_kind(tool_name@) is SearchCode ==> match r {
                Ok(inv) => inv matches ToolInvocation::SearchCode { pattern: p, glob: g }
                    && json_str_field(arguments@, "pattern"@) == Some(p@) && (g matches Some(t)
                    ==> json_str_field(arguments@, "glob"@) == Some(t@)) && (g is None
                    ==> json_str_field(arguments@, "glob"@) is None),
                Err(msg) => json_str_field(arguments@, "pattern"@) is None && msg@
                    == "Missing 'pattern' argument"@,
            })
        },
{
    if !json_document_parses(arguments) {
        return Err("Failed to parse tool arguments".to_owned());
    }
    let path = json_string_field(arguments, "path");
    let content = json_string_field(arguments, "content");
    let command = json_string_field(arguments, "command");
    let pattern = json_string_field(arguments, "pattern");
    let glob = json_string_field(arguments, "glob");
    build_tool_invocation(tool_name, path, content, command, pattern, glob)
}

/// The displayed outcome of reading a file.
pub fn format_read_file_result(path: &str, contents: &str) -> (r: String)
    ensures
        r@ == "Contents of "@ + path@ + ":\n\n"@ + contents@,
{
    let mut r = "Contents of ".to_owned();
    r.append(path);
    r.append(":\n\n");
    r.append(contents);
    r
}

/// The displayed outcome of writing a file.
pub fn format_write_file_result(path: &str, byte_count: usize) -> (r: String)
    ensures
        r@ == "Successfully wrote "@ + dec_str(byte_count as int) + " bytes to "@ + path@,
{
    let mut r = "Successfully wrote ".to_owned();
    crate::text::append_count(&mut r, byte_count);
    r.append(" bytes to ");
    r.append(path);
    r
}

/// One directory entry, as the listing logic reads it: its name and whether
/// it is itself a directory.
#[derive(Debug, Clone)]
pub struct DirEntryInfo {
    pub name: String,
    pub is_dir: bool,
}

/// One listing row per entry: directories marked and slash-terminated.
pub open spec fn dir_rows(entries: Seq<DirEntryInfo>) -> Seq<char>
    decreases entries.len(),
{
    if entries.len() == 0 {
        Seq::empty()
    } else {
        dir_rows(entries.drop_last()) + (if entries.last().is_dir {
            "\u{1f4c1} "@ + entries.last().name@ + "/\n"@
        } else {
            "\u{1f4c4} "@ + entries.last().name@ + "\n"@
        })
    }
}

/// The displayed outcome of listing a directory.
pub fn format_list_directory_result(path: &str, entries: &Vec<DirEntryInfo>) -> (r: String)
    ensures
        r@ == "Contents of "@ + path@ + ":\n\n"@ + dir_rows(entries@),
{
    let mut r = "Contents of ".to_owned();
    r.append(path);
    r.append(":\n\n");
    let ghost base = r@;
    let n = entries.len();
    let mut i: usize = 0;
    proof {
        assert(dir_rows(entries@.take(0)) =~= Seq::<char>::empty());
        assert(r@ =~= base + dir_rows(entries@.take(0)));
    }
    while i < n
        invariant
            0 <= i <= n,
            n == entries@.len(),
            r@ == base + dir_rows(entries@.take(i as int)),
        decreases n - i,
    {
        if entries[i].is_dir {
            r.append("\u{1f4c1} ");
            r.append(entries[i].name.as_str());
            r.append("/\n");
        } else {
            r.append("\u{1f4c4} ");
            r.append(entries[i].name.as_str());
            r.append("\n");
        }
        proof {
            assert(entries@.take(i + 1).drop_last() =~= entries@.take(i as int));
            assert(r@ =~= base + dir_rows(entries@.take(i + 1)));
        }
        i = i + 1;
    }
    proof {
        assert(entries@.take(n as int) =~= entries@);
    }
    r
}

/// `n` rendered in decimal, sign included.
pub open spec fn dec_int_str(n: int) -> Seq<char> {
    if n < 0 {
        "-"@ + dec_str(-n)
    } else {
        dec_str(n)
    }
}

/// Render a process exit code, sign included.
pub fn i32_to_string(n: i32) -> (s: String)
    ensures
        s@ == dec_int_str(n as int),
{
    if n < 0 {
        let mut s = "-".to_owned();
        let m: i64 = n as i64;
        let d = crate::text::u64_to_string((-m) as u64);
        s.append(d.as_str());
        s
    } else {
        crate::text::u64_to_string(n as u64)
    }
}

/// The displayed outcome of running a shell command: the command, its
/// non-empty output streams, and its exit code (`-1` when the process was
/// ended by a signal).
pub fn format_run_command_result(
    command: &str,
    stdout: &str,
    stderr: &str,
    exit_code: i32,
) -> (r: String)
    ensures
        r@ == "Command: "@ + command@ + "\n\n"@ + (if stdout@.len() > 0 {
            "STDOUT:\n"@ + stdout@ + "\n"@
        } else {
            Seq::empty()
        }) + (if stderr@.len() > 0 {
            "STDERR:\n"@ + stderr@ + "\n"@
        } else {
            Seq::empty()
        }) + "Exit code: "@ + dec_int_str(exit_code as int),
{
    let mut r = "Command: ".to_owned();
    r.append(command);
    r.append("\n\n");
    if stdout.unicode_len() > 0 {
        r.append("STDOUT:\n");
        r.append(stdout);
        r.append("\n");
    }
    if stderr.unicode_len() > 0 {
        r.append("STDERR:\n");
        r.append(stderr);
        r.append("\n");
    }
    r.append("Exit code: ");
    let code = i32_to_string(exit_code);
    r.append(code.as_str());
    proof {
        assert(r@ =~= "Command: "@ + command@ + "\n\n"@ + (if stdout@.len() > 0 {
            "STDOUT:\n"@ + stdout@ + "\n"@
        } else {
            Seq::<char>::empty()
        }) + (if stderr@.len() > 0 {
            "STDERR:\n"@ + stderr@ + "\n"@
        } else {
            Seq::<char>::empty()
        }) + "Exit code: "@ + dec_int_str(exit_code as int));
    }
    r
}

/// The displayed outcome of a code search: the matches, or a fixed text
/// when there were none.
pub fn format_search_results(pattern: &str, output: &str) -> (r: String)
    ensures
        output@.len() == 0 ==> r@ == "No matches found."@,
        output@.len() > 0 ==> r@ == "Search results for '"@ + pattern@ + "':\n\n"@ + output@,
{
    if output.unicode_len() == 0 {
        "No matches found.".to_owned()
    } else {
        let mut r = "Search results for '".to_owned();
        r.append(pattern);
        r.append("':\n\n");
        r.append(output);
        r
    }
}

} // verus!
