//! Session configuration: the model to talk to, the completion host, and the
//! set of configured tool servers.  Reading and writing the on-disk form is
//! the surrounding process's business; the session logic only consumes these
//! plain values.

use vstd::prelude::*;

verus! {

/// Default value for configuration flags that are on unless stated
/// otherwise.
pub fn default_true() -> (b: bool)
    ensures
        b,
{
    true
}

/// One configured tool server.
#[derive(Debug, Clone)]
pub struct McpServerConfig {
    pub name: String,
    pub url: String,
    /// Optional authentication token.
    pub token: Option<String>,
    /// Whether the session should connect to this server.
    pub enabled: bool,
}

/// The session's configuration.
#[derive(Debug, Clone)]
pub struct Config {
    /// Model to request completions from.
    pub model: String,
    /// Completion server host URL.
    pub host: String,
    /// Skip confirmation for destructive tools.
    pub yolo: bool,
    /// Configured tool servers.
    pub mcp_servers: Vec<McpServerConfig>,
}

/// How many of the configured servers are enabled.
pub fn count_enabled(servers: &Vec<McpServerConfig>) -> (n: usize)
    ensures
        n == servers@.filter(|m: McpServerConfig| m.enabled).len(),
{
    let ghost pred = |m: McpServerConfig| m.enabled;
    let len = servers.len();
    let mut n: usize = 0;
    let mut i: usize = 0;
    proof {
        reveal(Seq::filter);
        assert(servers@.take(0).filter(pred) =~= Seq::<McpServerConfig>::empty().filter(pred));
        assert(servers@.take(0) =~= Seq::<McpServerConfig>::empty());
    }
    while i < len
        invariant
            0 <= i <= len,
            len == servers@.len(),
            n <= i,
            n == servers@.take(i as int).filter(|m: McpServerConfig| m.enabled).len(),
        decreases len - i,
    {
        proof {
            reveal(Seq::filter);
            assert(servers@.take(i + 1).drop_last() =~= servers@.take(i as int));
            assert(servers@.take(i + 1).last() == servers@[i as int]);
        }
        if servers[i].enabled {
            n = n + 1;
        }
        i = i + 1;
    }
    proof {
        assert(servers@.take(len as int) =~= servers@);
    }
    n
}

impl Default for Config {
    fn default() -> (c: Config)
        ensures
            c.model@ == "qwen2.5-coder:3b"@,
            c.host@ == "http://localhost:11434"@,
            !c.yolo,
            c.mcp_servers@.len() == 0,
    {
        Config {
            model: "qwen2.5-coder:3b".to_owned(),
            host: "http://localhost:11434".to_owned(),
            yolo: false,
            mcp_servers: Vec::new(),
        }
    }
}

impl Config {
    /// A configuration with the given model, host, and confirmation mode,
    /// and no tool servers.
    pub fn new(model: String, host: String, yolo: bool) -> (c: Config)
        ensures
            c.model == model,
            c.host == host,
            c.yolo == yolo,
            c.mcp_servers@.len() == 0,
    {
        Config { model, host, yolo, mcp_servers: Vec::new() }
    }

    /// The configured servers that are enabled, in configuration order.
    pub fn enabled_mcp_servers(&self) -> (r: Vec<&McpServerConfig>)
        ensures
            r@.map_values(|m: &McpServerConfig| *m) == self.mcp_servers@.filter(
                |m: McpServerConfig| m.enabled,
            ),
    {
        let ghost pred = |m: McpServerConfig| m.enabled;
        let mut r: Vec<&McpServerConfig> = Vec::new();
        let n = self.mcp_servers.len();
        let mut i: usize = 0;
        proof {
            reveal(Seq::filter);
            assert(r@.map_values(|m: &McpServerConfig| *m) =~= self.mcp_servers@.take(0).filter(
                pred,
            ));
        }
        while i < n
            invariant
                0 <= i <= n,
                n == self.mcp_servers@.len(),
                r@.map_values(|m: &McpServerConfig| *m) == self.mcp_servers@.take(i as int).filter(
                    |m: McpServerConfig| m.enabled,
                ),
            decreases n - i,
        {
            proof {
                reveal(Seq::filter);
                assert(self.mcp_servers@.take(i + 1).drop_last() =~= self.mcp_servers@.take(
                    i as int,
                ));
                assert(self.mcp_servers@.take(i + 1).last() == self.mcp_servers@[i as int]);
            }
            let m = &self.mcp_servers[i];
            if m.enabled {
                r.push(m);
                proof {
                    assert(r@.map_values(|x: &McpServerConfig| *x) =~= self.mcp_servers@.take(
                        i as int,
                    ).filter(|x: McpServerConfig| x.enabled).push(self.mcp_servers@[i as int]));
                }
            }
            i = i + 1;
        }
        proof {
            assert(self.mcp_servers@.take(n as int) =~= self.mcp_servers@);
        }
        r
    }
}

} // verus!
