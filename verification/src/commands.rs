//! Argument lists for the external CLI binary.
//!
//! Running the binary is I/O and happens outside the library; these types
//! pin down exactly which program and which arguments each operation uses.

use vstd::prelude::*;

verus! {

/// Name of the bundled CLI binary.
pub const DEVPOD_BINARY_NAME: &'static str = "devpod-cli";

/// Environment variable set on every CLI invocation so the binary knows it
/// runs on behalf of the desktop application.
pub const DEVPOD_UI_ENV_VAR: &'static str = "DEVPOD_UI";

/// The views of an argument vector, one character sequence per argument.
pub open spec fn args_views(args: Seq<String>) -> Seq<Seq<char>> {
    args.map_values(|s: String| s@)
}

/// A fully assembled CLI invocation: the binary and its arguments.
pub struct CommandConfig {
    pub binary_name: &'static str,
    pub args: Vec<String>,
}

impl CommandConfig {
    pub fn binary_name(&self) -> (r: &'static str)
        ensures
            r@ == self.binary_name@,
    {
        self.binary_name
    }

    pub fn args(&self) -> (r: &Vec<String>)
        ensures
            r == self.args,
    {
        &self.args
    }
}

/// Failures of a CLI invocation. Carries plain messages in place of the
/// error values of the process-running layer, which stays outside the
/// library.
#[derive(Debug)]
pub enum DevpodCommandError {
    /// The command's output could not be parsed.
    Parse(String),
    /// The sidecar binary could not be found.
    Sidecar,
    /// The command's output could not be collected.
    Output,
    /// The command failed to run.
    Failed(String),
    /// The command exited with a non-zero code.
    Exit,
    /// Any other failure, described in the message.
    Any(String),
}

/// Deletes a pro instance by id, ignoring unknown ids.
pub struct DeleteProInstanceCommand {
    pub pro_id: String,
}

impl DeleteProInstanceCommand {
    pub fn new(pro_id: String) -> (r: Self)
        ensures
            r.pro_id == pro_id,
    {
        DeleteProInstanceCommand { pro_id }
    }

    pub fn config(&self) -> (r: CommandConfig)
        ensures
            r.binary_name@ == DEVPOD_BINARY_NAME@,
            args_views(r.args@) == seq!["pro"@, "delete"@, self.pro_id@, "--ignore-not-found"@],
    {
        let mut args: Vec<String> = Vec::new();
        args.push(String::from_str("pro"));
        args.push(String::from_str("delete"));
        args.push(self.pro_id.clone());
        args.push(String::from_str("--ignore-not-found"));
        proof {
            assert(args_views(args@) =~= seq![
                "pro"@,
                "delete"@,
                self.pro_id@,
                "--ignore-not-found"@,
            ]);
        }
        CommandConfig { binary_name: DEVPOD_BINARY_NAME, args }
    }
}

/// Deletes a provider by id.
pub struct DeleteProviderCommand {
    pub provider_id: String,
}

impl DeleteProviderCommand {
    pub fn new(provider_id: String) -> (r: Self)
        ensures
            r.provider_id == provider_id,
    {
        DeleteProviderCommand { provider_id }
    }

    pub fn config(&self) -> (r: CommandConfig)
        ensures
            r.binary_name@ == DEVPOD_BINARY_NAME@,
            args_views(r.args@) == seq!["provider"@, "delete"@, self.provider_id@],
    {
        let mut args: Vec<String> = Vec::new();
        args.push(String::from_str("provider"));
        args.push(String::from_str("delete"));
        args.push(self.provider_id.clone());
        proof {
            assert(args_views(args@) =~= seq!["provider"@, "delete"@, self.provider_id@]);
        }
        CommandConfig { binary_name: DEVPOD_BINARY_NAME, args }
    }
}

/// Lists the registered pro instances as JSON.
pub struct ListProInstancesCommand {}

impl ListProInstancesCommand {
    pub fn new() -> (r: Self) {
        ListProInstancesCommand {}
    }

    pub fn config(&self) -> (r: CommandConfig)
        ensures
            r.binary_name@ == DEVPOD_BINARY_NAME@,
            args_views(r.args@) == seq!["pro"@, "list"@, "--output=json"@],
    {
        let mut args: Vec<String> = Vec::new();
        args.push(String::from_str("pro"));
        args.push(String::from_str("list"));
        args.push(String::from_str("--output=json"));
        proof {
            assert(args_views(args@) =~= seq!["pro"@, "list"@, "--output=json"@]);
        }
        CommandConfig { binary_name: DEVPOD_BINARY_NAME, args }
    }
}

/// Lists the installed providers as JSON.
pub struct ListProvidersCommand {}

impl ListProvidersCommand {
    pub fn new() -> (r: Self) {
        ListProvidersCommand {}
    }

    pub fn config(&self) -> (r: CommandConfig)
        ensures
            r.binary_name@ == DEVPOD_BINARY_NAME@,
            args_views(r.args@) == seq!["provider"@, "list"@, "--output=json"@],
    {
        let mut args: Vec<String> = Vec::new();
        args.push(String::from_str("provider"));
        args.push(String::from_str("list"));
        args.push(String::from_str("--output=json"));
        proof {
            assert(args_views(args@) =~= seq!["provider"@, "list"@, "--output=json"@]);
        }
        CommandConfig { binary_name: DEVPOD_BINARY_NAME, args }
    }
}

/// Lists the known workspaces as JSON.
pub struct ListWorkspacesCommand {}

impl ListWorkspacesCommand {
    pub fn new() -> (r: Self) {
        ListWorkspacesCommand {}
    }

    pub fn config(&self) -> (r: CommandConfig)
        ensures
            r.binary_name@ == DEVPOD_BINARY_NAME@,
            args_views(r.args@) == seq!["list"@, "--output=json"@],
    {
        let mut args: Vec<String> = Vec::new();
        args.push(String::from_str("list"));
        args.push(String::from_str("--output=json"));
        proof {
            assert(args_views(args@) =~= seq!["list"@, "--output=json"@]);
        }
        CommandConfig { binary_name: DEVPOD_BINARY_NAME, args }
    }
}

/// Switches the active provider.
pub struct UseProviderCommand {
    pub new_provider_id: String,
}

impl UseProviderCommand {
    pub fn new(new_provider_id: String) -> (r: Self)
        ensures
            r.new_provider_id == new_provider_id,
    {
        UseProviderCommand { new_provider_id }
    }

    pub fn config(&self) -> (r: CommandConfig)
        ensures
            r.binary_name@ == DEVPOD_BINARY_NAME@,
            args_views(r.args@) == seq!["provider"@, "use"@, self.new_provider_id@],
    {
        let mut args: Vec<String> = Vec::new();
        args.push(String::from_str("provider"));
        args.push(String::from_str("use"));
        args.push(self.new_provider_id.clone());
        proof {
            assert(args_views(args@) =~= seq!["provider"@, "use"@, self.new_provider_id@]);
        }
        CommandConfig { binary_name: DEVPOD_BINARY_NAME, args }
    }
}

/// Starts the daemon for one pro instance, optionally in debug mode.
pub struct StartDaemonCommand {
    pub host_flag: String,
    pub debug_flag: String,
}

impl StartDaemonCommand {
    pub fn new(host: String, debug: bool) -> (r: Self)
        ensures
            r.host_flag@ == "--host="@ + host@,
            r.debug_flag@ == if debug {
                "--debug=true"@
            } else {
                ""@
            },
    {
        let host_flag = String::from_str("--host=").concat(host.as_str());
        let debug_flag = if debug {
            String::from_str("--debug=true")
        } else {
            String::from_str("")
        };
        StartDaemonCommand { host_flag, debug_flag }
    }

    pub fn config(&self) -> (r: CommandConfig)
        ensures
            r.binary_name@ == DEVPOD_BINARY_NAME@,
            args_views(r.args@) == seq![
                "pro"@,
                "daemon"@,
                "start"@,
                self.host_flag@,
                self.debug_flag@,
            ],
    {
        let mut args: Vec<String> = Vec::new();
        args.push(String::from_str("pro"));
        args.push(String::from_str("daemon"));
        args.push(String::from_str("start"));
        args.push(self.host_flag.clone());
        args.push(self.debug_flag.clone());
        proof {
            assert(args_views(args@) =~= seq![
                "pro"@,
                "daemon"@,
                "start"@,
                self.host_flag@,
                self.debug_flag@,
            ]);
        }
        CommandConfig { binary_name: DEVPOD_BINARY_NAME, args }
    }
}

} // verus!
