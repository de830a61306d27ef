//! The command lines through which the caller carries out the actions.

use vstd::prelude::*;
use crate::adapter::AdapterConfig;
use crate::controller::AdapterStep;

verus! {

/// The service manager's name for the Bluetooth daemon.
pub const DAEMON_SERVICE: &'static str = "bluetooth";

/// A program and its arguments.
pub struct CommandLine {
    pub program: String,
    pub args: Vec<String>,
}

/// The characters of each string of `v`.
pub open spec fn strings_view(v: Seq<String>) -> Seq<Seq<char>> {
    v.map_values(|s: String| s@)
}

impl CommandLine {
    /// The program and the characters of each argument.
    pub open spec fn spec_parts(&self) -> (Seq<char>, Seq<Seq<char>>) {
        (self.program@, strings_view(self.args@))
    }
}

/// `on` or `off`.
pub open spec fn switch_word(on: bool) -> Seq<char> {
    if on {
        "on"@
    } else {
        "off"@
    }
}

/// The arguments of the adapter control interface for step `k` of `cfg`.
pub open spec fn adapter_args(cfg: AdapterConfig, k: AdapterStep) -> Seq<Seq<char>> {
    match k {
        AdapterStep::Power => seq!["power"@, switch_word(cfg.powered_spec())],
        AdapterStep::Discoverable => seq!["discoverable"@, switch_word(cfg.discoverable_spec())],
        AdapterStep::Alias => seq!["system-alias"@, cfg.alias_spec()],
        AdapterStep::Show => seq!["show"@],
    }
}

fn switch(on: bool) -> (r: String)
    ensures
        r@ == switch_word(on),
{
    if on {
        "on".to_string()
    } else {
        "off".to_string()
    }
}

/// `systemctl is-active <service>`: exits zero exactly when the service runs.
pub fn daemon_status_command(service: &str) -> (r: CommandLine)
    ensures
        r.spec_parts() == ("systemctl"@, seq!["is-active"@, service@]),
{
    let args = vec!["is-active".to_string(), service.to_string()];
    let r = CommandLine { program: "systemctl".to_string(), args };
    assert(strings_view(r.args@) =~= seq!["is-active"@, service@]);
    r
}

/// `sudo systemctl start <service>`: the privileged start request.
pub fn daemon_start_command(service: &str) -> (r: CommandLine)
    ensures
        r.spec_parts() == ("sudo"@, seq!["systemctl"@, "start"@, service@]),
{
    let args = vec!["systemctl".to_string(), "start".to_string(), service.to_string()];
    let r = CommandLine { program: "sudo".to_string(), args };
    assert(strings_view(r.args@) =~= seq!["systemctl"@, "start"@, service@]);
    r
}

/// `bluetoothctl ...`: step `k` of the adapter configuration `cfg`.
pub fn adapter_command(cfg: &AdapterConfig, k: AdapterStep) -> (r: CommandLine)
    ensures
        r.spec_parts() == ("bluetoothctl"@, adapter_args(*cfg, k)),
{
    let args = match k {
        AdapterStep::Power => vec!["power".to_string(), switch(cfg.powered())],
        AdapterStep::Discoverable => vec!["discoverable".to_string(), switch(cfg.discoverable())],
        AdapterStep::Alias => vec!["system-alias".to_string(), cfg.alias().to_string()],
        AdapterStep::Show => vec!["show".to_string()],
    };
    let r = CommandLine { program: "bluetoothctl".to_string(), args };
    assert(strings_view(r.args@) =~= adapter_args(*cfg, k));
    r
}

/// `python3 <script>`: the GATT server.
pub fn server_command(script: &str) -> (r: CommandLine)
    ensures
        r.spec_parts() == ("python3"@, seq![script@]),
{
    let args = vec![script.to_string()];
    let r = CommandLine { program: "python3".to_string(), args };
    assert(strings_view(r.args@) =~= seq![script@]);
    r
}

} // verus!
