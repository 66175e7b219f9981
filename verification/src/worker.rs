//! The worker executable as seen from outside: its file name and the
//! argument vector that a configuration stands for.

use vstd::prelude::*;
use crate::config::{ProxyConfig, ProxyConfigView};

verus! {

/// File name of the worker executable inside the install directory.
pub open spec fn worker_file_name() -> Seq<char> {
    "ech-workers.exe"@
}

/// The worker's file name, to be joined to the install directory.
pub fn worker_executable_name() -> (name: String)
    ensures
        name@ == worker_file_name(),
{
    "ech-workers.exe".to_owned()
}

/// A flag followed by its value, or nothing at all when the value is empty.
pub open spec fn flag_pair(flag: Seq<char>, value: Seq<char>) -> Seq<Seq<char>> {
    if value.len() == 0 {
        Seq::empty()
    } else {
        seq![flag, value]
    }
}

/// The argument vector for a configuration: the server address first, then
/// one pair for each optional setting that is present, in a fixed order.
pub open spec fn worker_arguments_of(config: ProxyConfigView) -> Seq<Seq<char>> {
    seq!["-f"@, config.server_addr]
        + flag_pair("-l"@, config.listen_addr)
        + flag_pair("-token"@, config.token)
        + flag_pair("-ip"@, config.server_ip)
        + flag_pair("-dns"@, config.dns_server)
        + flag_pair("-ech"@, config.ech_domain)
        + flag_pair("-routing"@, config.routing_mode)
}

/// Why a configuration cannot be turned into a command line.
#[derive(Debug, Clone, Copy, PartialEq, Eq, Structural)]
pub enum ConfigRejection {
    /// The server address is empty.
    MissingServerAddress,
}

fn push_flag_pair(args: &mut Vec<String>, flag: &str, value: &String)
    ensures
        final(args).deep_view() == old(args).deep_view() + flag_pair(flag@, value@),
{
    if !value.as_str().is_empty() {
        args.push(flag.to_owned());
        args.push(value.clone());
    }
    assert(args.deep_view() =~= old(args).deep_view() + flag_pair(flag@, value@));
}

/// The worker's argument vector for a configuration.
///
/// Fails exactly when the server address is empty; nothing is spawned on
/// the strength of such a configuration.
pub fn worker_arguments(config: &ProxyConfig) -> (result: Result<Vec<String>, ConfigRejection>)
    ensures
        config@.server_addr.len() == 0 <==> result == Err::<Vec<String>, ConfigRejection>(
            ConfigRejection::MissingServerAddress,
        ),
        config@.server_addr.len() > 0 <==> result is Ok,
        result matches Ok(args) ==> args.deep_view() == worker_arguments_of(config@),
{
    if config.server_addr.as_str().is_empty() {
        return Err(ConfigRejection::MissingServerAddress);
    }
    let mut args: Vec<String> = Vec::new();
    args.push("-f".to_owned());
    args.push(config.server_addr.clone());
    assert(args.deep_view() =~= seq!["-f"@, config@.server_addr]);
    push_flag_pair(&mut args, "-l", &config.listen_addr);
    push_flag_pair(&mut args, "-token", &config.token);
    push_flag_pair(&mut args, "-ip", &config.server_ip);
    push_flag_pair(&mut args, "-dns", &config.dns_server);
    push_flag_pair(&mut args, "-ech", &config.ech_domain);
    push_flag_pair(&mut args, "-routing", &config.routing_mode);
    Ok(args)
}

} // verus!
