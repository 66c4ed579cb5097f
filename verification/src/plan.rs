use vstd::prelude::*;

use crate::decimal::dec_rep;
use crate::decimal::u16_dec;
use crate::errors::MachError;
use crate::inventory::Resource;
use crate::inventory::ServerDef;

verus! {

/// View of an optional `&str` argument as an optional character sequence.
pub open spec fn opt_str_view(user: Option<&str>) -> Option<Seq<char>> {
    match user {
        Some(u) => Some(u@),
        None => None,
    }
}

/// `user@host` when a username is present, bare `host` otherwise.
pub open spec fn user_host_spec(user: Option<Seq<char>>, host: Seq<char>) -> Seq<char> {
    match user {
        Some(u) => u + "@"@ + host,
        None => host,
    }
}

/// Formats a destination or jump endpoint, prefixing `user@` exactly when a
/// username was resolved.
pub fn user_host(user: Option<&str>, host: &str) -> (r: String)
    ensures
        r@ == user_host_spec(opt_str_view(user), host@),
{
    match user {
        Some(u) => {
            let mut s = String::from_str(u);
            s.append("@");
            s.append(host);
            s
        },
        None => String::from_str(host),
    }
}

/// The user's SSH directory under the given home directory.
pub fn ssh_dir(home: &str) -> (r: String)
    ensures
        r@ == home@ + "/.ssh"@,
{
    let mut s = String::from_str(home);
    s.append("/.ssh");
    s
}

/// The default inventory location under the given home directory.
pub fn machlist_local(home: &str) -> (r: String)
    ensures
        r@ == home@ + "/.machlist/resources.toml"@,
{
    let mut s = String::from_str(home);
    s.append("/.machlist/resources.toml");
    s
}

/// The known-hosts override option: one host-key trust file per
/// environment, so identical addresses in different environments never
/// collide.
pub open spec fn known_hosts_arg_spec(home: Seq<char>, env: Seq<char>) -> Seq<char> {
    "-oUserKnownHostsFile="@ + home + "/.ssh"@ + "/known_hosts_machlist_"@ + env
}

/// The host half of a destination: `ip` is preferred, `name` is the
/// fallback, and an entry with neither has no destination at all.
pub open spec fn dest_host(d: ServerDef) -> Option<Seq<char>> {
    if d.ip is Some {
        Some(d.ip->0@)
    } else if d.name is Some {
        Some(d.name->0@)
    } else {
        None
    }
}

/// Whether resolving `machine` within `env` yields a complete plan: the
/// environment and machine exist, a `jump` field (if any) names a machine
/// of the same environment that has an `ip`, and the machine itself has a
/// destination.
pub open spec fn login_ok(r: Resource, env: Seq<char>, machine: Seq<char>) -> bool {
    &&& r.server@.contains_key(env)
    &&& r.server@[env]@.contains_key(machine)
    &&& {
        let d = r.server@[env]@[machine];
        &&& (match d.jump {
            Some(j) => r.server@[env]@.contains_key(j@) && r.server@[env]@[j@].ip is Some,
            None => true,
        })
        &&& dest_host(d) is Some
    }
}

/// The one error a failed resolution reports, in the order the checks are
/// made: environment, machine, jump target, jump ip, destination.
pub open spec fn login_err_matches(
    r: Resource,
    env: Seq<char>,
    machine: Seq<char>,
    e: MachError,
) -> bool {
    if !r.server@.contains_key(env) {
        e matches MachError::EnvironmentNotFound(n) && n@ == env
    } else if !r.server@[env]@.contains_key(machine) {
        e matches MachError::MachineNotFound(n) && n@ == machine
    } else {
        let d = r.server@[env]@[machine];
        match d.jump {
            Some(j) => if !r.server@[env]@.contains_key(j@) {
                e matches MachError::JumpTargetNotFound(n) && n@ == j@
            } else if r.server@[env]@[j@].ip is None {
                e matches MachError::JumpMissingIp
            } else {
                e matches MachError::DestinationMissing
            },
            None => e matches MachError::DestinationMissing,
        }
    }
}

/// The SSH options of a successful resolution: the known-hosts override,
/// then (for a machine with a jump host) `-J` with the jump target's `ip`.
pub open spec fn login_args(
    user: Option<Seq<char>>,
    r: Resource,
    env: Seq<char>,
    machine: Seq<char>,
    home: Seq<char>,
) -> Seq<Seq<char>>
    recommends
        login_ok(r, env, machine),
{
    let d = r.server@[env]@[machine];
    let kh = known_hosts_arg_spec(home, env);
    match d.jump {
        Some(j) => seq![kh, "-J"@, user_host_spec(user, r.server@[env]@[j@].ip->0@)],
        None => seq![kh],
    }
}

/// The destination of a successful resolution.
pub open spec fn login_dest(
    user: Option<Seq<char>>,
    r: Resource,
    env: Seq<char>,
    machine: Seq<char>,
) -> Seq<char>
    recommends
        login_ok(r, env, machine),
{
    user_host_spec(user, dest_host(r.server@[env]@[machine])->0)
}

/// A ready connection: the SSH option list and the destination, in the
/// order they go on the command line.
#[derive(Debug, PartialEq, Eq)]
pub struct Ssh {
    /// Known-hosts override, then the jump option if any.
    pub args: Vec<String>,
    /// `user@host` (or bare host) of the target machine.
    pub dest: String,
}

/// Resolves `(target_env, machine_name)` to a connection: looks the
/// machine up, resolves one level of jump indirection, and builds the
/// option list and destination.  `home` is the user's home directory,
/// read by the caller.
pub fn ssh_login(
    user: Option<&str>,
    resources: &Resource,
    target_env: &str,
    machine_name: &str,
    home: &str,
) -> (r: Result<Ssh, MachError>)
    ensures
        (r is Ok) <==> login_ok(*resources, target_env@, machine_name@),
        r matches Ok(s) ==> s.args.deep_view() == login_args(
            opt_str_view(user),
            *resources,
            target_env@,
            machine_name@,
            home@,
        ) && s.dest@ == login_dest(opt_str_view(user), *resources, target_env@, machine_name@),
        r matches Err(e) ==> login_err_matches(*resources, target_env@, machine_name@, e),
{
    let envdef = match resources.get_target_env(target_env) {
        Ok(e) => e,
        Err(e) => {
            return Err(e);
        },
    };
    let machine_def = match envdef.get_machine(machine_name) {
        Ok(d) => d,
        Err(e) => {
            return Err(e);
        },
    };

    let mut args: Vec<String> = Vec::new();

    let mut kh = String::from_str("-oUserKnownHostsFile=");
    kh.append(home);
    kh.append("/.ssh");
    kh.append("/known_hosts_machlist_");
    kh.append(target_env);
    args.push(kh);

    match &machine_def.jump {
        None => {},
        Some(jump_machine) => {
            let def = match envdef.get_machine(jump_machine.as_str()) {
                Ok(d) => d,
                Err(_) => {
                    return Err(MachError::JumpTargetNotFound(jump_machine.clone()));
                },
            };
            match &def.ip {
                Some(ip) => {
                    args.push(String::from_str("-J"));
                    args.push(user_host(user, ip.as_str()));
                },
                None => {
                    return Err(MachError::JumpMissingIp);
                },
            }
        },
    }

    let dest = if let Some(ip) = &machine_def.ip {
        user_host(user, ip.as_str())
    } else if let Some(name) = &machine_def.name {
        user_host(user, name.as_str())
    } else {
        return Err(MachError::DestinationMissing);
    };

    proof {
        assert(args.deep_view() =~= login_args(
            opt_str_view(user),
            *resources,
            target_env@,
            machine_name@,
            home@,
        ));
    }
    Ok(Ssh { args, dest })
}

/// A machine entry with neither `ip` nor `name` never yields a plan,
/// whatever its other fields hold.
pub proof fn lemma_no_destination_no_plan(r: Resource, env: Seq<char>, machine: Seq<char>)
    requires
        r.server@.contains_key(env),
        r.server@[env]@.contains_key(machine),
        r.server@[env]@[machine].ip is None,
        r.server@[env]@[machine].name is None,
    ensures
        !login_ok(r, env, machine),
{
}

/// A machine entry with neither `ip` nor `name`, whose jump field (if
/// any) resolves, fails with exactly `DestinationMissing`.
pub proof fn lemma_destination_missing(r: Resource, env: Seq<char>, machine: Seq<char>, e: MachError)
    requires
        r.server@.contains_key(env),
        r.server@[env]@.contains_key(machine),
        r.server@[env]@[machine].ip is None,
        r.server@[env]@[machine].name is None,
        (match r.server@[env]@[machine].jump {
            Some(j) => r.server@[env]@.contains_key(j@) && r.server@[env]@[j@].ip is Some,
            None => true,
        }),
        login_err_matches(r, env, machine, e),
    ensures
        !login_ok(r, env, machine),
        e matches MachError::DestinationMissing,
{
}

/// A built plan's jump option carries the jump target's `ip` — never its
/// `name`: the options are the known-hosts override, `-J`, and
/// `user@<jump ip>`.
pub proof fn lemma_jump_uses_ip(
    user: Option<Seq<char>>,
    r: Resource,
    env: Seq<char>,
    machine: Seq<char>,
    home: Seq<char>,
)
    requires
        login_ok(r, env, machine),
        r.server@[env]@[machine].jump is Some,
    ensures
        login_args(user, r, env, machine, home) == seq![
            known_hosts_arg_spec(home, env),
            "-J"@,
            user_host_spec(
                user,
                r.server@[env]@[(r.server@[env]@[machine].jump->0)@].ip->0@,
            ),
        ],
{
}

/// A jump target without an `ip` fails with exactly `JumpMissingIp`; the
/// jump's `name` is never used as a fallback.
pub proof fn lemma_jump_missing_ip(r: Resource, env: Seq<char>, machine: Seq<char>, e: MachError)
    requires
        r.server@.contains_key(env),
        r.server@[env]@.contains_key(machine),
        r.server@[env]@[machine].jump is Some,
        r.server@[env]@.contains_key((r.server@[env]@[machine].jump->0)@),
        r.server@[env]@[(r.server@[env]@[machine].jump->0)@].ip is None,
        login_err_matches(r, env, machine, e),
    ensures
        !login_ok(r, env, machine),
        e matches MachError::JumpMissingIp,
{
}

/// The destination prefers `ip` over `name`: whenever the entry has an
/// `ip`, the destination is built from it, never from `name`.
pub proof fn lemma_destination_prefers_ip(
    user: Option<Seq<char>>,
    r: Resource,
    env: Seq<char>,
    machine: Seq<char>,
)
    requires
        login_ok(r, env, machine),
        r.server@[env]@[machine].ip is Some,
    ensures
        login_dest(user, r, env, machine) == user_host_spec(
            user,
            r.server@[env]@[machine].ip->0@,
        ),
{
}

/// The verbosity prefix of a command line.
pub open spec fn verbose_seq(verbose: bool) -> Seq<Seq<char>> {
    if verbose {
        seq!["-v"@]
    } else {
        Seq::empty()
    }
}

/// The chosen local port of a forward: the explicit override, or the
/// resource's remote port.
pub open spec fn local_port_of(local_port: Option<u16>, port: u16) -> nat {
    match local_port {
        Some(l) => l as nat,
        None => port as nat,
    }
}

/// A `-L` forwarding spec, `localPort:remoteHost:remotePort`.
pub open spec fn forward_spec(local: nat, at: Seq<char>, port: nat) -> Seq<char> {
    dec_rep(local) + ":"@ + at + ":"@ + dec_rep(port)
}

/// Formats the `-L` argument for a resource; the local port defaults to
/// the resource's own port when no override is given.
pub fn forward_arg(local_port: Option<u16>, at: &str, port: u16) -> (r: String)
    ensures
        r@ == forward_spec(local_port_of(local_port, port), at@, port as nat),
{
    let l = match local_port {
        Some(l) => l,
        None => port,
    };
    let mut s = u16_dec(l);
    s.append(":");
    s.append(at);
    s.append(":");
    let p = u16_dec(port);
    s.append(p.as_str());
    s
}

/// Appends clones of all of `xs` to `out`.
fn append_all(out: &mut Vec<String>, xs: &Vec<String>)
    ensures
        final(out).deep_view() == old(out).deep_view() + xs.deep_view(),
{
    let n = xs.len();
    let mut i: usize = 0;
    while i < n
        invariant
            n == xs@.len(),
            i <= n,
            out.deep_view() =~= old(out).deep_view() + xs.deep_view().subrange(0, i as int),
        decreases n - i,
    {
        let x = xs[i].clone();
        proof {
            assert(x@ == xs.deep_view()[i as int]);
        }
        let ghost prev = out.deep_view();
        out.push(x);
        proof {
            assert(out.deep_view() =~= prev + seq![xs.deep_view()[i as int]]);
            assert(prev + seq![xs.deep_view()[i as int]] =~= old(out).deep_view()
                + xs.deep_view().subrange(0, i + 1));
        }
        i += 1;
    }
    proof {
        assert(xs.deep_view().subrange(0, n as int) =~= xs.deep_view());
    }
}

/// The full `ssh` argument list of the `shell` subcommand: optional
/// verbosity, the resolved options, and the destination last.
pub fn shell_args(
    verbose: bool,
    user: Option<&str>,
    resources: &Resource,
    target_env: &str,
    machine_name: &str,
    home: &str,
) -> (r: Result<Vec<String>, MachError>)
    ensures
        (r is Ok) <==> login_ok(*resources, target_env@, machine_name@),
        r matches Ok(v) ==> v.deep_view() == verbose_seq(verbose) + login_args(
            opt_str_view(user),
            *resources,
            target_env@,
            machine_name@,
            home@,
        ) + seq![login_dest(opt_str_view(user), *resources, target_env@, machine_name@)],
        r matches Err(e) ==> login_err_matches(*resources, target_env@, machine_name@, e),
{
    let ssh = match ssh_login(user, resources, target_env, machine_name, home) {
        Ok(s) => s,
        Err(e) => {
            return Err(e);
        },
    };
    let mut out: Vec<String> = Vec::new();
    if verbose {
        out.push(String::from_str("-v"));
    }
    proof {
        assert(out.deep_view() =~= verbose_seq(verbose));
    }
    append_all(&mut out, &ssh.args);
    out.push(ssh.dest);
    proof {
        assert(out.deep_view() =~= verbose_seq(verbose) + login_args(
            opt_str_view(user),
            *resources,
            target_env@,
            machine_name@,
            home@,
        ) + seq![login_dest(opt_str_view(user), *resources, target_env@, machine_name@)]);
    }
    Ok(out)
}

/// The full `scp` argument list of the `copy-from` subcommand: the
/// resolved options, then `dest:path` and the local directory `./`.
pub fn copy_from_args(
    verbose: bool,
    user: Option<&str>,
    resources: &Resource,
    target_env: &str,
    machine_name: &str,
    home: &str,
    copy_path: &str,
) -> (r: Result<Vec<String>, MachError>)
    ensures
        (r is Ok) <==> login_ok(*resources, target_env@, machine_name@),
        r matches Ok(v) ==> v.deep_view() == verbose_seq(verbose) + login_args(
            opt_str_view(user),
            *resources,
            target_env@,
            machine_name@,
            home@,
        ) + seq![
            login_dest(opt_str_view(user), *resources, target_env@, machine_name@) + ":"@
                + copy_path@,
            "./"@,
        ],
        r matches Err(e) ==> login_err_matches(*resources, target_env@, machine_name@, e),
{
    let ssh = match ssh_login(user, resources, target_env, machine_name, home) {
        Ok(s) => s,
        Err(e) => {
            return Err(e);
        },
    };
    let mut out: Vec<String> = Vec::new();
    if verbose {
        out.push(String::from_str("-v"));
    }
    proof {
        assert(out.deep_view() =~= verbose_seq(verbose));
    }
    append_all(&mut out, &ssh.args);
    let mut src = ssh.dest;
    src.append(":");
    src.append(copy_path);
    out.push(src);
    out.push(String::from_str("./"));
    proof {
        assert(out.deep_view() =~= verbose_seq(verbose) + login_args(
            opt_str_view(user),
            *resources,
            target_env@,
            machine_name@,
            home@,
        ) + seq![
            login_dest(opt_str_view(user), *resources, target_env@, machine_name@) + ":"@
                + copy_path@,
            "./"@,
        ]);
    }
    Ok(out)
}

/// The full `scp` argument list of the `copy-to` subcommand: the resolved
/// options, then the local path and `dest:`.
pub fn copy_to_args(
    verbose: bool,
    user: Option<&str>,
    resources: &Resource,
    target_env: &str,
    machine_name: &str,
    home: &str,
    copy_path: &str,
) -> (r: Result<Vec<String>, MachError>)
    ensures
        (r is Ok) <==> login_ok(*resources, target_env@, machine_name@),
        r matches Ok(v) ==> v.deep_view() == verbose_seq(verbose) + login_args(
            opt_str_view(user),
            *resources,
            target_env@,
            machine_name@,
            home@,
        ) + seq![
            copy_path@,
            login_dest(opt_str_view(user), *resources, target_env@, machine_name@) + ":"@,
        ],
        r matches Err(e) ==> login_err_matches(*resources, target_env@, machine_name@, e),
{
    let ssh = match ssh_login(user, resources, target_env, machine_name, home) {
        Ok(s) => s,
        Err(e) => {
            return Err(e);
        },
    };
    let mut out: Vec<String> = Vec::new();
    if verbose {
        out.push(String::from_str("-v"));
    }
    proof {
        assert(out.deep_view() =~= verbose_seq(verbose));
    }
    append_all(&mut out, &ssh.args);
    out.push(String::from_str(copy_path));
    let mut dst = ssh.dest;
    dst.append(":");
    out.push(dst);
    proof {
        assert(out.deep_view() =~= verbose_seq(verbose) + login_args(
            opt_str_view(user),
            *resources,
            target_env@,
            machine_name@,
            home@,
        ) + seq![
            copy_path@,
            login_dest(opt_str_view(user), *resources, target_env@, machine_name@) + ":"@,
        ]);
    }
    Ok(out)
}

/// Whether resolving a tunnel to `res_name` within `env` yields a plan:
/// the resource exists and its server resolves as a destination.
pub open spec fn tunnel_ok(r: Resource, env: Seq<char>, res_name: Seq<char>) -> bool {
    &&& r.resource@.contains_key(env)
    &&& r.resource@[env]@.contains_key(res_name)
    &&& login_ok(r, env, r.resource@[env]@[res_name].server@)
}

/// The one error a failed tunnel resolution reports: resource environment,
/// then resource, then the server resolution's own errors.
pub open spec fn tunnel_err_matches(
    r: Resource,
    env: Seq<char>,
    res_name: Seq<char>,
    e: MachError,
) -> bool {
    if !r.resource@.contains_key(env) {
        e matches MachError::EnvironmentNotFound(n) && n@ == env
    } else if !r.resource@[env]@.contains_key(res_name) {
        e matches MachError::ResourceNotFound(n) && n@ == res_name
    } else {
        login_err_matches(r, env, r.resource@[env]@[res_name].server@, e)
    }
}

/// The full `ssh` argument list of the `tunnel` subcommand: the resolved
/// options for the resource's server, then `-N`, the `-L` forwarding spec,
/// and the destination.
pub fn tunnel_args(
    verbose: bool,
    user: Option<&str>,
    resources: &Resource,
    target_env: &str,
    resource_name: &str,
    local_port: Option<u16>,
    home: &str,
) -> (r: Result<Vec<String>, MachError>)
    ensures
        (r is Ok) <==> tunnel_ok(*resources, target_env@, resource_name@),
        r matches Ok(v) ==> {
            let rd = resources.resource@[target_env@]@[resource_name@];
            v.deep_view() == verbose_seq(verbose) + login_args(
                opt_str_view(user),
                *resources,
                target_env@,
                rd.server@,
                home@,
            ) + seq![
                "-N"@,
                "-L"@,
                forward_spec(local_port_of(local_port, rd.port), rd.at@, rd.port as nat),
                login_dest(opt_str_view(user), *resources, target_env@, rd.server@),
            ]
        },
        r matches Err(e) ==> tunnel_err_matches(*resources, target_env@, resource_name@, e),
{
    let defs = match resources.get_target_env_resources(target_env) {
        Ok(d) => d,
        Err(e) => {
            return Err(e);
        },
    };
    let def = match defs.get_resource(resource_name) {
        Ok(d) => d,
        Err(e) => {
            return Err(e);
        },
    };
    let ssh = match ssh_login(user, resources, target_env, def.server.as_str(), home) {
        Ok(s) => s,
        Err(e) => {
            return Err(e);
        },
    };
    let mut out: Vec<String> = Vec::new();
    if verbose {
        out.push(String::from_str("-v"));
    }
    proof {
        assert(out.deep_view() =~= verbose_seq(verbose));
    }
    append_all(&mut out, &ssh.args);
    out.push(String::from_str("-N"));
    out.push(String::from_str("-L"));
    out.push(forward_arg(local_port, def.at.as_str(), def.port));
    out.push(ssh.dest);
    proof {
        let rd = resources.resource@[target_env@]@[resource_name@];
        assert(out.deep_view() =~= verbose_seq(verbose) + login_args(
            opt_str_view(user),
            *resources,
            target_env@,
            rd.server@,
            home@,
        ) + seq![
            "-N"@,
            "-L"@,
            forward_spec(local_port_of(local_port, rd.port), rd.at@, rd.port as nat),
            login_dest(opt_str_view(user), *resources, target_env@, rd.server@),
        ]);
    }
    Ok(out)
}

} // verus!
