use vstd::prelude::*;

use crate::errors::MachError;
use crate::strmap::StrMap;

verus! {

/// One reachable host.  An entry that is an actual destination needs at
/// least one of `ip`/`name`; a pure jump entry may lack both, which is
/// only caught when it is dereferenced as a destination.
#[derive(Debug, PartialEq, Eq)]
pub struct ServerDef {
    /// Address preferred for the destination and required for jump hosts.
    pub ip: Option<String>,
    /// Hostname, used for the destination only when `ip` is absent.
    pub name: Option<String>,
    /// Machine key of a jump host within the same environment.
    pub jump: Option<String>,
    /// Marks a jump-only entry, hidden from listings (default `false`).
    pub proxy: Option<bool>,
}

/// A named remote `(host, port)` pair reachable through `server`, used to
/// build a local port forward.
#[derive(Debug, PartialEq, Eq)]
pub struct ResourceDef {
    /// Machine key, within the same environment, to tunnel through.
    pub server: String,
    /// Remote host reachable from that machine.
    pub at: String,
    /// Remote port.
    pub port: u16,
}

/// One environment's table, keyed by machine (or resource) name.
#[derive(Debug, PartialEq)]
pub struct EnvironmentDef<D>(pub StrMap<D>);

impl<D> View for EnvironmentDef<D> {
    type V = Map<Seq<char>, D>;

    open spec fn view(&self) -> Map<Seq<char>, D> {
        self.0@
    }
}

/// The parsed inventory: an optional username directive plus, per
/// environment, a server table and a resource table.
#[derive(Debug, PartialEq)]
pub struct Resource {
    /// Username directive: either a literal login name or `env:<NAME>`.
    pub username: Option<String>,
    /// Server tables, keyed by environment name.
    pub server: StrMap<EnvironmentDef<ServerDef>>,
    /// Resource tables, keyed by environment name.
    pub resource: StrMap<EnvironmentDef<ResourceDef>>,
}

impl Resource {
    /// The server table of `target_env`.
    pub fn get_target_env(&self, target_env: &str) -> (r: Result<
        &EnvironmentDef<ServerDef>,
        MachError,
    >)
        ensures
            match r {
                Ok(e) => self.server@.contains_key(target_env@) && *e == self.server@[target_env@],
                Err(e) => !self.server@.contains_key(target_env@) && (e matches
                MachError::EnvironmentNotFound(n) && n@ == target_env@),
            },
    {
        match self.server.get(target_env) {
            Some(e) => Ok(e),
            None => Err(MachError::EnvironmentNotFound(target_env.to_owned())),
        }
    }

    /// The resource table of `target_env`.
    pub fn get_target_env_resources(&self, target_env: &str) -> (r: Result<
        &EnvironmentDef<ResourceDef>,
        MachError,
    >)
        ensures
            match r {
                Ok(e) => self.resource@.contains_key(target_env@) && *e
                    == self.resource@[target_env@],
                Err(e) => !self.resource@.contains_key(target_env@) && (e matches
                MachError::EnvironmentNotFound(n) && n@ == target_env@),
            },
    {
        match self.resource.get(target_env) {
            Some(e) => Ok(e),
            None => Err(MachError::EnvironmentNotFound(target_env.to_owned())),
        }
    }

    /// Every environment name of the server table, once each, in an
    /// unspecified order.
    pub fn list_environments(&self) -> (r: Vec<String>)
        ensures
            forall|i: int| 0 <= i < r@.len() ==> self.server@.contains_key(#[trigger] r@[i]@),
            forall|k: Seq<char>|
                self.server@.contains_key(k) ==> (exists|i: int|
                    0 <= i < r@.len() && r@[i]@ == k),
            forall|i: int, j: int| 0 <= i < j < r@.len() ==> r@[i]@ != r@[j]@,
    {
        self.server.keys()
    }
}

/// Whether an entry is marked as jump-only: `proxy` set and true.
pub open spec fn is_proxy(d: ServerDef) -> bool {
    d.proxy == Some(true)
}

impl EnvironmentDef<ServerDef> {
    /// The entry of `machine_name`, exactly as the inventory holds it.
    pub fn get_machine(&self, machine_name: &str) -> (r: Result<&ServerDef, MachError>)
        ensures
            match r {
                Ok(d) => self@.contains_key(machine_name@) && *d == self@[machine_name@],
                Err(e) => !self@.contains_key(machine_name@) && (e matches
                MachError::MachineNotFound(n) && n@ == machine_name@),
            },
    {
        match self.0.get(machine_name) {
            Some(d) => Ok(d),
            None => Err(MachError::MachineNotFound(machine_name.to_owned())),
        }
    }

    /// The machine names fit for listing: exactly those whose entry is not
    /// flagged `proxy = true`, once each, in an unspecified order.
    pub fn list_non_proxies(&self) -> (r: Vec<String>)
        ensures
            forall|i: int|
                0 <= i < r@.len() ==> self@.contains_key(#[trigger] r@[i]@) && !is_proxy(
                    self@[r@[i]@],
                ),
            forall|k: Seq<char>|
                self@.contains_key(k) && !is_proxy(self@[k]) ==> (exists|i: int|
                    0 <= i < r@.len() && r@[i]@ == k),
            forall|i: int, j: int| 0 <= i < j < r@.len() ==> r@[i]@ != r@[j]@,
    {
        let ks = self.0.keys();
        let n = ks.len();
        let mut r: Vec<String> = Vec::new();
        let mut i: usize = 0;
        while i < n
            invariant
                n == ks@.len(),
                i <= n,
                forall|t: int| 0 <= t < n ==> self@.contains_key(#[trigger] ks@[t]@),
                forall|k: Seq<char>|
                    self@.contains_key(k) ==> (exists|t: int| 0 <= t < n && ks@[t]@ == k),
                forall|t: int, u: int| 0 <= t < u < n ==> ks@[t]@ != ks@[u]@,
                forall|j: int|
                    0 <= j < r@.len() ==> self@.contains_key(#[trigger] r@[j]@) && !is_proxy(
                        self@[r@[j]@],
                    ),
                forall|j: int|
                    0 <= j < r@.len() ==> (exists|t: int| 0 <= t < i && ks@[t]@ == #[trigger] r@[j]@),
                forall|t: int|
                    0 <= t < i && !is_proxy(self@[#[trigger] ks@[t]@]) ==> (exists|j: int|
                        0 <= j < r@.len() && r@[j]@ == ks@[t]@),
                forall|j1: int, j2: int| 0 <= j1 < j2 < r@.len() ==> r@[j1]@ != r@[j2]@,
            decreases n - i,
        {
            let ghost r0 = r@;
            let mut keep = false;
            match self.0.get(ks[i].as_str()) {
                Some(d) => {
                    keep = match d.proxy {
                        Some(b) => !b,
                        None => true,
                    };
                    proof {
                        assert(keep == !is_proxy(self@[ks@[i as int]@]));
                    }
                },
                None => {
                    proof {
                        assert(self@.contains_key(ks@[i as int]@));
                    }
                    unreached()
                },
            }
            if keep {
                r.push(ks[i].clone());
            }
            proof {
                assert forall|t: int|
                    0 <= t < i + 1 && !is_proxy(self@[#[trigger] ks@[t]@]) implies (exists|j: int|
                    0 <= j < r@.len() && r@[j]@ == ks@[t]@) by {
                    if t < i {
                        let j = choose|j: int| 0 <= j < r0.len() && r0[j]@ == ks@[t]@;
                        assert(r@[j]@ == ks@[t]@);
                    } else {
                        assert(r@[r@.len() - 1]@ == ks@[t]@);
                    }
                }
            }
            i += 1;
        }
        r
    }
}

impl EnvironmentDef<ResourceDef> {
    /// The entry of `resource_name`, exactly as the inventory holds it.
    pub fn get_resource(&self, resource_name: &str) -> (r: Result<&ResourceDef, MachError>)
        ensures
            match r {
                Ok(d) => self@.contains_key(resource_name@) && *d == self@[resource_name@],
                Err(e) => !self@.contains_key(resource_name@) && (e matches
                MachError::ResourceNotFound(n) && n@ == resource_name@),
            },
    {
        match self.0.get(resource_name) {
            Some(d) => Ok(d),
            None => Err(MachError::ResourceNotFound(resource_name.to_owned())),
        }
    }
}

} // verus!
