//! What scripts see of their host: `process.env`, `os.hostname()`, and the
//! environment registered for each tenant hostname.

use vstd::prelude::*;
use vstd::string::StringExecFns;
use crate::text::str_eq;
use crate::sliver::json::{pairs_view, clone_pairs};

verus! {

/// The host values of the request being served.
pub struct HostState {
    /// The app's environment variables, if set.
    pub current_env: Option<Vec<(String, String)>>,
    /// The tenant hostname, if set.
    pub current_hostname: Option<String>,
}

/// The view of an optional list of pairs.
pub open spec fn opt_pairs_view(o: Option<Vec<(String, String)>>) -> Option<Seq<(Seq<char>, Seq<char>)>> {
    match o {
        Some(v) => Some(pairs_view(v@)),
        None => None,
    }
}

/// Whether a list of pairs has the key `k`.
pub open spec fn has_pair_key(v: Seq<(Seq<char>, Seq<char>)>, k: Seq<char>) -> bool {
    exists|i: int| 0 <= i < v.len() && v[i].0 == k
}

/// The environment scripts see: the app's variables (none when unset),
/// with `NODE_ENV` set to `production` where the app does not set it.
pub open spec fn visible_env(env: Option<Seq<(Seq<char>, Seq<char>)>>) -> Seq<(Seq<char>, Seq<char>)> {
    let e = match env {
        Some(v) => v,
        None => Seq::empty(),
    };
    if has_pair_key(e, "NODE_ENV"@) {
        e
    } else {
        e.push(("NODE_ENV"@, "production"@))
    }
}

/// Whether a list of pairs has the key `k`.
fn pairs_have_key(v: &Vec<(String, String)>, k: &str) -> (r: bool)
    ensures
        r == has_pair_key(pairs_view(v@), k@),
{
    let ghost pv = pairs_view(v@);
    let mut i: usize = 0;
    while i < v.len()
        invariant
            i <= v@.len(),
            pv == pairs_view(v@),
            forall|j: int| 0 <= j < i ==> pv[j].0 != k@,
        decreases v@.len() - i,
    {
        if str_eq(v[i].0.as_str(), k) {
            assert(pv[i as int].0 == k@);
            return true;
        }
        i = i + 1;
    }
    false
}

impl HostState {
    /// No environment and no hostname set.
    pub fn new() -> (r: Self)
        ensures
            r.current_env is None,
            r.current_hostname is None,
    {
        HostState { current_env: None, current_hostname: None }
    }

    /// The environment scripts see.
    pub fn process_env(&self) -> (r: Vec<(String, String)>)
        ensures
            pairs_view(r@) == visible_env(opt_pairs_view(self.current_env)),
    {
        let mut env = match &self.current_env {
            Some(v) => clone_pairs(v),
            None => Vec::new(),
        };
        assert(pairs_view(Seq::<(String, String)>::empty()) =~= Seq::empty());
        if !pairs_have_key(&env, "NODE_ENV") {
            let ghost before = pairs_view(env@);
            env.push((String::from_str("NODE_ENV"), String::from_str("production")));
            assert(pairs_view(env@) =~= before.push(("NODE_ENV"@, "production"@)));
        }
        env
    }

    /// The hostname `os.hostname()` reports: the tenant's, else `nano`.
    pub fn os_hostname(&self) -> (r: String)
        ensures
            r@ == match self.current_hostname {
                Some(h) => h@,
                None => "nano"@,
            },
    {
        match &self.current_hostname {
            Some(h) => h.clone(),
            None => String::from_str("nano"),
        }
    }
}

/// Sets the app environment visible as `process.env`.
pub fn set_current_env(state: &mut HostState, env: Option<Vec<(String, String)>>)
    ensures
        final(state).current_env == env,
        final(state).current_hostname == old(state).current_hostname,
{
    state.current_env = env;
}

/// Sets the hostname `os.hostname()` reports.
pub fn set_current_hostname(state: &mut HostState, hostname: Option<String>)
    ensures
        final(state).current_hostname == hostname,
        final(state).current_env == old(state).current_env,
{
    state.current_hostname = hostname;
}

/// Environments registered per tenant hostname; no hostname occurs twice.
pub struct HostnameEnvRegistry {
    entries: Vec<(String, Vec<(String, String)>)>,
}

/// The view of the registry's entries.
pub open spec fn registry_view(v: Seq<(String, Vec<(String, String)>)>) -> Map<Seq<char>, Seq<(Seq<char>, Seq<char>)>> {
    Map::new(
        |h: Seq<char>| exists|i: int| 0 <= i < v.len() && v[i].0@ == h,
        |h: Seq<char>| pairs_view(v[choose|i: int| 0 <= i < v.len() && v[i].0@ == h].1@),
    )
}

impl HostnameEnvRegistry {
    /// The registered environments by hostname.
    pub closed spec fn envs(&self) -> Map<Seq<char>, Seq<(Seq<char>, Seq<char>)>> {
        registry_view(self.entries@)
    }

    /// Whether no hostname occurs twice.
    pub closed spec fn wf(&self) -> bool {
        forall|i: int, j: int|
            0 <= i < j < self.entries@.len() ==> self.entries@[i].0@ != self.entries@[j].0@
    }

    /// An empty registry.
    pub fn new() -> (r: Self)
        ensures
            r.wf(),
            r.envs() == Map::<Seq<char>, Seq<(Seq<char>, Seq<char>)>>::empty(),
    {
        let r = HostnameEnvRegistry { entries: Vec::new() };
        assert(r.envs() =~= Map::<Seq<char>, Seq<(Seq<char>, Seq<char>)>>::empty());
        r
    }
}

/// Records `env` as the environment of `hostname`'s app, replacing an
/// earlier one.
pub fn register_hostname_env(registry: &mut HostnameEnvRegistry, hostname: String, env: Vec<(String, String)>)
    requires
        old(registry).wf(),
    ensures
        final(registry).wf(),
        final(registry).envs() == old(registry).envs().insert(hostname@, pairs_view(env@)),
{
    let ghost v = registry.entries@;
    let ghost hv = hostname@;
    let ghost ev = pairs_view(env@);
    let mut i: usize = 0;
    while i < registry.entries.len()
        invariant
            i <= registry.entries@.len(),
            registry.entries@ == v,
            v == old(registry).entries@,
            hv == hostname@,
            ev == pairs_view(env@),
            old(registry).wf(),
            forall|j: int| 0 <= j < i ==> v[j].0@ != hv,
        decreases registry.entries@.len() - i,
    {
        if str_eq(registry.entries[i].0.as_str(), hostname.as_str()) {
            registry.entries.set(i, (hostname, env));
            proof {
                let nv = registry.entries@;
                assert(nv == v.update(i as int, (nv[i as int].0, nv[i as int].1)));
                assert forall|h: Seq<char>| #[trigger] registry_view(nv).contains_key(h) == old(registry).envs().insert(hv, ev).contains_key(h) by {
                    if h != hv && registry_view(nv).contains_key(h) {
                        let k = choose|k: int| 0 <= k < nv.len() && nv[k].0@ == h;
                        assert(v[k].0@ == h);
                    }
                    if h != hv && old(registry).envs().contains_key(h) {
                        let k = choose|k: int| 0 <= k < v.len() && v[k].0@ == h;
                        assert(nv[k].0@ == h);
                    }
                    if h == hv {
                        assert(nv[i as int].0@ == h);
                    }
                }
                assert forall|h: Seq<char>| registry_view(nv).contains_key(h) implies #[trigger] registry_view(nv)[h] == old(registry).envs().insert(hv, ev)[h] by {
                    let k = choose|k: int| 0 <= k < nv.len() && nv[k].0@ == h;
                    if h == hv {
                        assert(k == i as int) by {
                            if k != i as int {
                                assert(v[k].0@ == h);
                                assert(v[i as int].0@ == h);
                            }
                        }
                    } else {
                        assert(v[k].0@ == h);
                        let k2 = choose|k2: int| 0 <= k2 < v.len() && v[k2].0@ == h;
                        assert(k2 == k) by {
                            if k2 != k {
                                assert(v[k2].0@ == v[k].0@);
                            }
                        }
                    }
                }
                assert(registry_view(nv) =~= old(registry).envs().insert(hv, ev));
                assert forall|a: int, b: int| 0 <= a < b < nv.len() implies nv[a].0@ != nv[b].0@ by {
                    if a != i as int && b != i as int {
                        assert(v[a].0@ != v[b].0@);
                    } else if a == i as int {
                        assert(v[b].0@ != v[a].0@);
                    } else {
                        assert(v[a].0@ != v[b].0@);
                    }
                }
            }
            return;
        }
        i = i + 1;
    }
    registry.entries.push((hostname, env));
    proof {
        let nv = registry.entries@;
        assert(nv == v.push(nv[v.len() as int]));
        assert forall|h: Seq<char>| #[trigger] registry_view(nv).contains_key(h) == old(registry).envs().insert(hv, ev).contains_key(h) by {
            if h != hv && registry_view(nv).contains_key(h) {
                let k = choose|k: int| 0 <= k < nv.len() && nv[k].0@ == h;
                assert(v[k].0@ == h);
            }
            if h != hv && old(registry).envs().contains_key(h) {
                let k = choose|k: int| 0 <= k < v.len() && v[k].0@ == h;
                assert(nv[k].0@ == h);
            }
            if h == hv {
                assert(nv[v.len() as int].0@ == h);
            }
        }
        assert forall|h: Seq<char>| registry_view(nv).contains_key(h) implies #[trigger] registry_view(nv)[h] == old(registry).envs().insert(hv, ev)[h] by {
            let k = choose|k: int| 0 <= k < nv.len() && nv[k].0@ == h;
            if h == hv {
                assert(k == v.len() as int) by {
                    if k < v.len() {
                        assert(v[k].0@ == h);
                    }
                }
            } else {
                assert(k < v.len());
                let k2 = choose|k2: int| 0 <= k2 < v.len() && v[k2].0@ == h;
                assert(k2 == k) by {
                    if k2 != k {
                        assert(v[k2].0@ == v[k].0@);
                    }
                }
            }
        }
        assert(registry_view(nv) =~= old(registry).envs().insert(hv, ev));
    }
}

/// The environment registered for `hostname`, if any.
pub fn env_for_hostname(registry: &HostnameEnvRegistry, hostname: &str) -> (r: Option<Vec<(String, String)>>)
    requires
        registry.wf(),
    ensures
        match r {
            Some(env) => registry.envs().contains_key(hostname@) && pairs_view(env@)
                == registry.envs()[hostname@],
            None => !registry.envs().contains_key(hostname@),
        },
{
    let ghost v = registry.entries@;
    let mut i: usize = 0;
    while i < registry.entries.len()
        invariant
            i <= v.len(),
            v == registry.entries@,
            registry.wf(),
            forall|j: int| 0 <= j < i ==> v[j].0@ != hostname@,
        decreases v.len() - i,
    {
        if str_eq(registry.entries[i].0.as_str(), hostname) {
            proof {
                assert(v[i as int].0@ == hostname@);
                let k = choose|k: int| 0 <= k < v.len() && v[k].0@ == hostname@;
                assert(k == i as int) by {
                    if k != i as int {
                        assert(v[k].0@ == v[i as int].0@);
                    }
                }
            }
            return Some(clone_pairs(&registry.entries[i].1));
        }
        i = i + 1;
    }
    None
}

/// The resolved addresses a lookup keeps: those of the asked family
/// (4 or 6), or all for family 0.
pub open spec fn family_filter(addrs: Seq<(Seq<char>, u32)>, family: u32) -> Seq<(Seq<char>, u32)> {
    addrs.filter(|a: (Seq<char>, u32)| family == 0 || a.1 == family)
}

/// The view of a resolved address.
pub open spec fn addr_view(a: (String, u32)) -> (Seq<char>, u32) {
    (a.0@, a.1)
}

/// The view of resolved addresses.
pub open spec fn addrs_view(v: Seq<(String, u32)>) -> Seq<(Seq<char>, u32)> {
    v.map_values(|a: (String, u32)| addr_view(a))
}

/// A failed lookup: code `ENOTFOUND`, syscall `getaddrinfo`.
#[derive(Debug)]
pub struct DnsError {
    pub code: String,
    pub message: String,
    pub syscall: String,
}

/// `dns.lookup`'s choice among the resolver's answers (each an address and
/// its family, 4 or 6): the answers of the asked family, or all for family
/// 0, in order; none left is `ENOTFOUND`.
pub fn dns_select(host: &str, addrs: Vec<(String, u32)>, family: u32) -> (r: Result<Vec<(String, u32)>, DnsError>)
    ensures
        family_filter(addrs_view(addrs@), family).len() > 0 ==> r is Ok
            && addrs_view(r->Ok_0@) == family_filter(addrs_view(addrs@), family),
        family_filter(addrs_view(addrs@), family).len() == 0 ==> r is Err
            && r->Err_0.code@ == "ENOTFOUND"@
            && r->Err_0.message@ == "getaddrinfo ENOTFOUND "@ + host@
            && r->Err_0.syscall@ == "getaddrinfo"@,
{
    let ghost src = addrs_view(addrs@);
    let mut rest = addrs;
    let mut kept: Vec<(String, u32)> = Vec::new();
    let ghost n = src.len();
    let mut i: usize = 0;
    assert(src.subrange(0, n as int) =~= src);
    let len = rest.len();
    while i < len
        invariant
            len == n,
            n == src.len(),
            i <= n,
            addrs_view(rest@) == src.subrange(i as int, n as int),
            addrs_view(kept@) == family_filter(src.subrange(0, i as int), family),
        decreases n - i,
    {
        let ghost before = kept@;
        let ghost rv = rest@;
        assert(addrs_view(rv).len() == rv.len());
        assert(src.subrange(i as int, n as int)[0] == src[i as int]);
        assert(addrs_view(rv)[0] == src[i as int]);
        let a = rest.remove(0);
        assert forall|j: int| 0 <= j < rest@.len() implies #[trigger] addrs_view(rest@)[j] == src.subrange(i + 1, n as int)[j] by {
            assert(rest@[j] == rv[j + 1]);
            assert(addrs_view(rv)[j + 1] == src.subrange(i as int, n as int)[j + 1]);
        }
        assert(addrs_view(rest@) =~= src.subrange(i + 1, n as int));
        assert(src.subrange(0, i + 1).drop_last() =~= src.subrange(0, i as int));
        assert(addr_view(a) == src[i as int]);
        if family == 0 || a.1 == family {
            kept.push(a);
            assert(addrs_view(kept@) =~= addrs_view(before).push(addr_view(a)));
        }
        proof {
            reveal(Seq::filter);
            assert(src.subrange(0, i + 1).last() == src[i as int]);
        }
        i = i + 1;
    }
    assert(src.subrange(0, n as int) =~= src);
    assert(addrs_view(kept@).len() == kept@.len());
    if kept.len() == 0 {
        let mut m = String::from_str("getaddrinfo ENOTFOUND ");
        m.append(host);
        Err(DnsError { code: String::from_str("ENOTFOUND"), message: m, syscall: String::from_str("getaddrinfo") })
    } else {
        Ok(kept)
    }
}

} // verus!
