//! The host registry: named connection profiles with unique names.
//!
//! The registry is an ordered collection of [`HostConfig`] entries in which
//! no two entries share a name. Inserting a profile under an existing name
//! replaces that entry; otherwise the profile is appended.

use vstd::prelude::*;

verus! {

/// One connection profile. The `password` field, when present, holds the
/// obscured form of the secret, never the plaintext.
#[derive(Debug, PartialEq)]
pub struct HostConfig {
    pub name: String,
    pub hostname: String,
    pub port: u16,
    pub username: String,
    pub password: Option<String>,
}

/// The mathematical image of a profile: every string as a sequence of
/// characters.
pub struct HostView {
    pub name: Seq<char>,
    pub hostname: Seq<char>,
    pub port: u16,
    pub username: Seq<char>,
    pub password: Option<Seq<char>>,
}

impl View for HostConfig {
    type V = HostView;

    open spec fn view(&self) -> HostView {
        HostView {
            name: self.name@,
            hostname: self.hostname@,
            port: self.port,
            username: self.username@,
            password: match self.password {
                Some(p) => Some(p@),
                None => None,
            },
        }
    }
}

impl Clone for HostConfig {
    fn clone(&self) -> (r: Self)
        ensures
            r == *self,
    {
        HostConfig {
            name: self.name.clone(),
            hostname: self.hostname.clone(),
            port: self.port,
            username: self.username.clone(),
            password: match &self.password {
                Some(p) => Some(p.clone()),
                None => None,
            },
        }
    }
}

/// The registry of profiles, keyed by `name`.
#[derive(Debug)]
pub struct Config {
    pub hosts: Vec<HostConfig>,
}

/// The first entry of `hosts` whose name is `name`, if any.
pub open spec fn spec_lookup(hosts: Seq<HostView>, name: Seq<char>) -> Option<HostView>
    decreases hosts.len(),
{
    if hosts.len() == 0 {
        None
    } else if hosts[0].name == name {
        Some(hosts[0])
    } else {
        spec_lookup(hosts.drop_first(), name)
    }
}

/// A lookup succeeds exactly when some entry carries the name, and then
/// returns an entry carrying it.
pub proof fn lemma_lookup_characterizes_membership(hosts: Seq<HostView>, name: Seq<char>)
    ensures
        (spec_lookup(hosts, name) is Some) <==> (exists|i: int|
            0 <= i < hosts.len() && hosts[i].name == name),
        spec_lookup(hosts, name) matches Some(h) ==> h.name == name && (exists|i: int|
            0 <= i < hosts.len() && hosts[i] == h),
    decreases hosts.len(),
{
    if hosts.len() == 0 {
    } else if hosts[0].name == name {
        assert(hosts[0].name == name);
    } else {
        lemma_lookup_characterizes_membership(hosts.drop_first(), name);
        if spec_lookup(hosts, name) is Some {
            let j = choose|j: int|
                0 <= j < hosts.drop_first().len() && hosts.drop_first()[j].name == name;
            assert(hosts[j + 1].name == name);
        }
        if exists|i: int| 0 <= i < hosts.len() && hosts[i].name == name {
            let i = choose|i: int| 0 <= i < hosts.len() && hosts[i].name == name;
            assert(hosts.drop_first()[i - 1].name == name);
        }
        if spec_lookup(hosts, name) is Some {
            let h = spec_lookup(hosts, name).unwrap();
            let j = choose|j: int|
                0 <= j < hosts.drop_first().len() && hosts.drop_first()[j] == h;
            assert(hosts[j + 1] == h);
        }
    }
}

impl View for Config {
    type V = Seq<HostView>;

    open spec fn view(&self) -> Seq<HostView> {
        self.hosts@.map_values(|h: HostConfig| h@)
    }
}

impl Config {
    /// No two entries share a name.
    pub open spec fn wf(&self) -> bool {
        forall|i: int, j: int|
            0 <= i < j < self@.len() ==> self@[i].name != self@[j].name
    }

    /// An empty registry.
    pub fn new() -> (r: Self)
        ensures
            r@ == Seq::<HostView>::empty(),
            r.wf(),
    {
        let r = Config { hosts: Vec::new() };
        proof {
            assert(r@ =~= Seq::<HostView>::empty());
        }
        r
    }

    /// Inserts `host`, replacing the entry of the same name if one exists
    /// and appending otherwise.
    #[verifier::loop_isolation(false)]
    pub fn add_host(&mut self, host: HostConfig)
        requires
            old(self).wf(),
        ensures
            final(self).wf(),
            (forall|i: int| 0 <= i < old(self)@.len() ==> old(self)@[i].name != host@.name)
                ==> final(self)@ == old(self)@.push(host@),
            forall|i: int|
                0 <= i < old(self)@.len() && old(self)@[i].name == host@.name
                    ==> final(self)@ == old(self)@.update(i, host@),
    {
        let ghost pre = self@;
        let key = host.name.clone();
        let n = self.hosts.len();
        let mut i: usize = 0;
        while i < n
            invariant
                self@ == pre,
                i <= n,
                forall|j: int| 0 <= j < i ==> pre[j].name != host@.name,
            decreases n - i,
        {
            if self.hosts[i].name == key {
                self.hosts[i] = host;
                proof {
                    assert(self@ =~= pre.update(i as int, host@));
                    assert forall|j: int|
                        0 <= j < pre.len() && pre[j].name == host@.name implies j == i as int by {
                        if j != i as int {
                            assert(pre[j].name != pre[i as int].name);
                        }
                    }
                    assert forall|p: int, q: int|
                        0 <= p < q < self@.len() implies self@[p].name != self@[q].name by {
                        assert(pre[p].name != pre[q].name);
                    }
                }
                return;
            }
            i += 1;
        }
        self.hosts.push(host);
        proof {
            assert(self@ =~= pre.push(host@));
        }
    }

    /// Removes the entry named `name` and reports whether one was present.
    #[verifier::loop_isolation(false)]
    pub fn remove_host(&mut self, name: &str) -> (r: bool)
        requires
            old(self).wf(),
        ensures
            final(self).wf(),
            r == (spec_lookup(old(self)@, name@) is Some),
            !r ==> final(self)@ == old(self)@,
            forall|i: int|
                0 <= i < old(self)@.len() && old(self)@[i].name == name@
                    ==> final(self)@ == old(self)@.remove(i),
    {
        let ghost pre = self@;
        let key: String = name.to_owned();
        let n = self.hosts.len();
        let mut i: usize = 0;
        while i < n
            invariant
                self@ == pre,
                i <= n,
                forall|j: int| 0 <= j < i ==> pre[j].name != name@,
            decreases n - i,
        {
            if self.hosts[i].name == key {
                self.hosts.remove(i);
                proof {
                    assert(self@ =~= pre.remove(i as int));
                    lemma_lookup_characterizes_membership(pre, name@);
                    assert forall|j: int|
                        0 <= j < pre.len() && pre[j].name == name@ implies j == i as int by {
                        if j != i as int {
                            assert(pre[j].name != pre[i as int].name);
                        }
                    }
                    assert forall|p: int, q: int|
                        0 <= p < q < self@.len() implies self@[p].name != self@[q].name by {
                        let p0 = if p < i as int { p } else { p + 1 };
                        let q0 = if q < i as int { q } else { q + 1 };
                        assert(pre[p0].name != pre[q0].name);
                    }
                }
                return true;
            }
            i += 1;
        }
        proof {
            lemma_lookup_characterizes_membership(pre, name@);
        }
        false
    }

    /// Returns the entry named `name`, if one exists.
    pub fn get_host(&self, name: &str) -> (r: Option<&HostConfig>)
        ensures
            match r {
                Some(h) => spec_lookup(self@, name@) == Some(h@),
                None => spec_lookup(self@, name@) is None,
            },
    {
        let key: String = name.to_owned();
        let n = self.hosts.len();
        let mut i: usize = 0;
        proof {
            assert(self@.skip(0) =~= self@);
        }
        while i < n
            invariant
                n == self.hosts.len(),
                i <= n,
                key@ == name@,
                spec_lookup(self@, name@) == spec_lookup(self@.skip(i as int), name@),
            decreases n - i,
        {
            proof {
                assert(self@.skip(i as int)[0] == self@[i as int]);
                assert(self@.skip(i as int).drop_first() =~= self@.skip(i as int + 1));
            }
            if self.hosts[i].name == key {
                return Some(&self.hosts[i]);
            }
            i += 1;
        }
        proof {
            assert(self@.skip(n as int) =~= Seq::<HostView>::empty());
        }
        None
    }

    /// Returns the entries in storage order.
    pub fn list_hosts(&self) -> (r: Vec<&HostConfig>)
        ensures
            r@.len() == self@.len(),
            forall|i: int| 0 <= i < r@.len() ==> r@[i]@ == self@[i],
    {
        let n = self.hosts.len();
        let mut r: Vec<&HostConfig> = Vec::new();
        let mut i: usize = 0;
        while i < n
            invariant
                n == self.hosts.len(),
                i <= n,
                r@.len() == i,
                forall|j: int| 0 <= j < i ==> r@[j]@ == self@[j],
            decreases n - i,
        {
            r.push(&self.hosts[i]);
            i += 1;
        }
        r
    }
}

} // verus!
