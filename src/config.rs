use vstd::prelude::*;

verus! {

/// The named connection profiles and which one is active.
pub struct Config {
    pub profiles: Vec<ConnectionProfile>,
    /// The name of the active profile; the first profile when absent.
    pub active_profile: Option<String>,
}

/// Where and how to reach the service.
pub struct ConnectionProfile {
    pub name: String,
    /// `host:port` of the service.
    pub address: String,
    pub namespace: String,
    pub tls: Option<TlsConfig>,
    pub api_key: Option<String>,
}

/// Transport security settings; file paths are kept as text.
pub struct TlsConfig {
    pub cert_path: Option<String>,
    pub key_path: Option<String>,
    pub ca_path: Option<String>,
    pub enabled: bool,
}

/// The value of `TlsConfig::enabled` when the configuration leaves it out.
pub fn default_true() -> (r: bool)
    ensures
        r,
{
    true
}

/// The index of the first profile named `name`, if one is.
pub open spec fn first_named(profiles: Seq<ConnectionProfile>, name: Seq<char>) -> Option<int> {
    if exists|i: int| 0 <= i < profiles.len() && profiles[i].name@ == name {
        Some(
            choose|i: int|
                0 <= i < profiles.len() && profiles[i].name@ == name && forall|j: int|
                    0 <= j < i ==> profiles[j].name@ != name,
        )
    } else {
        None
    }
}

impl Config {
    /// The index of the active profile: the first one with the chosen name, or
    /// the first one when no name is chosen.
    pub open spec fn active_index(&self) -> Option<int> {
        match self.active_profile {
            Some(n) => first_named(self.profiles@, n@),
            None => if self.profiles@.len() > 0 {
                Some(0)
            } else {
                None
            },
        }
    }

    pub fn get_active_profile(&self) -> (r: Option<&ConnectionProfile>)
        ensures
            match self.active_index() {
                Some(i) => 0 <= i < self.profiles@.len() && r == Some(&self.profiles@[i]),
                None => r is None,
            },
    {
        match &self.active_profile {
            Some(name) => {
                assert(self.active_profile == Some(*name));
                let mut k: usize = 0;
                while k < self.profiles.len()
                    invariant
                        self.active_profile == Some(*name),
                        k <= self.profiles@.len(),
                        forall|j: int| 0 <= j < k ==> self.profiles@[j].name@ != name@,
                    decreases self.profiles@.len() - k,
                {
                    if self.profiles[k].name == *name {
                        let ghost kk = k as int;
                        assert(self.profiles@[kk].name@ == name@);
                        assert(exists|i: int|
                            0 <= i < self.profiles@.len() && self.profiles@[i].name@ == name@
                                && forall|j: int| 0 <= j < i ==> self.profiles@[j].name@ != name@) by {
                            assert(0 <= kk < self.profiles@.len() && self.profiles@[kk].name@ == name@
                                && forall|j: int| 0 <= j < kk ==> self.profiles@[j].name@ != name@);
                        }
                        let ghost pick = choose|i: int|
                            0 <= i < self.profiles@.len() && self.profiles@[i].name@ == name@
                                && forall|j: int| 0 <= j < i ==> self.profiles@[j].name@ != name@;
                        assert(pick == k as int) by {
                            if pick < k {
                            } else if pick > k {
                            }
                        }
                        return Some(&self.profiles[k]);
                    }
                    k = k + 1;
                }
                None
            },
            None => if self.profiles.len() > 0 {
                Some(&self.profiles[0])
            } else {
                None
            },
        }
    }
}

impl Default for Config {
    /// One profile, `local`, for a service on this machine, and it is active.
    fn default() -> (r: Self)
        ensures
            r.profiles@.len() == 1,
            r.profiles@[0].name@ == "local"@,
            r.profiles@[0].address@ == "localhost:7233"@,
            r.profiles@[0].namespace@ == "default"@,
            r.profiles@[0].tls is None,
            r.profiles@[0].api_key is None,
            r.active_profile matches Some(n) && n@ == "local"@,
    {
        let profile = ConnectionProfile {
            name: String::from_str("local"),
            address: String::from_str("localhost:7233"),
            namespace: String::from_str("default"),
            tls: None,
            api_key: None,
        };
        let mut profiles: Vec<ConnectionProfile> = Vec::new();
        profiles.push(profile);
        Config { profiles, active_profile: Some(String::from_str("local")) }
    }
}

} // verus!
