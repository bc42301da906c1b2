//! The update configuration: switches, intervals and the public keys of
//! the environments.

use crate::environment::Environment;
use crate::text::same_text;
use vstd::prelude::*;
use vstd::string::*;

verus! {

/// The minutes between two checks unless configured otherwise.
pub const DEFAULT_CHECK_INTERVAL_MINUTES: u32 = 60;

/// The number of backups kept unless configured otherwise.
pub const DEFAULT_BACKUP_RETENTION_COUNT: u32 = 10;

/// Public keys by the name of their environment. A name has at most one
/// key.
#[derive(Debug)]
pub struct PublicKeys {
    entries: Vec<(String, String)>,
}

/// The names of `entries` are all different.
pub open spec fn names_differ(entries: Seq<(String, String)>) -> bool {
    forall|i: int, j: int|
        0 <= i < entries.len() && 0 <= j < entries.len() && i != j ==> entries[i].0@
            != entries[j].0@
}

/// `entries` holds `name`.
pub open spec fn holds_name(entries: Seq<(String, String)>, name: Seq<char>) -> bool {
    exists|i: int| 0 <= i < entries.len() && (#[trigger] entries[i]).0@ == name
}

/// The key that stands beside `name` in `entries`.
pub open spec fn key_beside(entries: Seq<(String, String)>, name: Seq<char>) -> Seq<char> {
    let i = choose|i: int| 0 <= i < entries.len() && (#[trigger] entries[i]).0@ == name;
    entries[i].1@
}

impl PublicKeys {
    #[verifier::type_invariant]
    spec fn well_formed(self) -> bool {
        names_differ(self.entries@)
    }

    /// The keys as a map from the name of the environment to the key.
    pub closed spec fn view(&self) -> Map<Seq<char>, Seq<char>> {
        Map::new(
            |name: Seq<char>| holds_name(self.entries@, name),
            |name: Seq<char>| key_beside(self.entries@, name),
        )
    }

    /// No keys at all.
    pub fn new() -> (keys: PublicKeys)
        ensures
            keys@ == Map::<Seq<char>, Seq<char>>::empty(),
    {
        let keys = PublicKeys { entries: Vec::new() };
        assert(keys@ =~= Map::<Seq<char>, Seq<char>>::empty());
        keys
    }

    /// The position of `name` among the entries.
    fn position(&self, name: &str) -> (r: Option<usize>)
        ensures
            match r {
                Some(i) => i < self.entries@.len() && self.entries@[i as int].0@ == name@,
                None => !holds_name(self.entries@, name@),
            },
    {
        let mut i: usize = 0;
        while i < self.entries.len()
            invariant
                i <= self.entries.len(),
                forall|k: int| 0 <= k < i ==> (#[trigger] self.entries@[k]).0@ != name@,
            decreases self.entries.len() - i,
        {
            if same_text(self.entries[i].0.as_str(), name) {
                return Some(i);
            }
            i += 1;
        }
        None
    }

    /// Sets the key of `name`, and returns whether the name had a key
    /// before.
    pub fn insert(&mut self, name: String, key: String) -> (replaced: bool)
        ensures
            final(self)@ == old(self)@.insert(name@, key@),
            replaced == old(self)@.contains_key(name@),
    {
        proof {
            use_type_invariant(&*self);
        }
        let ghost before = self.entries@;
        let ghost n = name@;
        let ghost k = key@;
        match self.position(name.as_str()) {
            Some(i) => {
                let mut entries = Vec::new();
                std::mem::swap(&mut entries, &mut self.entries);
                entries.set(i, (name, key));
                let ghost after = entries@;
                proof {
                    assert forall|x: int, y: int|
                        0 <= x < after.len() && 0 <= y < after.len() && x != y implies after[x].0@
                        != after[y].0@ by {
                        assert(after[x].0@ == before[x].0@);
                        assert(after[y].0@ == before[y].0@);
                    }
                }
                self.entries = entries;
                proof {
                    lemma_replaced(before, after, i as int, n, k);
                }
                true
            },
            None => {
                let mut entries = Vec::new();
                std::mem::swap(&mut entries, &mut self.entries);
                entries.push((name, key));
                let ghost after = entries@;
                self.entries = entries;
                proof {
                    lemma_added(before, after, n, k);
                }
                false
            },
        }
    }

    /// Every name with its key, each name once.
    pub fn pairs(&self) -> (r: Vec<(String, String)>)
        ensures
            names_differ(r@),
            forall|i: int|
                0 <= i < r@.len() ==> self@.contains_key((#[trigger] r@[i]).0@) && self@[r@[i].0@]
                    == r@[i].1@,
            forall|name: Seq<char>| self@.contains_key(name) ==> holds_name(r@, name),
    {
        proof {
            use_type_invariant(self);
        }
        let mut r: Vec<(String, String)> = Vec::new();
        let mut i: usize = 0;
        while i < self.entries.len()
            invariant
                i <= self.entries.len(),
                r@ == self.entries@.take(i as int),
            decreases self.entries.len() - i,
        {
            let name = self.entries[i].0.clone();
            let key = self.entries[i].1.clone();
            r.push((name, key));
            assert(r@ =~= self.entries@.take(i + 1));
            i += 1;
        }
        proof {
            assert(r@ =~= self.entries@);
            assert forall|k: int| 0 <= k < r@.len() implies self@.contains_key(
                (#[trigger] r@[k]).0@,
            ) && self@[r@[k].0@] == r@[k].1@ by {
                lemma_key_found(self.entries@, k);
            }
        }
        r
    }

    /// The key of `name`, where it has one.
    pub fn get(&self, name: &str) -> (r: Option<&String>)
        ensures
            match r {
                Some(key) => self@.contains_key(name@) && self@[name@] == key@,
                None => !self@.contains_key(name@),
            },
    {
        proof {
            use_type_invariant(self);
        }
        match self.position(name) {
            Some(i) => {
                proof {
                    lemma_key_found(self.entries@, i as int);
                }
                Some(&self.entries[i].1)
            },
            None => None,
        }
    }
}

/// Among entries with different names, the key beside the name of entry
/// `i` is the key of entry `i`.
proof fn lemma_key_found(entries: Seq<(String, String)>, i: int)
    requires
        names_differ(entries),
        0 <= i < entries.len(),
    ensures
        holds_name(entries, entries[i].0@),
        key_beside(entries, entries[i].0@) == entries[i].1@,
{
    let name = entries[i].0@;
    assert(holds_name(entries, name));
    let found = choose|f: int| 0 <= f < entries.len() && (#[trigger] entries[f]).0@ == name;
    assert(found == i);
}

proof fn lemma_replaced(
    before: Seq<(String, String)>,
    after: Seq<(String, String)>,
    i: int,
    name: Seq<char>,
    key: Seq<char>,
)
    requires
        names_differ(before),
        names_differ(after),
        0 <= i < before.len(),
        before[i].0@ == name,
        after.len() == before.len(),
        after[i].0@ == name,
        after[i].1@ == key,
        forall|x: int| 0 <= x < before.len() && x != i ==> after[x] == before[x],
    ensures
        Map::new(|n: Seq<char>| holds_name(after, n), |n: Seq<char>| key_beside(after, n))
            == Map::new(
            |n: Seq<char>| holds_name(before, n),
            |n: Seq<char>| key_beside(before, n),
        ).insert(name, key),
{
    let old_map = Map::new(
        |n: Seq<char>| holds_name(before, n),
        |n: Seq<char>| key_beside(before, n),
    );
    let new_map = Map::new(
        |n: Seq<char>| holds_name(after, n),
        |n: Seq<char>| key_beside(after, n),
    );
    assert forall|n: Seq<char>| holds_name(after, n) <==> (holds_name(before, n) || n
        == name) by {
        if holds_name(after, n) {
            let x = choose|x: int| 0 <= x < after.len() && (#[trigger] after[x]).0@ == n;
            if x != i {
                assert(before[x].0@ == n);
            }
        }
        if holds_name(before, n) {
            let x = choose|x: int| 0 <= x < before.len() && (#[trigger] before[x]).0@ == n;
            assert(after[x].0@ == n);
        }
        if n == name {
            assert(after[i].0@ == n);
        }
    }
    assert forall|n: Seq<char>| holds_name(after, n) implies key_beside(after, n) == (if n
        == name {
        key
    } else {
        key_beside(before, n)
    }) by {
        let x = choose|x: int| 0 <= x < after.len() && (#[trigger] after[x]).0@ == n;
        lemma_key_found(after, x);
        if n != name {
            assert(before[x] == after[x]);
            lemma_key_found(before, x);
        } else {
            assert(x == i);
        }
    }
    assert(new_map =~= old_map.insert(name, key));
}

proof fn lemma_added(
    before: Seq<(String, String)>,
    after: Seq<(String, String)>,
    name: Seq<char>,
    key: Seq<char>,
)
    requires
        names_differ(before),
        !holds_name(before, name),
        after.len() == before.len() + 1,
        after[before.len() as int].0@ == name,
        after[before.len() as int].1@ == key,
        forall|x: int| 0 <= x < before.len() ==> after[x] == before[x],
    ensures
        names_differ(after),
        Map::new(|n: Seq<char>| holds_name(after, n), |n: Seq<char>| key_beside(after, n))
            == Map::new(
            |n: Seq<char>| holds_name(before, n),
            |n: Seq<char>| key_beside(before, n),
        ).insert(name, key),
{
    let last = before.len() as int;
    assert forall|x: int, y: int|
        0 <= x < after.len() && 0 <= y < after.len() && x != y implies after[x].0@
        != after[y].0@ by {
        if x < last && y < last {
            assert(after[x] == before[x] && after[y] == before[y]);
        } else if x < last {
            assert(after[x] == before[x]);
        } else {
            assert(after[y] == before[y]);
        }
    }
    let old_map = Map::new(
        |n: Seq<char>| holds_name(before, n),
        |n: Seq<char>| key_beside(before, n),
    );
    let new_map = Map::new(
        |n: Seq<char>| holds_name(after, n),
        |n: Seq<char>| key_beside(after, n),
    );
    assert forall|n: Seq<char>| holds_name(after, n) <==> (holds_name(before, n) || n
        == name) by {
        if holds_name(after, n) {
            let x = choose|x: int| 0 <= x < after.len() && (#[trigger] after[x]).0@ == n;
            if x != last {
                assert(before[x].0@ == n);
            }
        }
        if holds_name(before, n) {
            let x = choose|x: int| 0 <= x < before.len() && (#[trigger] before[x]).0@ == n;
            assert(after[x].0@ == n);
        }
        if n == name {
            assert(after[last].0@ == n);
        }
    }
    assert forall|n: Seq<char>| holds_name(after, n) implies key_beside(after, n) == (if n
        == name {
        key
    } else {
        key_beside(before, n)
    }) by {
        let x = choose|x: int| 0 <= x < after.len() && (#[trigger] after[x]).0@ == n;
        lemma_key_found(after, x);
        if n != name {
            assert(x != last);
            assert(before[x] == after[x]);
            lemma_key_found(before, x);
        } else {
            assert(x == last);
        }
    }
    assert(new_map =~= old_map.insert(name, key));
}

/// The update configuration.
#[derive(Debug)]
pub struct UpdateConfiguration {
    /// Whether updates are looked for at all.
    pub updates_enabled: bool,
    /// Whether checks run by themselves.
    pub auto_check_enabled: bool,
    /// Whether an update waits for the user's consent.
    pub requires_manual_approval: bool,
    /// Whether a backup is written before an update.
    pub backup_enabled: bool,
    /// The public keys, by the name of the environment.
    pub public_keys: PublicKeys,
    /// The minutes between two checks.
    pub check_interval_minutes: u32,
    /// The number of backups that are kept.
    pub backup_retention_count: u32,
}

/// Why a configuration is refused; `None` where it is valid.
pub open spec fn configuration_fault(config: UpdateConfiguration) -> Option<Seq<char>> {
    if config.check_interval_minutes == 0 {
        Some("Check interval must be greater than 0"@)
    } else if config.backup_retention_count == 0 {
        Some("Backup retention count must be greater than 0"@)
    } else if config.updates_enabled && !(config.public_keys@.contains_key("production"@)
        && config.public_keys@["production"@].len() > 0) {
        Some("Production public key is required when updates are enabled"@)
    } else {
        None
    }
}

impl Default for UpdateConfiguration {
    /// The configuration that every environment starts from, with all
    /// three public keys left empty.
    fn default() -> (config: UpdateConfiguration)
        ensures
            config.updates_enabled,
            config.auto_check_enabled,
            config.requires_manual_approval,
            config.backup_enabled,
            config.check_interval_minutes == 60,
            config.backup_retention_count == 10,
            config.public_keys@ == Map::<Seq<char>, Seq<char>>::empty().insert(
                "production"@,
                Seq::<char>::empty(),
            ).insert("staging"@, Seq::<char>::empty()).insert(
                "development"@,
                Seq::<char>::empty(),
            ),
    {
        UpdateConfiguration::with_public_keys(String::new(), String::new(), String::new())
    }
}

impl UpdateConfiguration {
    /// The configuration that every environment starts from, with the
    /// given public keys: everything is switched on, checks run every hour
    /// and ten backups are kept. A key that is not set is left empty.
    pub fn with_public_keys(
        production: String,
        staging: String,
        development: String,
    ) -> (config: UpdateConfiguration)
        ensures
            config.updates_enabled,
            config.auto_check_enabled,
            config.requires_manual_approval,
            config.backup_enabled,
            config.check_interval_minutes == 60,
            config.backup_retention_count == 10,
            config.public_keys@ == Map::<Seq<char>, Seq<char>>::empty().insert(
                "production"@,
                production@,
            ).insert("staging"@, staging@).insert("development"@, development@),
    {
        let mut public_keys = PublicKeys::new();
        public_keys.insert(String::from_str("production"), production);
        public_keys.insert(String::from_str("staging"), staging);
        public_keys.insert(String::from_str("development"), development);
        UpdateConfiguration {
            updates_enabled: true,
            auto_check_enabled: true,
            requires_manual_approval: true,
            backup_enabled: true,
            public_keys,
            check_interval_minutes: DEFAULT_CHECK_INTERVAL_MINUTES,
            backup_retention_count: DEFAULT_BACKUP_RETENTION_COUNT,
        }
    }

    /// The public key of `env`, where one is set and not empty.
    pub fn get_public_key_for_environment(&self, env: Environment) -> (r: Option<&String>)
        ensures
            match r {
                Some(key) => self.public_keys@.contains_key(env.name_text())
                    && self.public_keys@[env.name_text()] == key@ && key@.len() > 0,
                None => !self.public_keys@.contains_key(env.name_text())
                    || self.public_keys@[env.name_text()].len() == 0,
            },
    {
        match self.public_keys.get(env.name()) {
            Some(key) => {
                if key.as_str().is_empty() {
                    None
                } else {
                    Some(key)
                }
            },
            None => None,
        }
    }

    /// `base` with the switches set as `env` wants them: checks run by
    /// themselves only on Production, and only Development installs
    /// without the user's consent. Backups stay on everywhere.
    pub fn for_environment(
        env: Environment,
        base: UpdateConfiguration,
    ) -> (config: UpdateConfiguration)
        ensures
            config.auto_check_enabled == (env == Environment::Production),
            config.requires_manual_approval == (env != Environment::Development),
            config.backup_enabled == (env == Environment::Development || base.backup_enabled),
            config.updates_enabled == base.updates_enabled,
            config.public_keys == base.public_keys,
            config.check_interval_minutes == base.check_interval_minutes,
            config.backup_retention_count == base.backup_retention_count,
    {
        let mut config = base;
        match env {
            Environment::Production => {
                config.auto_check_enabled = true;
                config.requires_manual_approval = true;
            },
            Environment::Staging => {
                config.auto_check_enabled = false;
                config.requires_manual_approval = true;
            },
            Environment::Development => {
                config.auto_check_enabled = false;
                config.requires_manual_approval = false;
                config.backup_enabled = true;
            },
        }
        config
    }

    /// Checks the configuration: the check interval and the number of
    /// backups to keep must not be zero, and with updates enabled the
    /// production public key must be set and not empty.
    pub fn validate(&self) -> (r: Result<(), String>)
        ensures
            match configuration_fault(*self) {
                None => r is Ok,
                Some(fault) => r matches Err(message) && message@ == fault,
            },
    {
        if self.check_interval_minutes == 0 {
            return Err(String::from_str("Check interval must be greater than 0"));
        }
        if self.backup_retention_count == 0 {
            return Err(String::from_str("Backup retention count must be greater than 0"));
        }
        if self.updates_enabled {
            let missing = match self.public_keys.get("production") {
                Some(key) => key.as_str().is_empty(),
                None => true,
            };
            if missing {
                return Err(
                    String::from_str(
                        "Production public key is required when updates are enabled",
                    ),
                );
            }
        }
        Ok(())
    }
}

} // verus!
