//! The validated configuration that client assembly consumes.
//!
//! The surrounding program parses the configuration document and hands the
//! library these plain values: one server endpoint descriptor and, per
//! configured plugin instance, a raw key/value table that the plugin's
//! constructor interprets.

use vstd::prelude::*;

verus! {

/// One value of a raw plugin configuration table.
pub enum ConfigValue {
    Text(String),
    Integer(i64),
    Boolean(bool),
}

/// A raw plugin configuration table: keys with plain values, interpreted by
/// whichever plugin type's constructor consumes it.
pub struct ConfigTable {
    pub entries: Vec<(String, ConfigValue)>,
}

/// The first value bound to `key`, or `None` when no entry has that key.
pub open spec fn table_lookup(entries: Seq<(String, ConfigValue)>, key: Seq<char>) -> Option<
    ConfigValue,
>
    decreases entries.len(),
{
    if entries.len() == 0 {
        None
    } else if entries[0].0@ == key {
        Some(entries[0].1)
    } else {
        table_lookup(entries.skip(1), key)
    }
}

impl ConfigTable {
    pub open spec fn spec_get(self, key: Seq<char>) -> Option<ConfigValue> {
        table_lookup(self.entries@, key)
    }

    /// The text bound to `key`, or `None` when the key is absent or bound
    /// to a non-text value.
    pub open spec fn spec_text(self, key: Seq<char>) -> Option<Seq<char>> {
        match self.spec_get(key) {
            Some(ConfigValue::Text(s)) => Some(s@),
            _ => None,
        }
    }

    /// The text bound to `key`, cloned, or `None` when the key is absent or
    /// bound to a non-text value.
    pub fn get_text(&self, key: &String) -> (r: Option<String>)
        ensures
            match r {
                Some(s) => self.spec_get(key@) == Some(ConfigValue::Text(s)),
                None => !(self.spec_get(key@) matches Some(ConfigValue::Text(_))),
            },
    {
        let n = self.entries.len();
        let mut i: usize = 0;
        proof {
            assert(self.entries@.skip(0) =~= self.entries@);
        }
        while i < n
            invariant
                n == self.entries@.len(),
                i <= n,
                table_lookup(self.entries@, key@) == table_lookup(self.entries@.skip(i as int), key@),
            decreases n - i,
        {
            let ghost rest = self.entries@.skip(i as int);
            proof {
                assert(rest.len() == n - i);
                assert(rest[0] == self.entries@[i as int]);
                assert(rest.skip(1) =~= self.entries@.skip(i + 1));
            }
            if self.entries[i].0.eq(key) {
                proof {
                    assert(rest[0].0@ == key@);
                    assert(table_lookup(rest, key@) == Some(rest[0].1));
                }
                match &self.entries[i].1 {
                    ConfigValue::Text(s) => {
                        return Some(s.clone());
                    },
                    _ => {
                        return None;
                    },
                }
            }
            i = i + 1;
        }
        proof {
            assert(self.entries@.skip(n as int) =~= Seq::<(String, ConfigValue)>::empty());
        }
        None
    }
}

/// The remote-control endpoint: host address, port, optional secret
/// credential.
pub struct ServerOptions {
    pub host: String,
    pub port: u16,
    pub password: Option<String>,
}

/// The validated configuration root: the endpoint plus one raw table per
/// configured plugin instance, keyed by instance name.
pub struct ClientOptions {
    pub server: ServerOptions,
    pub plugins: Vec<(String, ConfigTable)>,
}

impl ClientOptions {
    /// Instance names are unique, as the configuration mapping enforces.
    pub open spec fn wf(self) -> bool {
        forall|i: int, j: int|
            0 <= i < j < self.plugins@.len() ==> self.plugins@[i].0@ != self.plugins@[j].0@
    }
}

} // verus!
