//! A plain model of the JSON-like configuration data the launcher reads.
//!
//! Configuration sections arrive as loosely typed trees; the merging logic
//! only ever asks whether a node is null, a boolean, an unsigned integer, a
//! string, or an object, and looks members up by key. `ConfigValue` holds
//! exactly those shapes as plain values; everything else (floats, negative
//! numbers, arrays) is `Other`, which every accessor rejects.

use vstd::prelude::*;
use crate::text::str_eq;

verus! {

/// A loosely typed configuration tree node.
pub enum ConfigValue {
    /// An explicit null
    Null,
    /// A boolean
    Bool(bool),
    /// A non-negative integer that fits in a `u64`
    UInt(u64),
    /// A string
    Text(String),
    /// An object: key/value members, first match wins on lookup
    Object(Vec<(String, ConfigValue)>),
    /// Anything the configuration logic has no use for
    Other,
}

impl ConfigValue {
    /// The first member of `entries` whose key reads `key`, if any.
    pub open spec fn spec_lookup(
        entries: Seq<(String, ConfigValue)>,
        key: Seq<char>,
    ) -> Option<ConfigValue>
        decreases entries.len(),
    {
        if entries.len() == 0 {
            None
        } else if entries[0].0@ == key {
            Some(entries[0].1)
        } else {
            Self::spec_lookup(entries.drop_first(), key)
        }
    }

    /// The member named `key` of an object node; `None` on any other node.
    pub open spec fn spec_get(self, key: Seq<char>) -> Option<ConfigValue> {
        match self {
            ConfigValue::Object(entries) => Self::spec_lookup(entries@, key),
            _ => None,
        }
    }

    /// The string a text node holds; `None` on any other node.
    pub open spec fn spec_as_str(self) -> Option<String> {
        match self {
            ConfigValue::Text(s) => Some(s),
            _ => None,
        }
    }

    /// The boolean a boolean node holds; `None` on any other node.
    pub open spec fn spec_as_bool(self) -> Option<bool> {
        match self {
            ConfigValue::Bool(b) => Some(b),
            _ => None,
        }
    }

    /// The integer an unsigned-integer node holds; `None` on any other node.
    pub open spec fn spec_as_u64(self) -> Option<u64> {
        match self {
            ConfigValue::UInt(n) => Some(n),
            _ => None,
        }
    }

    /// Look a member up by key on an object node.
    pub fn get<'a>(&'a self, key: &str) -> (r: Option<&'a ConfigValue>)
        ensures
            (r matches Some(v) ==> self.spec_get(key@) == Some(*v)),
            (r is None ==> self.spec_get(key@) is None),
    {
        match self {
            ConfigValue::Object(entries) => {
                let n = entries.len();
                let mut i: usize = 0;
                proof {
                    assert(entries@.skip(0) =~= entries@);
                }
                while i < n
                    invariant
                        i <= n,
                        n == entries@.len(),
                        self.spec_get(key@) == Self::spec_lookup(entries@.skip(i as int), key@),
                    decreases n - i,
                {
                    let entry = &entries[i];
                    if str_eq(entry.0.as_str(), key) {
                        proof {
                            assert(entries@.skip(i as int)[0] == entries@[i as int]);
                        }
                        return Some(&entry.1);
                    }
                    proof {
                        assert(entries@.skip(i as int)[0] == entries@[i as int]);
                        assert(entries@.skip(i as int).drop_first() =~= entries@.skip(i as int + 1));
                    }
                    i += 1;
                }
                proof {
                    assert(entries@.skip(n as int) =~= Seq::<(String, ConfigValue)>::empty());
                }
                None
            },
            _ => None,
        }
    }

    /// The string this node holds, if it is a text node.
    pub fn as_str(&self) -> (r: Option<&String>)
        ensures
            (r matches Some(s) ==> self.spec_as_str() == Some(*s)),
            (r is None ==> self.spec_as_str() is None),
    {
        match self {
            ConfigValue::Text(s) => Some(s),
            _ => None,
        }
    }

    /// The boolean this node holds, if it is a boolean node.
    pub fn as_bool(&self) -> (r: Option<bool>)
        ensures
            r == self.spec_as_bool(),
    {
        match self {
            ConfigValue::Bool(b) => Some(*b),
            _ => None,
        }
    }

    /// The integer this node holds, if it is an unsigned-integer node.
    pub fn as_u64(&self) -> (r: Option<u64>)
        ensures
            r == self.spec_as_u64(),
    {
        match self {
            ConfigValue::UInt(n) => Some(*n),
            _ => None,
        }
    }

    /// Whether this node is an explicit null.
    pub fn is_null(&self) -> (r: bool)
        ensures
            r == (self is Null),
    {
        match self {
            ConfigValue::Null => true,
            _ => false,
        }
    }
}

} // verus!
