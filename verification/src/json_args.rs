//! The arguments of a JSON-RPC call, as the server reads them.
//!
//! A JSON object becomes a `ToolArgs`: its members in order, each value kept
//! as what the server can read from it. A string stays a string, a
//! non-negative integer that fits in 64 bits becomes `UInt`, a boolean stays a
//! boolean, a nested object stays an object, and every other value (null,
//! negative or fractional numbers, arrays, larger integers) is `Other`. Reading
//! a member of any JSON value that is not an object finds nothing, so such a
//! value is held as an empty `ToolArgs`.
use vstd::prelude::*;

verus! {

/// What the server can read from one JSON value.
pub enum ArgValue {
    Str(String),
    UInt(u64),
    Bool(bool),
    Object(ToolArgs),
    Other,
}

/// The members of a JSON object, in order.
pub struct ToolArgs {
    pub entries: Vec<(String, ArgValue)>,
}

/// The value of the first member named `key`, if any.
pub open spec fn lookup_arg(entries: Seq<(String, ArgValue)>, key: Seq<char>) -> Option<ArgValue>
    decreases entries.len(),
{
    if entries.len() == 0 {
        None
    } else if entries[0].0@ == key {
        Some(entries[0].1)
    } else {
        lookup_arg(entries.drop_first(), key)
    }
}

/// The view of an optional string.
pub open spec fn opt_str(o: Option<String>) -> Option<Seq<char>> {
    match o {
        Some(s) => Some(s@),
        None => None,
    }
}

impl ToolArgs {
    /// The value of member `key`.
    pub open spec fn arg(self, key: Seq<char>) -> Option<ArgValue> {
        lookup_arg(self.entries@, key)
    }

    /// Member `key` read as a string (`as_str`).
    pub open spec fn str_arg(self, key: Seq<char>) -> Option<Seq<char>> {
        match self.arg(key) {
            Some(ArgValue::Str(s)) => Some(s@),
            _ => None,
        }
    }

    /// Member `key` read as an unsigned integer (`as_u64`).
    pub open spec fn u64_arg(self, key: Seq<char>) -> Option<u64> {
        match self.arg(key) {
            Some(ArgValue::UInt(n)) => Some(n),
            _ => None,
        }
    }

    /// Member `key` read as a boolean (`as_bool`).
    pub open spec fn bool_arg(self, key: Seq<char>) -> Option<bool> {
        match self.arg(key) {
            Some(ArgValue::Bool(b)) => Some(b),
            _ => None,
        }
    }

    /// Member `key` read as an object; any other value reads as no members.
    pub open spec fn object_arg(self, key: Seq<char>) -> Seq<(String, ArgValue)> {
        match self.arg(key) {
            Some(ArgValue::Object(a)) => a.entries@,
            _ => Seq::empty(),
        }
    }

    /// An object without members.
    pub fn new() -> (r: ToolArgs)
        ensures
            r.entries@.len() == 0,
    {
        ToolArgs { entries: Vec::new() }
    }

    /// The position of the first member named `key`.
    fn find(&self, key: &str) -> (r: Option<usize>)
        ensures
            match r {
                Some(i) => i < self.entries@.len() && self.arg(key@) == Some(self.entries@[i as int].1),
                None => self.arg(key@) is None,
            },
    {
        let k = String::from_str(key);
        let mut i: usize = 0;
        assert(self.entries@.skip(0) =~= self.entries@);
        while i < self.entries.len()
            invariant
                i <= self.entries@.len(),
                k@ == key@,
                self.arg(key@) == lookup_arg(self.entries@.skip(i as int), key@),
            decreases self.entries@.len() - i,
        {
            let ghost rest = self.entries@.skip(i as int);
            assert(rest[0] == self.entries@[i as int]);
            if self.entries[i].0 == k {
                return Some(i);
            }
            assert(rest.drop_first() =~= self.entries@.skip(i + 1));
            i = i + 1;
        }
        None
    }

    /// Member `key` as a string, if it is one.
    pub fn get_str(&self, key: &str) -> (r: Option<String>)
        ensures
            opt_str(r) == self.str_arg(key@),
    {
        match self.find(key) {
            Some(i) => match &self.entries[i].1 {
                ArgValue::Str(s) => Some(s.clone()),
                _ => None,
            },
            None => None,
        }
    }

    /// Member `key` as an unsigned integer, if it is one.
    pub fn get_u64(&self, key: &str) -> (r: Option<u64>)
        ensures
            r == self.u64_arg(key@),
    {
        match self.find(key) {
            Some(i) => match &self.entries[i].1 {
                ArgValue::UInt(n) => Some(*n),
                _ => None,
            },
            None => None,
        }
    }

    /// Member `key` as a boolean, if it is one.
    pub fn get_bool(&self, key: &str) -> (r: Option<bool>)
        ensures
            r == self.bool_arg(key@),
    {
        match self.find(key) {
            Some(i) => match &self.entries[i].1 {
                ArgValue::Bool(b) => Some(*b),
                _ => None,
            },
            None => None,
        }
    }

    /// Takes member `key` as an object; any other value gives no members.
    pub fn into_object(self, key: &str) -> (r: ToolArgs)
        ensures
            r.entries@ == self.object_arg(key@),
    {
        match self.find(key) {
            Some(i) => {
                let mut entries = self.entries;
                let (_, v) = entries.remove(i);
                match v {
                    ArgValue::Object(a) => a,
                    _ => ToolArgs::new(),
                }
            },
            None => ToolArgs::new(),
        }
    }
}

} // verus!
