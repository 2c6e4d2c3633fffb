use vstd::prelude::*;
use vstd::hash_map::StringHashMap;

verus! {

/// A string that may be absent, by its view.
pub open spec fn option_view(value: Option<String>) -> Option<Seq<char>> {
    match value {
        Some(v) => Some(v@),
        None => None,
    }
}

/// The label mapping of a cluster object: string keys, each with one string value.
///
/// Its view is the mathematical map from key to value.
pub struct Labels {
    entries: StringHashMap<String>,
}

impl View for Labels {
    type V = Map<Seq<char>, Seq<char>>;

    closed spec fn view(&self) -> Map<Seq<char>, Seq<char>> {
        Map::new(
            |k: Seq<char>| self.entries@.contains_key(k),
            |k: Seq<char>| self.entries@[k]@,
        )
    }
}

impl Labels {
    /// A mapping without any label.
    pub fn new() -> (labels: Labels)
        ensures
            labels@ == Map::<Seq<char>, Seq<char>>::empty(),
    {
        Labels { entries: StringHashMap::new() }
    }

    /// Sets `key` to `value`, whether or not the key was there before.
    pub fn insert(&mut self, key: String, value: String)
        ensures
            final(self)@ == old(self)@.insert(key@, value@),
    {
        self.entries.insert(key, value);
    }

    /// The value of `key`, if the mapping has one.
    pub fn get(&self, key: &str) -> (value: Option<&String>)
        ensures
            match value {
                Some(v) => self@.contains_key(key@) && self@[key@] == v@,
                None => !self@.contains_key(key@),
            },
    {
        self.entries.get(key)
    }
}

} // verus!
