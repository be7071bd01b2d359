//! The sound bank: named sound-effect paths with a `default_` fallback.

use vstd::prelude::*;

verus! {

/// The path registered for `name`: the first entry whose key matches.
pub open spec fn lookup(entries: Seq<(String, String)>, name: Seq<char>) -> Option<Seq<char>>
    decreases entries.len(),
{
    if entries.len() == 0 {
        None
    } else if entries[0].0@ == name {
        Some(entries[0].1@)
    } else {
        lookup(entries.drop_first(), name)
    }
}

/// A sound bank mapping sound names to file paths.
#[derive(Debug, Clone, Default)]
pub struct InnerSoundMapState {
    entries: Vec<(String, String)>,
}

impl InnerSoundMapState {
    /// The bank's entries, in lookup order.
    pub closed spec fn view(&self) -> Seq<(String, String)> {
        self.entries@
    }

    /// Build a bank from name/path pairs.
    pub fn with_map(map: Vec<(String, String)>) -> (s: InnerSoundMapState)
        ensures
            s@ == map@,
    {
        InnerSoundMapState { entries: map }
    }

    /// Register a sound path under `name` and under `default_name`,
    /// so the fallback finds it too.
    pub fn insert_with_default(&mut self, name: String, path: String)
        ensures
            final(self)@.len() == old(self)@.len() + 2,
            final(self)@.subrange(0, old(self)@.len() as int) == old(self)@,
            final(self)@[old(self)@.len() as int] == (name, path),
            final(self)@[old(self)@.len() as int + 1].0@ == "default_"@ + name@,
            final(self)@[old(self)@.len() as int + 1].1@ == path@,
    {
        let fallback_key = String::from_str("default_").concat(name.as_str());
        let path2 = path.clone();
        self.entries.push((name, path));
        self.entries.push((fallback_key, path2));
    }

    /// Find the path index for `name` alone.
    fn find(&self, name: &String) -> (r: Option<usize>)
        ensures
            match r {
                Some(i) => i < self@.len() && self@[i as int].0@ == name@ && lookup(
                    self@,
                    name@,
                ) == Some(self@[i as int].1@),
                None => lookup(self@, name@) is None,
            },
    {
        let mut i: usize = 0;
        proof {
            assert(self@.subrange(0, self@.len() as int) =~= self@);
        }
        while i < self.entries.len()
            invariant
                i <= self@.len(),
                lookup(self@, name@) == lookup(self@.subrange(i as int, self@.len() as int), name@),
                forall|j: int| 0 <= j < i ==> self@[j].0@ != name@,
            decreases self@.len() - i,
        {
            proof {
                assert(self@.subrange(i as int, self@.len() as int)[0] == self@[i as int]);
                assert(self@.subrange(i as int, self@.len() as int).drop_first() =~= self@
                    .subrange(i + 1, self@.len() as int));
            }
            if self.entries[i].0.eq(name) {
                return Some(i);
            }
            i += 1;
        }
        None
    }

    /// Get the sound path for `name`, falling back to the entry under
    /// `default_` + `name` when `name` itself is not registered.
    pub fn get_sound_path(&self, sound_name: &String) -> (r: Option<&String>)
        ensures
            match r {
                Some(p) => lookup(self@, sound_name@) == Some(p@) || (lookup(self@, sound_name@)
                    is None && lookup(self@, "default_"@ + sound_name@) == Some(p@)),
                None => lookup(self@, sound_name@) is None && lookup(
                    self@,
                    "default_"@ + sound_name@,
                ) is None,
            },
    {
        match self.find(sound_name) {
            Some(i) => Some(&self.entries[i].1),
            None => {
                let fallback = String::from_str("default_").concat(sound_name.as_str());
                match self.find(&fallback) {
                    Some(i) => Some(&self.entries[i].1),
                    None => None,
                }
            },
        }
    }
}

} // verus!
