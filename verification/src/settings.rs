//! A small verified string-to-string mapping.
//!
//! It records the option names and values that the builder accumulates
//! and that the settings handles have pushed into the native engine.
//! Entries are appended in call order and a later entry for the same
//! name wins, which is exactly how repeated native `set` calls behave;
//! the abstract view is therefore an ordinary map.

use vstd::prelude::*;

use crate::text::str_eq;

verus! {

/// The map described by a sequence of key/value entries where a later
/// entry for the same key overrides an earlier one.
pub open spec fn pairs_view(s: Seq<(String, String)>) -> Map<Seq<char>, Seq<char>>
    decreases s.len(),
{
    if s.len() == 0 {
        Map::empty()
    } else {
        pairs_view(s.drop_last()).insert(s.last().0@, s.last().1@)
    }
}

/// The mathematical state of a settings handle: the native handle it
/// stands for, whether this handle still owes the release of the native
/// resource, and the settings pushed into it so far.  `needs_delete` is
/// true from allocation until ownership of the native resource is
/// transferred into a converter or an attached object; from then on the
/// native engine releases the resource and this handle must not.
pub struct SettingsHandleView {
    pub handle: usize,
    pub needs_delete: bool,
    pub applied: Map<Seq<char>, Seq<char>>,
}

/// A string-to-string mapping kept as the sequence of assignments made
/// to it, viewed as the map where the latest assignment to a name wins.
#[derive(Debug)]
pub struct SettingsMap {
    pairs: Vec<(String, String)>,
}

impl View for SettingsMap {
    type V = Map<Seq<char>, Seq<char>>;

    closed spec fn view(&self) -> Map<Seq<char>, Seq<char>> {
        pairs_view(self.pairs@)
    }
}

impl SettingsMap {
    /// An empty mapping.
    pub fn new() -> (m: SettingsMap)
        ensures
            m@ == Map::<Seq<char>, Seq<char>>::empty(),
    {
        SettingsMap { pairs: Vec::new() }
    }

    /// Assign `value` to `name`, overriding any earlier assignment.
    pub fn insert(&mut self, name: String, value: String)
        ensures
            final(self)@ == old(self)@.insert(name@, value@),
    {
        let ghost gname = name@;
        let ghost gvalue = value@;
        self.pairs.push((name, value));
        proof {
            assert(self.pairs@.drop_last() =~= old(self).pairs@);
            assert(self.pairs@.last().0@ == gname);
            assert(self.pairs@.last().1@ == gvalue);
        }
    }

    /// Look up the current value of `name`.
    pub fn get(&self, name: &str) -> (r: Option<&String>)
        ensures
            self@.contains_key(name@) ==> (r matches Some(v) && v@ == self@[name@]),
            !self@.contains_key(name@) ==> r is None,
    {
        let n = self.pairs.len();
        let mut found: Option<usize> = None;
        let mut i: usize = 0;
        while i < n
            invariant
                i <= n,
                n == self.pairs@.len(),
                match found {
                    Some(j) => {
                        &&& j < i
                        &&& pairs_view(self.pairs@.take(i as int)).contains_key(name@)
                        &&& self.pairs@[j as int].0@ == name@
                        &&& self.pairs@[j as int].1@ == pairs_view(self.pairs@.take(i as int))[name@]
                    },
                    None => !pairs_view(self.pairs@.take(i as int)).contains_key(name@),
                },
            decreases n - i,
        {
            proof {
                assert(self.pairs@.take(i + 1).drop_last() =~= self.pairs@.take(i as int));
                assert(self.pairs@.take(i + 1).last() == self.pairs@[i as int]);
            }
            if str_eq(self.pairs[i].0.as_str(), name) {
                found = Some(i);
            }
            i += 1;
        }
        proof {
            assert(self.pairs@.take(n as int) =~= self.pairs@);
        }
        match found {
            Some(j) => Some(&self.pairs[j].1),
            None => None,
        }
    }

    /// The assignments in the order they were made; their latest-wins
    /// reading is exactly this mapping's view.  An unverified shell
    /// replays them in this order against the native engine, which
    /// applies the same override rule.
    pub fn entries(&self) -> (v: &Vec<(String, String)>)
        ensures
            pairs_view(v@) == self@,
    {
        &self.pairs
    }
}

} // verus!
