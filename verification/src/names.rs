//! The table of display names that a listing gathers.

use vstd::prelude::*;

verus! {

/// Display names with the identifier of the device that bears each, in the
/// order in which they were recorded. A name recorded again takes the later
/// identifier.
#[derive(Clone, Debug, PartialEq, Eq)]
pub struct NameTable {
    pub entries: Vec<(String, String)>,
}

/// The mapping from name to identifier that a run of entries stands for.
pub open spec fn mapping_of(entries: Seq<(String, String)>) -> Map<Seq<char>, Seq<char>>
    decreases entries.len(),
{
    if entries.len() == 0 {
        Map::empty()
    } else {
        mapping_of(entries.drop_last()).insert(entries.last().0@, entries.last().1@)
    }
}

impl View for NameTable {
    type V = Map<Seq<char>, Seq<char>>;

    open spec fn view(&self) -> Map<Seq<char>, Seq<char>> {
        mapping_of(self.entries@)
    }
}

impl NameTable {
    /// A table without names.
    pub fn new() -> (out: NameTable)
        ensures
            out@ == Map::<Seq<char>, Seq<char>>::empty(),
            out.entries@.len() == 0,
    {
        NameTable { entries: Vec::new() }
    }

    /// Records that the device `udid` bears the name `name`.
    pub fn record(&mut self, name: String, udid: String)
        ensures
            final(self)@ == old(self)@.insert(name@, udid@),
            final(self).entries@ == old(self).entries@.push((name, udid)),
    {
        self.entries.push((name, udid));
        proof {
            assert(self.entries@.drop_last() =~= old(self).entries@);
        }
    }

    /// The identifier recorded under `name`, if there is one.
    pub fn lookup(&self, name: &str) -> (out: Option<String>)
        ensures
            match out {
                Some(udid) => self@.contains_key(name@) && self@[name@] == udid@,
                None => !self@.contains_key(name@),
            },
    {
        let wanted = String::from_str(name);
        let mut i: usize = self.entries.len();
        proof {
            assert(self.entries@.subrange(0, i as int) =~= self.entries@);
        }
        while i > 0
            invariant
                i <= self.entries.len(),
                wanted@ == name@,
                mapping_of(self.entries@.subrange(0, i as int)).contains_key(name@)
                    == self@.contains_key(name@),
                self@.contains_key(name@) ==> mapping_of(self.entries@.subrange(0, i as int))[name@]
                    == self@[name@],
            decreases i,
        {
            proof {
                assert(self.entries@.subrange(0, i as int).drop_last() =~= self.entries@.subrange(
                    0,
                    i - 1,
                ));
            }
            if self.entries[i - 1].0 == wanted {
                return Some(self.entries[i - 1].1.clone());
            }
            i -= 1;
        }
        None
    }
}

} // verus!
