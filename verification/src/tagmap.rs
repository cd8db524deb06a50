//! Static mapping between field-protocol tag identifiers and external
//! equipment identifiers, loaded once at startup from the mapping resource
//! and never mutated. The protocol tag id is the lookup key; when the
//! resource lists one tag twice, the entry listed last wins, as a map built
//! by inserting the entries in order would have it.

use vstd::prelude::*;

verus! {

/// One row of the mapping resource.
#[derive(Clone, Debug)]
pub struct MappingEntry {
    pub external_id: String,
    pub scada_tag_candidate: String,
}

/// The loaded mapping: entries in resource order.
pub struct TagMap {
    entries: Vec<MappingEntry>,
}

/// The external id the mapping assigns to `tag`: that of the last entry
/// whose tag matches, or nothing.
pub open spec fn spec_lookup(s: Seq<MappingEntry>, tag: Seq<char>) -> Option<Seq<char>>
    decreases s.len(),
{
    if s.len() == 0 {
        None
    } else if s.last().scada_tag_candidate@ == tag {
        Some(s.last().external_id@)
    } else {
        spec_lookup(s.drop_last(), tag)
    }
}

impl View for TagMap {
    type V = Seq<MappingEntry>;

    closed spec fn view(&self) -> Seq<MappingEntry> {
        self.entries@
    }
}

impl TagMap {
    /// Build the mapping from the parsed resource rows, in order.
    pub fn from_entries(entries: Vec<MappingEntry>) -> (r: TagMap)
        ensures
            r@ == entries@,
    {
        TagMap { entries }
    }

    pub fn len(&self) -> (r: usize)
        ensures
            r == self@.len(),
    {
        self.entries.len()
    }

    pub fn entries(&self) -> (r: &Vec<MappingEntry>)
        ensures
            r@ == self@,
    {
        &self.entries
    }

    /// Resolve a protocol tag to its external equipment id.
    pub fn lookup(&self, tag: &String) -> (r: Option<String>)
        ensures
            match r {
                Some(ext) => spec_lookup(self@, tag@) == Some(ext@),
                None => spec_lookup(self@, tag@) is None,
            },
    {
        let n = self.entries.len();
        let mut i: usize = n;
        proof {
            assert(self@.subrange(0, n as int) =~= self@);
        }
        while i > 0
            invariant
                0 <= i <= n,
                n == self@.len(),
                spec_lookup(self@.subrange(0, i as int), tag@) == spec_lookup(self@, tag@),
            decreases i,
        {
            let e = &self.entries[i - 1];
            proof {
                assert(self@.subrange(0, i as int).last() == self@[i - 1]);
                assert(self@.subrange(0, i as int).drop_last() =~= self@.subrange(0, i - 1));
            }
            if e.scada_tag_candidate == *tag {
                return Some(e.external_id.clone());
            }
            i = i - 1;
        }
        proof {
            assert(self@.subrange(0, 0) =~= Seq::<MappingEntry>::empty());
        }
        None
    }
}

} // verus!
