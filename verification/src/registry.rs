//! The topic registry: a read-only mapping from topic name to topic, built
//! once at startup and shared by every request thereafter.

use vstd::prelude::*;
use crate::net::Topic;

verus! {

/// One registered topic under its name.
pub struct TopicEntry {
    pub name: String,
    pub topic: Topic,
}

/// First-match lookup of a name among the entries.
pub open spec fn find_entry(entries: Seq<TopicEntry>, name: Seq<char>) -> Option<Topic>
    decreases entries.len(),
{
    if entries.len() == 0 {
        None
    } else if entries[0].name@ == name {
        Some(entries[0].topic)
    } else {
        find_entry(entries.drop_first(), name)
    }
}

proof fn lemma_find_entry_push(entries: Seq<TopicEntry>, e: TopicEntry, name: Seq<char>)
    ensures
        find_entry(entries.push(e), name) == if find_entry(entries, name) is Some {
            find_entry(entries, name)
        } else if e.name@ == name {
            Some(e.topic)
        } else {
            None::<Topic>
        },
    decreases entries.len(),
{
    if entries.len() == 0 {
        assert(entries.push(e)[0] == e);
        assert(entries.push(e).drop_first() =~= Seq::<TopicEntry>::empty());
    } else {
        assert(entries.push(e)[0] == entries[0]);
        assert(entries.push(e).drop_first() =~= entries.drop_first().push(e));
        lemma_find_entry_push(entries.drop_first(), e, name);
    }
}

/// The registry. Built once from configuration; only read afterwards.
pub struct TopicRegistry {
    entries: Vec<TopicEntry>,
}

impl TopicRegistry {
    pub closed spec fn entries_seq(self) -> Seq<TopicEntry> {
        self.entries@
    }

    /// The topic registered under this name, if any.
    pub open spec fn lookup(self, name: Seq<char>) -> Option<Topic> {
        find_entry(self.entries_seq(), name)
    }

    pub open spec fn contains_topic(self, name: Seq<char>) -> bool {
        self.lookup(name) is Some
    }

    /// Every registered topic is well formed.
    pub open spec fn wf(self) -> bool {
        forall|i: int|
            0 <= i < self.entries_seq().len() ==> (#[trigger] self.entries_seq()[i]).topic.wf()
    }

    /// An empty registry: no name resolves.
    pub fn new() -> (r: TopicRegistry)
        ensures
            r.wf(),
            forall|name: Seq<char>| r.lookup(name) is None,
    {
        TopicRegistry { entries: Vec::new() }
    }

    /// Resolves a topic name, or reports that no such topic exists.
    pub fn resolve(&self, name: &String) -> (r: Option<&Topic>)
        ensures
            match r {
                Some(t) => self.lookup(name@) == Some(*t) && (self.wf() ==> t.wf()),
                None => self.lookup(name@) is None,
            },
    {
        let n: usize = self.entries.len();
        let mut i: usize = 0;
        proof {
            assert(self.entries@.skip(0) =~= self.entries@);
        }
        while i < n
            invariant
                n == self.entries@.len(),
                i <= n,
                find_entry(self.entries@, name@) == find_entry(
                    self.entries@.skip(i as int),
                    name@,
                ),
            decreases n - i,
        {
            proof {
                assert(self.entries@.skip(i as int)[0] == self.entries@[i as int]);
                assert(self.entries@.skip(i as int).drop_first() =~= self.entries@.skip(
                    i as int + 1,
                ));
            }
            if self.entries[i].name.eq(name) {
                return Some(&self.entries[i].topic);
            }
            i += 1;
        }
        proof {
            assert(self.entries@.skip(n as int) =~= Seq::<TopicEntry>::empty());
        }
        None
    }

    /// Registers a topic under a fresh name; a name already registered is
    /// refused and the registry is left as it was.
    pub fn add_topic(&mut self, name: String, topic: Topic) -> (r: bool)
        requires
            old(self).wf(),
            topic.wf(),
        ensures
            final(self).wf(),
            r == !old(self).contains_topic(name@),
            r ==> final(self).lookup(name@) == Some(topic),
            !r ==> *final(self) == *old(self),
            forall|n: Seq<char>|
                n != name@ ==> final(self).lookup(n) == old(self).lookup(n),
    {
        if self.resolve(&name).is_some() {
            return false;
        }
        proof {
            let entries = self.entries@;
            assert forall|n: Seq<char>| true implies find_entry(entries.push(TopicEntry { name, topic }), n)
                == if find_entry(entries, n) is Some {
                find_entry(entries, n)
            } else if name@ == n {
                Some(topic)
            } else {
                None::<Topic>
            } by {
                lemma_find_entry_push(entries, TopicEntry { name, topic }, n);
            }
        }
        let ghost old_entries = self.entries@;
        self.entries.push(TopicEntry { name, topic });
        proof {
            assert forall|i: int|
                0 <= i < self.entries@.len() implies (#[trigger] self.entries@[i]).topic.wf() by {
                if i < old_entries.len() {
                    assert(self.entries@[i] == old_entries[i]);
                }
            }
        }
        true
    }
}

} // verus!
