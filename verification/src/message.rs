//! Messages, their properties and their bodies.

use tokio_util::bytes::Bytes;
use vstd::prelude::*;

use crate::outside::bytes_content;

verus! {

// ---------------------------------------------------------------------------
// Properties
// ---------------------------------------------------------------------------

/// A message's properties: names with a text each, no name twice.
pub struct Properties {
    entries: Vec<(String, String)>,
}

/// The position of a name among the entries, if it is there.
spec fn holds_at(entries: Seq<(String, String)>, name: Seq<char>, i: int) -> bool {
    0 <= i < entries.len() && entries[i].0@ == name
}

spec fn no_name_twice(entries: Seq<(String, String)>) -> bool {
    forall|i: int, j: int|
        0 <= i < entries.len() && 0 <= j < entries.len() && #[trigger] entries[i].0@
            == #[trigger] entries[j].0@ ==> i == j
}

spec fn as_map(entries: Seq<(String, String)>) -> Map<Seq<char>, Seq<char>> {
    Map::new(
        |name: Seq<char>| exists|i: int| holds_at(entries, name, i),
        |name: Seq<char>| entries[choose|i: int| holds_at(entries, name, i)].1@,
    )
}

proof fn lemma_entry_in_map(entries: Seq<(String, String)>, i: int)
    requires
        no_name_twice(entries),
        0 <= i < entries.len(),
    ensures
        as_map(entries).contains_key(entries[i].0@),
        as_map(entries)[entries[i].0@] == entries[i].1@,
{
    let name = entries[i].0@;
    assert(holds_at(entries, name, i));
    let j = choose|j: int| holds_at(entries, name, j);
    assert(holds_at(entries, name, j));
    assert(entries[i].0@ == entries[j].0@);
}

impl View for Properties {
    type V = Map<Seq<char>, Seq<char>>;

    closed spec fn view(&self) -> Map<Seq<char>, Seq<char>> {
        as_map(self.entries@)
    }
}

impl Properties {
    #[verifier::type_invariant]
    spec fn names_are_distinct(self) -> bool {
        no_name_twice(self.entries@)
    }

    /// No properties.
    pub fn new() -> (properties: Properties)
        ensures
            properties@ == Map::<Seq<char>, Seq<char>>::empty(),
    {
        let entries: Vec<(String, String)> = Vec::new();
        assert forall|name: Seq<char>| !as_map(entries@).contains_key(name) by {}
        assert(as_map(entries@) =~= Map::<Seq<char>, Seq<char>>::empty());
        Properties { entries }
    }

    /// The position of a name.
    fn position(&self, name: &String) -> (found: Option<usize>)
        ensures
            match found {
                Some(i) => holds_at(self.entries@, name@, i as int),
                None => forall|i: int| !holds_at(self.entries@, name@, i),
            },
    {
        let mut i: usize = 0;
        while i < self.entries.len()
            invariant
                i <= self.entries@.len(),
                forall|j: int| 0 <= j < i ==> !holds_at(self.entries@, name@, j),
            decreases self.entries@.len() - i,
        {
            if self.entries[i].0 == *name {
                return Some(i);
            }
            i += 1;
        }
        None
    }

    /// The text kept under a name.
    pub fn get(&self, name: &String) -> (text: Option<String>)
        ensures
            match text {
                Some(t) => self@.contains_key(name@) && t@ == self@[name@],
                None => !self@.contains_key(name@),
            },
    {
        proof {
            use_type_invariant(self);
        }
        match self.position(name) {
            Some(i) => {
                proof {
                    lemma_entry_in_map(self.entries@, i as int);
                }
                Some(self.entries[i].1.clone())
            },
            None => None,
        }
    }

    /// Keeps a text under a name, in place of what was there.
    pub fn put(&mut self, name: String, text: String)
        ensures
            final(self)@ == old(self)@.insert(name@, text@),
    {
        proof {
            use_type_invariant(&*self);
        }
        let ghost before = self.entries@;
        let ghost (name_text, value_text) = (name@, text@);
        let found = self.position(&name);
        let mut entries: Vec<(String, String)> = Vec::new();
        std::mem::swap(&mut entries, &mut self.entries);
        match found {
            Some(i) => {
                entries.set(i, (name, text));
            },
            None => {
                entries.push((name, text));
            },
        }
        proof {
            let after = entries@;
            assert forall|i: int, j: int|
                0 <= i < after.len() && 0 <= j < after.len() && #[trigger] after[i].0@
                    == #[trigger] after[j].0@ implies i == j by {
                if found is None {
                    assert(i < before.len() ==> !holds_at(before, name_text, i));
                    assert(j < before.len() ==> !holds_at(before, name_text, j));
                }
            }
            let map = as_map(before).insert(name_text, value_text);
            assert forall|key: Seq<char>| as_map(after).contains_key(key) == map.contains_key(key) by {
                if as_map(after).contains_key(key) {
                    let i = choose|i: int| holds_at(after, key, i);
                    if key != name_text {
                        assert(holds_at(before, key, i));
                    }
                }
                if map.contains_key(key) {
                    if key == name_text {
                        if found is None {
                            assert(holds_at(after, key, before.len() as int));
                        } else {
                            assert(holds_at(after, key, found->0 as int));
                        }
                    } else {
                        let i = choose|i: int| holds_at(before, key, i);
                        assert(holds_at(after, key, i));
                    }
                }
            }
            assert forall|key: Seq<char>| as_map(after).contains_key(key) implies as_map(after)[key]
                == map[key] by {
                let i = choose|i: int| holds_at(after, key, i);
                lemma_entry_in_map(after, i);
                if key != name_text {
                    assert(holds_at(before, key, i));
                    lemma_entry_in_map(before, i);
                } else {
                    let p = if found is None { before.len() as int } else { found->0 as int };
                    assert(after[i].0@ == after[p].0@);
                }
            }
            assert(as_map(after) =~= map);
        }
        self.entries = entries;
    }

    /// Forgets a name.
    pub fn remove(&mut self, name: &String)
        ensures
            final(self)@ == old(self)@.remove(name@),
    {
        proof {
            use_type_invariant(&*self);
        }
        let ghost before = self.entries@;
        let found = self.position(name);
        let mut entries: Vec<(String, String)> = Vec::new();
        std::mem::swap(&mut entries, &mut self.entries);
        match found {
            Some(i) => {
                entries.remove(i);
            },
            None => {},
        }
        proof {
            let after = entries@;
            let gone: int = if found is Some {
                found->0 as int
            } else {
                before.len() as int
            };
            assert forall|i: int| 0 <= i < after.len() implies #[trigger] after[i] == before[if i < gone {
                i
            } else {
                i + 1
            }] by {}
            assert forall|i: int, j: int|
                0 <= i < after.len() && 0 <= j < after.len() && #[trigger] after[i].0@
                    == #[trigger] after[j].0@ implies i == j by {
                let p = if i < gone { i } else { i + 1 };
                let q = if j < gone { j } else { j + 1 };
                assert(before[p].0@ == before[q].0@);
            }
            let map = as_map(before).remove(name@);
            assert forall|key: Seq<char>| as_map(after).contains_key(key) == map.contains_key(key) by {
                if as_map(after).contains_key(key) {
                    let i = choose|i: int| holds_at(after, key, i);
                    let p = if i < gone { i } else { i + 1 };
                    assert(holds_at(before, key, p));
                    if key == name@ {
                        assert(before[p].0@ == before[gone].0@);
                    }
                }
                if map.contains_key(key) {
                    let p = choose|p: int| holds_at(before, key, p);
                    assert(p != gone);
                    let i = if p < gone { p } else { p - 1 };
                    assert(after[i] == before[p]);
                    assert(holds_at(after, key, i));
                }
            }
            assert forall|key: Seq<char>| as_map(after).contains_key(key) implies as_map(after)[key]
                == map[key] by {
                let i = choose|i: int| holds_at(after, key, i);
                let p = if i < gone { i } else { i + 1 };
                lemma_entry_in_map(after, i);
                lemma_entry_in_map(before, p);
            }
            assert(as_map(after) =~= map);
        }
        self.entries = entries;
    }

    /// Another value with the same properties.
    pub fn duplicate(&self) -> (copy: Properties)
        ensures
            copy@ == self@,
    {
        proof {
            use_type_invariant(self);
        }
        let mut entries: Vec<(String, String)> = Vec::new();
        let mut i: usize = 0;
        while i < self.entries.len()
            invariant
                i <= self.entries@.len(),
                entries@ == self.entries@.take(i as int),
            decreases self.entries@.len() - i,
        {
            entries.push((self.entries[i].0.clone(), self.entries[i].1.clone()));
            i += 1;
            assert(entries@ =~= self.entries@.take(i as int));
        }
        assert(entries@ =~= self.entries@);
        Properties { entries }
    }

    /// The properties as pairs of name and text, each name once.
    pub fn pairs(&self) -> (pairs: &Vec<(String, String)>)
        ensures
            forall|i: int|
                0 <= i < pairs@.len() ==> self@.contains_key(#[trigger] pairs@[i].0@)
                    && self@[pairs@[i].0@] == pairs@[i].1@,
            forall|name: Seq<char>|
                self@.contains_key(name) ==> exists|i: int|
                    0 <= i < pairs@.len() && #[trigger] pairs@[i].0@ == name,
            forall|i: int, j: int|
                0 <= i < j < pairs@.len() ==> #[trigger] pairs@[i].0@ != #[trigger] pairs@[j].0@,
    {
        proof {
            use_type_invariant(self);
            assert forall|i: int| 0 <= i < self.entries@.len() implies self@.contains_key(
                #[trigger] self.entries@[i].0@,
            ) && self@[self.entries@[i].0@] == self.entries@[i].1@ by {
                lemma_entry_in_map(self.entries@, i);
            }
            assert forall|name: Seq<char>| self@.contains_key(name) implies exists|i: int|
                0 <= i < self.entries@.len() && #[trigger] self.entries@[i].0@ == name by {
                let i = choose|i: int| holds_at(self.entries@, name, i);
                assert(self.entries@[i].0@ == name);
            }
        }
        &self.entries
    }
}

// ---------------------------------------------------------------------------
// Messages
// ---------------------------------------------------------------------------

/// What kind of message the application handed in.
#[derive(Clone, Copy, PartialEq, Eq, Structural, Debug)]
pub enum MessageKind {
    /// One plain message.
    Single,
    /// Several messages packed into one.
    Batch,
    /// A message of the application's own making.
    Other,
}

/// A message on its way to a broker.
pub struct Message {
    pub kind: MessageKind,
    pub topic: String,
    pub flag: i32,
    pub properties: Properties,
    /// The namespace that the message was sent from.
    pub instance_id: Option<String>,
    pub body: Option<Bytes>,
    /// The body in the form in which it travels.
    pub compressed_body: Option<Bytes>,
}

/// What a message says, apart from how it is stored.
#[verifier::ext_equal]
pub struct MessageView {
    pub kind: MessageKind,
    pub topic: Seq<char>,
    pub flag: i32,
    pub properties: Map<Seq<char>, Seq<char>>,
    pub instance_id: Option<Seq<char>>,
    pub body: Option<Seq<u8>>,
    pub compressed_body: Option<Seq<u8>>,
}

/// What an optional buffer holds.
pub open spec fn optional_content(bytes: Option<Bytes>) -> Option<Seq<u8>> {
    match bytes {
        Some(b) => Some(bytes_content(b)),
        None => None,
    }
}

/// What an optional text says.
pub open spec fn optional_text(text: Option<String>) -> Option<Seq<char>> {
    match text {
        Some(t) => Some(t@),
        None => None,
    }
}

impl View for Message {
    type V = MessageView;

    open spec fn view(&self) -> MessageView {
        MessageView {
            kind: self.kind,
            topic: self.topic@,
            flag: self.flag,
            properties: self.properties@,
            instance_id: optional_text(self.instance_id),
            body: optional_content(self.body),
            compressed_body: optional_content(self.compressed_body),
        }
    }
}

fn duplicate_bytes(bytes: &Option<Bytes>) -> (copy: Option<Bytes>)
    ensures
        optional_content(copy) == optional_content(*bytes),
{
    match bytes {
        Some(b) => Some(b.clone()),
        None => None,
    }
}

impl Message {
    /// Another value for the same message.
    pub fn duplicate(&self) -> (copy: Message)
        ensures
            copy@ == self@,
    {
        Message {
            kind: self.kind,
            topic: self.topic.clone(),
            flag: self.flag,
            properties: self.properties.duplicate(),
            instance_id: self.instance_id.clone(),
            body: duplicate_bytes(&self.body),
            compressed_body: duplicate_bytes(&self.compressed_body),
        }
    }
}

/// What a message says is what its fields hold.
pub proof fn law_view_holds_every_field(msg: Message)
    ensures
        msg@.kind == msg.kind,
        msg@.topic == msg.topic@,
        msg@.flag == msg.flag,
        msg@.properties == msg.properties@,
        match (msg.instance_id, msg@.instance_id) {
            (Some(id), Some(shown)) => shown == id@,
            (None, None) => true,
            _ => false,
        },
        match (msg.body, msg@.body) {
            (Some(bytes), Some(shown)) => shown == bytes_content(bytes),
            (None, None) => true,
            _ => false,
        },
        match (msg.compressed_body, msg@.compressed_body) {
            (Some(bytes), Some(shown)) => shown == bytes_content(bytes),
            (None, None) => true,
            _ => false,
        },
{
}

} // verus!
