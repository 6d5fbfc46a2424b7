//! Nodes of a platform tree and their attributes.

use std::rc::Rc;
use vstd::prelude::*;

verus! {

/// A range of the source text, by byte offsets.
#[derive(Clone, Copy, Debug, PartialEq, Eq, Structural)]
pub struct Span {
    /// Offset of the first byte.
    pub lo: u32,
    /// Offset past the last byte.
    pub hi: u32,
}

/// The value of an attribute.
#[derive(Debug)]
pub enum AttributeValue {
    /// An unsigned number.
    UIntValue(usize),
    /// A string.
    StrValue(String),
    /// A reference to another node, by name.
    RefValue(String),
}

/// An attribute value and where it was written.
#[derive(Debug)]
pub struct Attribute {
    /// The value.
    pub value: AttributeValue,
    /// Where the key was written.
    pub key_span: Span,
    /// Where the value was written.
    pub value_span: Span,
}

impl AttributeValue {
    /// The string, if this is a string value.
    pub open spec fn str_value(self) -> Option<String> {
        match self {
            AttributeValue::StrValue(s) => Some(s),
            _ => None,
        }
    }

    /// The number, if this is an unsigned number.
    pub open spec fn uint_value(self) -> Option<usize> {
        match self {
            AttributeValue::UIntValue(u) => Some(u),
            _ => None,
        }
    }

    /// The name, if this is a reference.
    pub open spec fn ref_value(self) -> Option<String> {
        match self {
            AttributeValue::RefValue(s) => Some(s),
            _ => None,
        }
    }
}

impl Attribute {
    /// An attribute with the given value and places.
    pub fn new(value: AttributeValue, key_span: Span, value_span: Span) -> (r: Attribute)
        ensures
            r.value == value,
            r.key_span == key_span,
            r.value_span == value_span,
    {
        Attribute { value: value, key_span: key_span, value_span: value_span }
    }
}

/// The map that a list of keyed entries stands for: a later entry wins over
/// an earlier one with the same key.
pub open spec fn entries_map(entries: Seq<(String, Attribute)>) -> Map<Seq<char>, Attribute>
    decreases entries.len(),
{
    if entries.len() == 0 {
        Map::empty()
    } else {
        entries_map(entries.drop_last()).insert(entries.last().0@, entries.last().1)
    }
}

/// No key occurs twice.
pub open spec fn distinct_keys(entries: Seq<(String, Attribute)>) -> bool {
    forall|i: int, j: int| 0 <= i < j < entries.len() ==> entries[i].0@ != entries[j].0@
}

/// With distinct keys, the map holds exactly the keys of the entries, each
/// with the attribute of its entry.
pub proof fn lemma_entries_map(entries: Seq<(String, Attribute)>)
    requires
        distinct_keys(entries),
    ensures
        forall|k: Seq<char>| #[trigger]
            entries_map(entries).contains_key(k) <==> exists|i: int|
                0 <= i < entries.len() && (#[trigger] entries[i]).0@ == k,
        forall|i: int|
            0 <= i < entries.len() ==> entries_map(entries)[(#[trigger] entries[i]).0@]
                == entries[i].1,
    decreases entries.len(),
{
    if entries.len() > 0 {
        let front = entries.drop_last();
        lemma_entries_map(front);
        assert forall|k: Seq<char>| #[trigger]
            entries_map(entries).contains_key(k) implies exists|i: int|
            0 <= i < entries.len() && (#[trigger] entries[i]).0@ == k by {
            if k == entries.last().0@ {
                assert(entries[entries.len() - 1].0@ == k);
            } else {
                assert(entries_map(front).contains_key(k));
                let i = choose|i: int| 0 <= i < front.len() && (#[trigger] front[i]).0@ == k;
                assert(entries[i].0@ == k);
            }
        }
        assert forall|k: Seq<char>|
            (exists|i: int|
                0 <= i < entries.len() && (#[trigger] entries[i]).0@ == k) implies #[trigger]
            entries_map(entries).contains_key(k) by {
            let i = choose|i: int| 0 <= i < entries.len() && (#[trigger] entries[i]).0@ == k;
            if i < entries.len() - 1 {
                assert(front[i].0@ == k);
            }
        }
        assert forall|i: int| 0 <= i < entries.len() implies entries_map(entries)[(
        #[trigger] entries[i]).0@] == entries[i].1 by {
            if i < entries.len() - 1 {
                assert(front[i] == entries[i]);
                assert(entries[i].0@ != entries[entries.len() - 1].0@);
            }
        }
    }
}

/// The attributes of a node, by key.
pub struct Attributes {
    entries: Vec<(String, Attribute)>,
}

impl View for Attributes {
    type V = Map<Seq<char>, Attribute>;

    /// The attributes as a map from key to attribute.
    closed spec fn view(&self) -> Map<Seq<char>, Attribute> {
        entries_map(self.entries@)
    }
}

impl Attributes {
    /// No key is held twice.
    #[verifier::type_invariant]
    pub closed spec fn wf(&self) -> bool {
        distinct_keys(self.entries@)
    }

    /// No attributes.
    pub fn new() -> (r: Attributes)
        ensures
            r@ == Map::<Seq<char>, Attribute>::empty(),
    {
        Attributes { entries: Vec::new() }
    }

    /// Index of the entry with the given key.
    fn position(&self, key: &String) -> (r: Option<usize>)
        ensures
            match r {
                Some(i) => i < self.entries@.len() && self.entries@[i as int].0@ == key@,
                None => forall|i: int|
                    0 <= i < self.entries@.len() ==> (#[trigger] self.entries@[i]).0@ != key@,
            },
    {
        let mut i: usize = 0;
        while i < self.entries.len()
            invariant
                i <= self.entries@.len(),
                forall|j: int| 0 <= j < i ==> (#[trigger] self.entries@[j]).0@ != key@,
            decreases self.entries@.len() - i,
        {
            if self.entries[i].0 == *key {
                return Some(i);
            }
            i += 1;
        }
        None
    }

    /// Stores `attr` under `key` and hands back the attribute that the key
    /// had before, if it had one.
    pub fn insert(&mut self, key: String, attr: Attribute) -> (r: Option<Attribute>)
        ensures
            final(self)@ == old(self)@.insert(key@, attr),
            r == if old(self)@.contains_key(key@) {
                Some(old(self)@[key@])
            } else {
                None::<Attribute>
            },
    {
        proof {
            use_type_invariant(&*self);
            lemma_entries_map(self.entries@);
        }
        let ghost before = self.entries@;
        let found = self.position(&key);
        let mut entries: Vec<(String, Attribute)> = Vec::new();
        core::mem::swap(&mut entries, &mut self.entries);
        let previous = match found {
            Some(i) => {
                let entry = entries.remove(i);
                assert(entry == before[i as int]);
                Some(entry.1)
            },
            None => None,
        };
        let ghost rest = entries@;
        entries.push((key, attr));
        proof {
            assert(distinct_keys(rest)) by {
                assert forall|a: int, b: int| 0 <= a < b < rest.len() implies rest[a].0@
                    != rest[b].0@ by {
                    match found {
                        Some(i) => {
                            let a0 = if a < i { a } else { a + 1 };
                            let b0 = if b < i { b } else { b + 1 };
                            assert(rest[a] == before[a0]);
                            assert(rest[b] == before[b0]);
                        },
                        None => {},
                    }
                }
            }
            assert forall|a: int| 0 <= a < rest.len() implies (#[trigger] rest[a]).0@ != key@ by {
                match found {
                    Some(i) => {
                        let a0 = if a < i { a } else { a + 1 };
                        assert(rest[a] == before[a0]);
                    },
                    None => {},
                }
            }
            lemma_entries_map(rest);
            assert(entries@.drop_last() =~= rest);
            assert(entries_map(rest).insert(key@, attr) =~= entries_map(before).insert(
                key@,
                attr,
            )) by {
                assert forall|k: Seq<char>| k != key@ implies (entries_map(rest).contains_key(k)
                    <==> entries_map(before).contains_key(k)) by {
                    if entries_map(rest).contains_key(k) {
                        let a = choose|a: int| 0 <= a < rest.len() && (#[trigger] rest[a]).0@ == k;
                        match found {
                            Some(i) => {
                                let a0 = if a < i { a } else { a + 1 };
                                assert(rest[a] == before[a0]);
                            },
                            None => {},
                        }
                    }
                    if entries_map(before).contains_key(k) {
                        let a = choose|a: int|
                            0 <= a < before.len() && (#[trigger] before[a]).0@ == k;
                        match found {
                            Some(i) => {
                                let a1 = if a < i { a } else { a - 1 };
                                assert(rest[a1] == before[a]);
                            },
                            None => {},
                        }
                    }
                }
                assert forall|k: Seq<char>|
                    k != key@ && entries_map(rest).contains_key(k) implies entries_map(rest)[k]
                    == entries_map(before)[k] by {
                    let a = choose|a: int| 0 <= a < rest.len() && (#[trigger] rest[a]).0@ == k;
                    match found {
                        Some(i) => {
                            let a0 = if a < i { a } else { a + 1 };
                            assert(rest[a] == before[a0]);
                        },
                        None => {},
                    }
                }
            }
        }
        self.entries = entries;
        previous
    }

    /// The attribute stored under `key`.
    pub fn find(&self, key: &str) -> (r: Option<&Attribute>)
        ensures
            match r {
                Some(a) => self@.contains_key(key@) && *a == self@[key@],
                None => !self@.contains_key(key@),
            },
    {
        proof {
            use_type_invariant(self);
            lemma_entries_map(self.entries@);
        }
        let owned: String = key.to_owned();
        match self.position(&owned) {
            Some(i) => Some(&self.entries[i].1),
            None => None,
        }
    }
}

/// A node of the tree.
pub struct Node {
    /// The name by which other nodes refer to this one.
    pub name: Option<String>,
    /// Where the name was written.
    pub name_span: Span,
    /// The path of the node within its parent.
    pub path: String,
    /// Where the path was written.
    pub path_span: Span,
    /// The attributes, by key.
    pub attributes: Attributes,
    /// The children.
    pub subnodes: Vec<Rc<Node>>,
}

/// The string stored under `key`, if there is an attribute with that key and
/// it holds a string.
pub open spec fn string_attr(attrs: Map<Seq<char>, Attribute>, key: Seq<char>) -> Option<String> {
    if attrs.contains_key(key) {
        attrs[key].value.str_value()
    } else {
        None
    }
}

/// The number stored under `key`, if there is an attribute with that key and
/// it holds an unsigned number.
pub open spec fn int_attr(attrs: Map<Seq<char>, Attribute>, key: Seq<char>) -> Option<usize> {
    if attrs.contains_key(key) {
        attrs[key].value.uint_value()
    } else {
        None
    }
}

/// The reference stored under `key`, if there is an attribute with that key
/// and it holds a reference.
pub open spec fn ref_attr(attrs: Map<Seq<char>, Attribute>, key: Seq<char>) -> Option<String> {
    if attrs.contains_key(key) {
        attrs[key].value.ref_value()
    } else {
        None
    }
}

impl Node {
    /// A node without attributes and without children.
    pub fn new(name: Option<String>, name_span: Span, path: String, path_span: Span) -> (r: Node)
        ensures
            r.name == name,
            r.name_span == name_span,
            r.path == path,
            r.path_span == path_span,
            r.attributes@ == Map::<Seq<char>, Attribute>::empty(),
            r.subnodes@.len() == 0,
    {
        Node {
            name: name,
            name_span: name_span,
            path: path,
            path_span: path_span,
            attributes: Attributes::new(),
            subnodes: Vec::new(),
        }
    }

    /// The string attribute `key`.
    pub fn get_string_attr<'a>(&'a self, key: &str) -> (r: Option<&'a String>)
        ensures
            match r {
                Some(s) => string_attr(self.attributes@, key@) == Some(*s),
                None => string_attr(self.attributes@, key@) == None::<String>,
            },
    {
        match self.attributes.find(key) {
            Some(av) => match &av.value {
                AttributeValue::StrValue(s) => Some(s),
                _ => None,
            },
            None => None,
        }
    }

    /// The unsigned number attribute `key`.
    pub fn get_int_attr(&self, key: &str) -> (r: Option<usize>)
        ensures
            r == int_attr(self.attributes@, key@),
    {
        match self.attributes.find(key) {
            Some(av) => match &av.value {
                AttributeValue::UIntValue(u) => Some(*u),
                _ => None,
            },
            None => None,
        }
    }

    /// The reference attribute `key`.
    pub fn get_ref_attr<'a>(&'a self, key: &str) -> (r: Option<&'a String>)
        ensures
            match r {
                Some(s) => ref_attr(self.attributes@, key@) == Some(*s),
                None => ref_attr(self.attributes@, key@) == None::<String>,
            },
    {
        match self.attributes.find(key) {
            Some(av) => match &av.value {
                AttributeValue::RefValue(s) => Some(s),
                _ => None,
            },
            None => None,
        }
    }
}

/// A whole platform description.
pub struct PlatformTree {
    /// The top-level nodes.
    pub nodes: Vec<Rc<Node>>,
}

impl PlatformTree {
    /// A tree with the given top-level nodes.
    pub fn new(nodes: Vec<Rc<Node>>) -> (r: PlatformTree)
        ensures
            r.nodes == nodes,
    {
        PlatformTree { nodes: nodes }
    }
}

} // verus!
