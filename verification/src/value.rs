//! Untyped configuration values, as a file hands them over before any
//! section gives them a type.

use vstd::prelude::*;

verus! {

/// One value of a configuration file.
///
/// A table is a list of entries. The order of the entries carries no
/// meaning; where a key comes twice, the first entry counts.
#[derive(Debug)]
pub enum Value {
    /// No value.
    Nil,
    Boolean(bool),
    /// An integer that was read with a sign.
    Integer(i128),
    /// An integer that was read without a sign.
    Unsigned(u128),
    /// A floating-point number, held as the bits of its IEEE 754 double.
    Float(u64),
    String(String),
    Array(Vec<Value>),
    Table(Vec<(String, Value)>),
}

/// What a [`Value`] means: numbers are mathematical integers, tables are
/// maps from key to value.
pub enum Tree {
    Nil,
    Bool(bool),
    Int(int),
    Float(u64),
    Text(Seq<char>),
    List(Seq<Tree>),
    Table(Map<Seq<char>, Tree>),
}

/// Whether the entry at `i` is the first of `entries` with the key `key`.
pub open spec fn is_first<T>(entries: Seq<(String, T)>, key: Seq<char>, i: int) -> bool {
    &&& 0 <= i < entries.len()
    &&& entries[i].0@ == key
    &&& forall|j: int| 0 <= j < i ==> (#[trigger] entries[j]).0@ != key
}

/// Whether some entry of `entries` has the key `key`.
pub open spec fn has_key<T>(entries: Seq<(String, T)>, key: Seq<char>) -> bool {
    exists|i: int| is_first(entries, key, i)
}

/// The place of the first entry of `entries` with the key `key`.
pub open spec fn position<T>(entries: Seq<(String, T)>, key: Seq<char>) -> int {
    choose|i: int| is_first(entries, key, i)
}

/// The map that a table's entries stand for.
pub open spec fn entries_map(entries: Seq<(String, Value)>) -> Map<Seq<char>, Tree>
    decreases entries,
{
    Map::new(
        |key: Seq<char>| has_key(entries, key),
        |key: Seq<char>|
            if has_key(entries, key) {
                entries[position(entries, key)].1.tree()
            } else {
                Tree::Nil
            },
    )
}

/// The views of a list of strings.
pub open spec fn texts(items: Seq<String>) -> Seq<Seq<char>> {
    Seq::new(items.len(), |i: int| items[i]@)
}

impl Tree {
    /// The value under `key`, where this is a table that has the key.
    pub open spec fn child(self, key: Seq<char>) -> Option<Tree> {
        match self {
            Tree::Table(m) => if m.contains_key(key) {
                Some(m[key])
            } else {
                None
            },
            _ => None,
        }
    }

    /// The value under `field` in the table under `section`.
    pub open spec fn field(self, section: Seq<char>, field: Seq<char>) -> Option<Tree> {
        match self.child(section) {
            Some(t) => t.child(field),
            None => None,
        }
    }

    /// The text, where this is one.
    pub open spec fn as_text(self) -> Option<Seq<char>> {
        match self {
            Tree::Text(s) => Some(s),
            _ => None,
        }
    }

    /// The number, where this is an integer from 0 to `max`.
    pub open spec fn as_number(self, max: int) -> Option<int> {
        match self {
            Tree::Int(i) => if 0 <= i <= max {
                Some(i)
            } else {
                None
            },
            _ => None,
        }
    }

    /// Whether every item of `items` is a text.
    pub open spec fn all_text(items: Seq<Tree>) -> bool {
        forall|i: int| 0 <= i < items.len() ==> (#[trigger] items[i]) is Text
    }

    /// The texts, where this is a list of nothing but texts.
    pub open spec fn as_texts(self) -> Option<Seq<Seq<char>>> {
        match self {
            Tree::List(items) => if Tree::all_text(items) {
                Some(Seq::new(items.len(), |i: int| items[i]->Text_0))
            } else {
                None
            },
            _ => None,
        }
    }
}

impl Value {
    /// The meaning of this value.
    pub open spec fn tree(self) -> Tree
        decreases self,
    {
        match self {
            Value::Nil => Tree::Nil,
            Value::Boolean(b) => Tree::Bool(b),
            Value::Integer(i) => Tree::Int(i as int),
            Value::Unsigned(u) => Tree::Int(u as int),
            Value::Float(bits) => Tree::Float(bits),
            Value::String(s) => Tree::Text(s@),
            Value::Array(items) => Tree::List(
                Seq::new(
                    items@.len(),
                    |i: int|
                        if 0 <= i < items@.len() {
                            items@[i].tree()
                        } else {
                            Tree::Nil
                        },
                ),
            ),
            Value::Table(entries) => Tree::Table(entries_map(entries@)),
        }
    }
}

/// The first entry with a key is the one that the key leads to.
pub proof fn lemma_position<T>(entries: Seq<(String, T)>, key: Seq<char>, i: int)
    requires
        is_first(entries, key, i),
    ensures
        has_key(entries, key),
        position(entries, key) == i,
{
    let j = position(entries, key);
    assert(is_first(entries, key, j));
    if j < i {
        assert(entries[j].0@ != key);
    } else if i < j {
        assert(entries[i].0@ != key);
    }
}

/// Where some entry has the key, some entry is the first to have it.
pub proof fn lemma_first_exists<T>(entries: Seq<(String, T)>, key: Seq<char>, i: int)
    requires
        0 <= i < entries.len(),
        entries[i].0@ == key,
    ensures
        has_key(entries, key),
        position(entries, key) <= i,
        is_first(entries, key, position(entries, key)),
    decreases i,
{
    if exists|j: int| 0 <= j < i && (#[trigger] entries[j]).0@ == key {
        let j = choose|j: int| 0 <= j < i && (#[trigger] entries[j]).0@ == key;
        lemma_first_exists(entries, key, j);
    } else {
        lemma_position(entries, key, i);
    }
}

/// Two lists with the same keys, place by place, have each key first at
/// the same place.
pub proof fn lemma_same_keys<A, B>(a: Seq<(String, A)>, b: Seq<(String, B)>)
    requires
        a.len() == b.len(),
        forall|i: int| 0 <= i < a.len() ==> (#[trigger] b[i]).0@ == a[i].0@,
    ensures
        forall|key: Seq<char>| #[trigger] has_key(a, key) == has_key(b, key),
        forall|key: Seq<char>| has_key(a, key) ==> #[trigger] position(a, key) == position(b, key),
{
    assert forall|key: Seq<char>, i: int| is_first(a, key, i) == is_first(b, key, i) by {
        if is_first(a, key, i) {
            assert(b[i].0@ == key);
            assert forall|j: int| 0 <= j < i implies (#[trigger] b[j]).0@ != key by {
                assert(a[j].0@ != key);
            }
        }
        if is_first(b, key, i) {
            assert(b[i].0@ == key);
            assert forall|j: int| 0 <= j < i implies (#[trigger] a[j]).0@ != key by {
                assert(b[j].0@ != key);
            }
        }
    }
    assert forall|key: Seq<char>| #[trigger] has_key(a, key) == has_key(b, key) by {
        if has_key(a, key) {
            assert(is_first(b, key, position(a, key)));
        }
        if has_key(b, key) {
            assert(is_first(a, key, position(b, key)));
        }
    }
    assert forall|key: Seq<char>| has_key(a, key) implies #[trigger] position(a, key)
        == position(b, key) by {
        let i = position(a, key);
        assert(is_first(b, key, i));
        lemma_position(b, key, i);
    }
}

/// The first entry with a key gives the key's value in the map.
pub proof fn lemma_entry(entries: Seq<(String, Value)>, key: Seq<char>, i: int)
    requires
        is_first(entries, key, i),
    ensures
        entries_map(entries).contains_key(key),
        entries_map(entries)[key] == entries[i].1.tree(),
{
    lemma_position(entries, key, i);
}

/// Two lists of entries with the same keys and the same meanings, place by
/// place, stand for the same map.
pub proof fn lemma_same_entries(a: Seq<(String, Value)>, b: Seq<(String, Value)>)
    requires
        a.len() == b.len(),
        forall|i: int| 0 <= i < a.len() ==> (#[trigger] b[i]).0@ == a[i].0@,
        forall|i: int| 0 <= i < a.len() ==> (#[trigger] b[i]).1.tree() == a[i].1.tree(),
    ensures
        entries_map(a) == entries_map(b),
{
    lemma_same_keys(a, b);
    assert forall|key: Seq<char>| has_key(a, key) implies entries_map(a)[key] == entries_map(
        b,
    )[key] by {
        assert(is_first(a, key, position(a, key)));
    }
    assert(entries_map(a) =~= entries_map(b));
}

/// Whether `name` spells `key`.
pub fn is_key(name: &String, key: &str) -> (r: bool)
    ensures
        r == (name@ == key@),
{
    let wanted = String::from_str(key);
    *name == wanted
}

/// The place of the first entry whose key is `key`.
pub fn locate<T>(entries: &Vec<(String, T)>, key: &str) -> (r: Option<usize>)
    ensures
        match r {
            Some(i) => is_first(entries@, key@, i as int),
            None => {
                &&& !has_key(entries@, key@)
                &&& forall|i: int| 0 <= i < entries@.len() ==> (#[trigger] entries@[i]).0@ != key@
            },
        },
{
    let mut at: usize = 0;
    while at < entries.len()
        invariant
            at <= entries@.len(),
            forall|i: int| 0 <= i < at ==> (#[trigger] entries@[i]).0@ != key@,
        decreases entries@.len() - at,
    {
        if is_key(&entries[at].0, key) {
            return Some(at);
        }
        at += 1;
    }
    None
}

/// The value of the first entry whose key is `key`.
pub fn find<'a>(entries: &'a Vec<(String, Value)>, key: &str) -> (r: Option<&'a Value>)
    ensures
        match r {
            Some(v) => {
                &&& entries_map(entries@).contains_key(key@)
                &&& entries_map(entries@)[key@] == v.tree()
            },
            None => !entries_map(entries@).contains_key(key@),
        },
{
    match locate(entries, key) {
        Some(i) => {
            proof {
                lemma_entry(entries@, key@, i as int);
            }
            Some(&entries[i].1)
        },
        None => None,
    }
}

impl Value {
    /// The value under `key`, where this is a table that has the key.
    pub fn get(&self, key: &str) -> (r: Option<&Value>)
        ensures
            match r {
                Some(v) => self.tree().child(key@) == Some(v.tree()),
                None => self.tree().child(key@) is None,
            },
    {
        match self {
            Value::Table(entries) => find(entries, key),
            _ => None,
        }
    }

    /// The value under `field` in the table under `section`.
    pub fn field(&self, section: &str, field: &str) -> (r: Option<&Value>)
        ensures
            match r {
                Some(v) => self.tree().field(section@, field@) == Some(v.tree()),
                None => self.tree().field(section@, field@) is None,
            },
    {
        match self.get(section) {
            Some(table) => table.get(field),
            None => None,
        }
    }

    /// Whether this is a table.
    pub fn is_table(&self) -> (r: bool)
        ensures
            r == (self.tree() is Table),
    {
        match self {
            Value::Table(_) => true,
            _ => false,
        }
    }

    /// A copy of the text, where this is one.
    pub fn as_text(&self) -> (r: Option<String>)
        ensures
            match r {
                Some(s) => self.tree().as_text() == Some(s@),
                None => self.tree().as_text() is None,
            },
    {
        match self {
            Value::String(s) => Some(s.clone()),
            _ => None,
        }
    }

    /// The number, where this is an integer from 0 to `max`.
    pub fn as_number(&self, max: u64) -> (r: Option<u64>)
        ensures
            match r {
                Some(n) => self.tree().as_number(max as int) == Some(n as int),
                None => self.tree().as_number(max as int) is None,
            },
    {
        match self {
            Value::Integer(i) => {
                if 0 <= *i && *i <= max as i128 {
                    Some(*i as u64)
                } else {
                    None
                }
            },
            Value::Unsigned(u) => {
                if *u <= max as u128 {
                    Some(*u as u64)
                } else {
                    None
                }
            },
            _ => None,
        }
    }

    /// Copies of the texts, where this is a list of nothing but texts.
    pub fn as_texts(&self) -> (r: Option<Vec<String>>)
        ensures
            match r {
                Some(list) => self.tree().as_texts() == Some(texts(list@)),
                None => self.tree().as_texts() is None,
            },
    {
        match self {
            Value::Array(items) => {
                let mut list: Vec<String> = Vec::new();
                let mut at: usize = 0;
                let ghost trees = self.tree()->List_0;
                while at < items.len()
                    invariant
                        at <= items@.len(),
                        list@.len() == at,
                        self.tree() == Tree::List(trees),
                        trees.len() == items@.len(),
                        forall|i: int|
                            0 <= i < trees.len() ==> trees[i] == (#[trigger] items@[i]).tree(),
                        forall|i: int|
                            0 <= i < at ==> (#[trigger] trees[i]) == Tree::Text(list@[i]@),
                    decreases items@.len() - at,
                {
                    match &items[at] {
                        Value::String(s) => {
                            list.push(s.clone());
                        },
                        _ => {
                            assert(!(trees[at as int] is Text));
                            return None;
                        },
                    }
                    at += 1;
                }
                assert(Tree::all_text(trees));
                assert(self.tree().as_texts().unwrap() =~= texts(list@));
                Some(list)
            },
            _ => None,
        }
    }
}

impl Clone for Value {
    /// A copy with the same entries in the same order.
    fn clone(&self) -> (r: Self)
        ensures
            r.tree() == self.tree(),
        decreases self,
    {
        match self {
            Value::Nil => Value::Nil,
            Value::Boolean(b) => Value::Boolean(*b),
            Value::Integer(i) => Value::Integer(*i),
            Value::Unsigned(u) => Value::Unsigned(*u),
            Value::Float(bits) => Value::Float(*bits),
            Value::String(s) => Value::String(s.clone()),
            Value::Array(items) => {
                let mut copy: Vec<Value> = Vec::new();
                let mut at: usize = 0;
                while at < items.len()
                    invariant
                        at <= items@.len(),
                        copy@.len() == at,
                        *self == Value::Array(*items),
                        decreases_to!(*self => *items),
                        forall|i: int|
                            0 <= i < at ==> (#[trigger] copy@[i]).tree() == items@[i].tree(),
                    decreases items@.len() - at,
                {
                    proof {
                        assert(decreases_to!(*items => items[at as int]));
                    }
                    let item = items[at].clone();
                    copy.push(item);
                    at += 1;
                }
                let r = Value::Array(copy);
                assert(r.tree()->List_0 =~= self.tree()->List_0);
                r
            },
            Value::Table(entries) => Value::Table(clone_entries(entries)),
        }
    }
}

/// A copy of a table's entries, in the same order.
pub fn clone_entries(entries: &Vec<(String, Value)>) -> (r: Vec<(String, Value)>)
    ensures
        entries_map(r@) == entries_map(entries@),
    decreases entries,
{
    let mut copy: Vec<(String, Value)> = Vec::new();
    let mut at: usize = 0;
    while at < entries.len()
        invariant
            at <= entries@.len(),
            copy@.len() == at,
            forall|i: int| 0 <= i < at ==> (#[trigger] copy@[i]).0@ == entries@[i].0@,
            forall|i: int| 0 <= i < at ==> (#[trigger] copy@[i]).1.tree() == entries@[i].1.tree(),
        decreases entries@.len() - at,
    {
        proof {
            assert(decreases_to!(*entries => entries[at as int]));
            assert(decreases_to!(entries[at as int] => entries[at as int].1));
        }
        let key = entries[at].0.clone();
        let value = entries[at].1.clone();
        copy.push((key, value));
        at += 1;
    }
    proof {
        lemma_same_entries(entries@, copy@);
    }
    copy
}

} // verus!
