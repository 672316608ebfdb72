//! Laying a file's values over the defaults.
//!
//! A field that the file sets takes the file's value; every other field
//! keeps its default. A table that the document has no type for is kept as
//! an extension. A value of the wrong kind is a conflict, and a file with a
//! conflict gives no document at all.

use crate::error::{Error, Expected, Fault};
use crate::nesting::{nesting, shallow, MAX_NESTING};
use crate::setting::{
    lemma_section, sections_map, Db, DbView, Document, Information, InformationView, Limitation,
    Network, NetworkView, Setting, Thread,
};
use crate::outside::{parse_toml, toml_tree};
use crate::value::{
    clone_entries, entries_map, has_key, is_first, is_key, lemma_entry, lemma_first_exists,
    locate, position, Tree, Value,
};
use vstd::prelude::*;

verus! {

/// Whether `key` names one of the typed sections.
pub open spec fn is_section(key: Seq<char>) -> bool {
    ||| key == "information"@
    ||| key == "db"@
    ||| key == "thread"@
    ||| key == "network"@
    ||| key == "limitation"@
}

impl Document {
    /// The tables of `t` that are no typed section, each under its key.
    pub open spec fn extensions_of(t: Tree) -> Map<Seq<char>, Map<Seq<char>, Tree>> {
        Map::new(
            |key: Seq<char>| !is_section(key) && t.child(key) is Some,
            |key: Seq<char>| t.child(key).unwrap()->Table_0,
        )
    }

    /// The document that `t` gives where nothing in it conflicts: each field
    /// that `t` sets, the default for every other field, and the other
    /// tables of `t` as extensions.
    pub open spec fn merged(t: Tree) -> Document {
        Document {
            information: InformationView::merged(t),
            db: DbView::merged(t),
            thread: Thread::merged(t),
            network: NetworkView::merged(t),
            limitation: Limitation::merged(t),
            extensions: Document::extensions_of(t),
        }
    }

    /// Whether nothing in `t` conflicts with the document: `t` is a table of
    /// tables, and each field of a typed section is absent or of its kind.
    pub open spec fn admits(t: Tree) -> bool {
        &&& t is Table
        &&& forall|key: Seq<char>| (#[trigger] t.child(key)) matches Some(v) ==> v is Table
        &&& InformationView::fits(t)
        &&& DbView::fits(t)
        &&& Thread::fits(t)
        &&& NetworkView::fits(t)
        &&& Limitation::fits(t)
    }

    /// Whether something in `t` conflicts with the document, and `e` says
    /// so: a root that is no table (the path is empty), a value under a key
    /// of the root that is no table (the path is the key), or a field of a
    /// typed section that is of the wrong kind.
    pub open spec fn conflict(t: Tree, e: Fault) -> bool {
        ||| !(t is Table) && e == (Fault::Type {
            path: Seq::<char>::empty(),
            expected: Expected::Table,
        })
        ||| {
            &&& e matches Fault::Type { path, expected: Expected::Table }
            &&& t.child(path) matches Some(v)
            &&& !(v is Table)
        }
        ||| InformationView::conflict(t, e)
        ||| DbView::conflict(t, e)
        ||| Thread::conflict(t, e)
        ||| NetworkView::conflict(t, e)
        ||| Limitation::conflict(t, e)
    }

    /// Whether `e` is the conflict that a load of `t` reports. The typed
    /// sections come first, in the order of the document, and in each its
    /// fields in their order; then the root; then the values under the keys
    /// of the root, of which any that is no table may be the one.
    pub open spec fn reported(t: Tree, e: Fault) -> bool {
        if !InformationView::fits(t) {
            e == InformationView::first_conflict(t)
        } else if !DbView::fits(t) {
            e == DbView::first_conflict(t)
        } else if !Thread::fits(t) {
            e == Thread::first_conflict(t)
        } else if !NetworkView::fits(t) {
            e == NetworkView::first_conflict(t)
        } else if !Limitation::fits(t) {
            e == Limitation::first_conflict(t)
        } else if !(t is Table) {
            e == (Fault::Type { path: Seq::<char>::empty(), expected: Expected::Table })
        } else {
            &&& e matches Fault::Type { path, expected: Expected::Table }
            &&& t.child(path) matches Some(v)
            &&& !(v is Table)
        }
    }

    /// The document that `t` gives, if nothing in it conflicts.
    pub open spec fn load(t: Tree) -> Option<Document> {
        if Document::admits(t) {
            Some(Document::merged(t))
        } else {
            None
        }
    }
}

/// A tree gives a document exactly if nothing in it conflicts.
pub proof fn lemma_conflict_or_document(t: Tree)
    ensures
        Document::admits(t) <==> forall|e: Fault| !Document::conflict(t, e),
{
    if !Document::admits(t) {
        let e = if !InformationView::fits(t) {
            InformationView::first_conflict(t)
        } else if !DbView::fits(t) {
            DbView::first_conflict(t)
        } else if !Thread::fits(t) {
            Thread::first_conflict(t)
        } else if !NetworkView::fits(t) {
            NetworkView::first_conflict(t)
        } else if !Limitation::fits(t) {
            Limitation::first_conflict(t)
        } else if !(t is Table) {
            Fault::Type { path: Seq::<char>::empty(), expected: Expected::Table }
        } else {
            let key = choose|key: Seq<char>|
                (#[trigger] t.child(key)) is Some && !(t.child(key).unwrap() is Table);
            Fault::Type { path: key, expected: Expected::Table }
        };
        assert(Document::reported(t, e));
        lemma_reported_conflicts(t, e);
    }
}

/// What a load reports is a conflict, and the tree gives no document.
pub proof fn lemma_reported_conflicts(t: Tree, e: Fault)
    requires
        !Document::admits(t),
        Document::reported(t, e),
    ensures
        Document::conflict(t, e),
{
}

/// Whether `key` names one of the typed sections.
fn names_section(key: &String) -> (r: bool)
    ensures
        r == is_section(key@),
{
    is_key(key, "information") || is_key(key, "db") || is_key(key, "thread") || is_key(
        key,
        "network",
    ) || is_key(key, "limitation")
}

/// Whether `from` goes up through the places in `all` that the sections of
/// `out` were copied from: tables of `all` that are no typed section.
spec fn copied_in_order(
    all: Seq<(String, Value)>,
    out: Seq<(String, Vec<(String, Value)>)>,
    from: Seq<int>,
) -> bool {
    &&& from.len() == out.len()
    &&& forall|j: int|
        0 <= j < out.len() ==> {
            &&& 0 <= (#[trigger] from[j]) < all.len()
            &&& all[from[j]].0@ == out[j].0@
            &&& all[from[j]].1.tree() == Tree::Table(entries_map(out[j].1@))
            &&& !is_section(out[j].0@)
        }
    &&& forall|j: int, k: int| 0 <= j < k < out.len() ==> #[trigger] from[j] < #[trigger] from[k]
}

/// Where the sections of `out` were copied in order from `all`, and the
/// first entry of `all` under each key that is no typed section was copied,
/// `out` stands for the extensions of the table `all`.
proof fn lemma_extensions(
    all: Seq<(String, Value)>,
    out: Seq<(String, Vec<(String, Value)>)>,
    from: Seq<int>,
)
    requires
        copied_in_order(all, out, from),
        forall|i: int|
            0 <= i < all.len() && is_first(all, (#[trigger] all[i]).0@, i) && !is_section(
                all[i].0@,
            ) ==> exists|j: int| 0 <= j < out.len() && #[trigger] from[j] == i,
    ensures
        sections_map(out) == Document::extensions_of(Tree::Table(entries_map(all))),
{
    let t = Tree::Table(entries_map(all));
    let ext = Document::extensions_of(t);
    assert forall|key: Seq<char>| #[trigger] sections_map(out).contains_key(key) implies {
        &&& ext.contains_key(key)
        &&& ext[key] == sections_map(out)[key]
    } by {
        let j = position(out, key);
        assert(is_first(out, key, j));
        lemma_section(out, key, j);
        let i = from[j];
        lemma_first_exists(all, key, i);
        let p = position(all, key);
        let k = choose|k: int| 0 <= k < out.len() && #[trigger] from[k] == p;
        if k < j {
            assert(out[k].0@ != key);
        } else if j < k {
            assert(from[j] < from[k]);
        }
        lemma_entry(all, key, i);
    }
    assert forall|key: Seq<char>| #[trigger] ext.contains_key(key) implies sections_map(
        out,
    ).contains_key(key) by {
        let i = position(all, key);
        assert(is_first(all, key, i));
        let j = choose|j: int| 0 <= j < out.len() && #[trigger] from[j] == i;
        assert forall|k: int| 0 <= k < j implies (#[trigger] out[k]).0@ != key by {
            assert(from[k] < from[j]);
            assert(all[from[k]].0@ != key);
        }
        assert(is_first(out, key, j));
        lemma_section(out, key, j);
    }
    assert(sections_map(out) =~= ext);
}

/// Copies the tables that are no typed section from the root's entries.
///
/// Fails where the value that counts under some key of the root is no
/// table.
fn extensions_from(entries: &Vec<(String, Value)>) -> (r: Result<
    Vec<(String, Vec<(String, Value)>)>,
    Error,
>)
    ensures
        match r {
            Ok(out) => {
                &&& sections_map(out@) == Document::extensions_of(
                    Tree::Table(entries_map(entries@)),
                )
                &&& forall|key: Seq<char>|
                    has_key(entries@, key) ==> (#[trigger] entries_map(entries@)[key]) is Table
            },
            Err(e) => {
                &&& e@ matches Fault::Type { path, expected: Expected::Table }
                &&& has_key(entries@, path)
                &&& !(entries_map(entries@)[path] is Table)
            },
        },
{
    let ghost all = entries@;
    let mut out: Vec<(String, Vec<(String, Value)>)> = Vec::new();
    let ghost mut from: Seq<int> = Seq::empty();
    let mut at: usize = 0;
    while at < entries.len()
        invariant
            all == entries@,
            at <= all.len(),
            copied_in_order(all, out@, from),
            forall|j: int| 0 <= j < from.len() ==> #[trigger] from[j] < at,
            forall|i: int|
                0 <= i < at && is_first(all, (#[trigger] all[i]).0@, i) ==> {
                    &&& all[i].1.tree() is Table
                    &&& !is_section(all[i].0@) ==> exists|j: int|
                        0 <= j < from.len() && #[trigger] from[j] == i
                },
        decreases all.len() - at,
    {
        let ghost before = from;
        match &entries[at].1 {
            Value::Table(inner) => {
                if !names_section(&entries[at].0) {
                    out.push((entries[at].0.clone(), clone_entries(inner)));
                    proof {
                        from = from.push(at as int);
                    }
                }
                assert forall|i: int|
                    0 <= i < at + 1 && is_first(all, (#[trigger] all[i]).0@, i) implies {
                    &&& all[i].1.tree() is Table
                    &&& !is_section(all[i].0@) ==> exists|j: int|
                        0 <= j < from.len() && #[trigger] from[j] == i
                } by {
                    if i == at {
                        if !is_section(all[i].0@) {
                            assert(from[from.len() - 1] == i);
                        }
                    } else if !is_section(all[i].0@) {
                        let j = choose|j: int| 0 <= j < before.len() && #[trigger] before[j] == i;
                        assert(from[j] == i);
                    }
                }
            },
            _ => {
                let shadowed = match locate(entries, entries[at].0.as_str()) {
                    Some(first) => first < at,
                    None => false,
                };
                if !shadowed {
                    proof {
                        lemma_entry(all, all[at as int].0@, at as int);
                    }
                    return Err(
                        Error::Type { path: entries[at].0.clone(), expected: Expected::Table },
                    );
                }
            },
        }
        at += 1;
    }
    proof {
        lemma_extensions(all, out@, from);
        assert forall|key: Seq<char>| has_key(all, key) implies (#[trigger] entries_map(
            all,
        )[key]) is Table by {
            let i = position(all, key);
            assert(is_first(all, key, i));
        }
    }
    Ok(out)
}

impl Setting {
    /// The document that a file with the content `text` gives, if the text
    /// nests no deeper than [`MAX_NESTING`], is TOML, and holds nothing that
    /// conflicts with the document.
    pub open spec fn loaded(text: Seq<char>) -> Option<Document> {
        if nesting(text) > MAX_NESTING {
            None
        } else {
            match toml_tree(text) {
                Ok(t) => Document::load(t),
                Err(_) => None,
            }
        }
    }

    /// Lays the values of a file's root table over the defaults.
    ///
    /// Gives the document exactly if nothing in `tree` conflicts with it;
    /// otherwise reports the first conflict.
    pub fn from_tree(tree: &Value) -> (r: Result<Setting, Error>)
        ensures
            match r {
                Ok(s) => Document::load(tree.tree()) == Some(s@),
                Err(e) => Document::load(tree.tree()) is None && Document::reported(
                    tree.tree(),
                    e@,
                ),
            },
    {
        let ghost t = tree.tree();
        proof {
            lemma_conflict_or_document(t);
        }
        let information = Information::load(tree)?;
        let db = Db::load(tree)?;
        let thread = Thread::load(tree)?;
        let network = Network::load(tree)?;
        let limitation = Limitation::load(tree)?;
        match tree {
            Value::Table(entries) => {
                let extensions = match extensions_from(entries) {
                    Ok(extensions) => extensions,
                    Err(e) => {
                        assert(Document::reported(t, e@));
                        return Err(e);
                    },
                };
                assert forall|key: Seq<char>| (#[trigger] t.child(key)) is Some implies t.child(
                    key,
                ).unwrap() is Table by {
                    assert(entries_map(entries@)[key] is Table);
                }
                Ok(Setting { information, db, thread, network, limitation, extensions })
            },
            _ => Err(Error::Type { path: String::new(), expected: Expected::Table }),
        }
    }

    /// Reads the document from the content of a configuration file, over
    /// the defaults.
    ///
    /// Fails where `text` nests too deeply, with the parser's message where
    /// it is not TOML, and with the first conflict where a value is of the
    /// wrong kind. No document comes back unless the whole text was taken
    /// in.
    pub fn read(text: &str) -> (r: Result<Setting, Error>)
        ensures
            match r {
                Ok(s) => Setting::loaded(text@) == Some(s@),
                Err(e) => {
                    &&& Setting::loaded(text@) is None
                    &&& e@.is_parse()
                    &&& if nesting(text@) > MAX_NESTING {
                        e@ == Fault::Nesting
                    } else {
                        match toml_tree(text@) {
                            Ok(t) => Document::reported(t, e@),
                            Err(m) => e@ == Fault::Syntax(m),
                        }
                    }
                },
            },
    {
        if !shallow(text) {
            return Err(Error::Nesting);
        }
        match parse_toml(text) {
            Ok(tree) => Setting::from_tree(&tree),
            Err(message) => Err(Error::Syntax(message)),
        }
    }
}

/// The tree of a file that sets one field and nothing else.
pub open spec fn single(section: Seq<char>, field: Seq<char>, v: Tree) -> Tree {
    Tree::Table(Map::empty().insert(section, Tree::Table(Map::empty().insert(field, v))))
}

/// Whether the field that a file with one field sets is this one.
pub open spec fn sets(
    section: Seq<char>,
    field: Seq<char>,
    this_section: Seq<char>,
    this_field: Seq<char>,
) -> bool {
    section == this_section && field == this_field
}

/// A file that sets nothing gives the defaults, and no extension.
pub proof fn lemma_empty_gives_defaults()
    ensures
        Document::load(Tree::Table(Map::empty())) == Some(Document::initial()),
{
    let t = Tree::Table(Map::empty());
    assert forall|key: Seq<char>| (#[trigger] t.child(key)) is None by {}
    assert(Document::extensions_of(t) =~= Map::empty());
}

/// Loading the same text twice gives the same document, or fails twice.
pub proof fn lemma_same_text_same_document(first: Seq<char>, second: Seq<char>)
    requires
        first == second,
    ensures
        Setting::loaded(first) == Setting::loaded(second),
{
}

/// A file that sets one field gives a document in which that field has the
/// file's value and every other field of every typed section has its
/// default.
pub proof fn lemma_single_field(section: Seq<char>, field: Seq<char>, v: Tree, d: Document)
    requires
        Document::load(single(section, field, v)) == Some(d),
    ensures
        d.information.name == if sets(section, field, "information"@, "name"@) {
            v.as_text()
        } else {
            None
        },
        d.information.description == if sets(section, field, "information"@, "description"@) {
            v.as_text()
        } else {
            None
        },
        d.information.pubkey == if sets(section, field, "information"@, "pubkey"@) {
            v.as_text()
        } else {
            None
        },
        d.information.contact == if sets(section, field, "information"@, "contact"@) {
            v.as_text()
        } else {
            None
        },
        d.db.path == if sets(section, field, "db"@, "path"@) {
            v->Text_0
        } else {
            "./data"@
        },
        d.thread.http == if sets(section, field, "thread"@, "http"@) {
            v->Int_0
        } else {
            0
        },
        d.thread.reader == if sets(section, field, "thread"@, "reader"@) {
            v->Int_0
        } else {
            0
        },
        d.network.host == if sets(section, field, "network"@, "host"@) {
            v->Text_0
        } else {
            "127.0.0.1"@
        },
        d.network.port == if sets(section, field, "network"@, "port"@) {
            v->Int_0
        } else {
            7707
        },
        d.network.heartbeat_timeout == if sets(section, field, "network"@, "heartbeat_timeout"@) {
            v->Int_0
        } else {
            120
        },
        d.network.heartbeat_interval == if sets(
            section,
            field,
            "network"@,
            "heartbeat_interval"@,
        ) {
            v->Int_0
        } else {
            60
        },
        d.network.real_ip_header == if sets(section, field, "network"@, "real_ip_header"@) {
            v.as_texts()
        } else {
            None
        },
        d.limitation.max_message_length == if sets(
            section,
            field,
            "limitation"@,
            "max_message_length"@,
        ) {
            v->Int_0
        } else {
            65536
        },
        d.limitation.max_subscriptions == if sets(
            section,
            field,
            "limitation"@,
            "max_subscriptions"@,
        ) {
            v->Int_0
        } else {
            20
        },
        d.limitation.max_filters == if sets(section, field, "limitation"@, "max_filters"@) {
            v->Int_0
        } else {
            10
        },
        d.limitation.max_limit == if sets(section, field, "limitation"@, "max_limit"@) {
            v->Int_0
        } else {
            300
        },
        d.limitation.max_subid_length == if sets(
            section,
            field,
            "limitation"@,
            "max_subid_length"@,
        ) {
            v->Int_0
        } else {
            100
        },
        d.limitation.min_prefix == if sets(section, field, "limitation"@, "min_prefix"@) {
            v->Int_0
        } else {
            10
        },
        d.limitation.max_event_tags == if sets(section, field, "limitation"@, "max_event_tags"@) {
            v->Int_0
        } else {
            5000
        },
        d.limitation.max_event_time_older_than_now == if sets(
            section,
            field,
            "limitation"@,
            "max_event_time_older_than_now"@,
        ) {
            v->Int_0
        } else {
            94608000
        },
        d.limitation.max_event_time_newer_than_now == if sets(
            section,
            field,
            "limitation"@,
            "max_event_time_newer_than_now"@,
        ) {
            v->Int_0
        } else {
            900
        },
{
    let t = single(section, field, v);
    assert forall|s: Seq<char>, f: Seq<char>| #[trigger]
        t.field(s, f) == if sets(section, field, s, f) {
            Some(v)
        } else {
            None
        } by {}
}

} // verus!
