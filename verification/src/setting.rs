//! The configuration document: its sections, and the value that each field
//! has when the file does not set it.

use crate::value::{
    clone_entries, entries_map, has_key, is_first, lemma_position, lemma_same_keys, locate,
    position, texts, Tree, Value,
};
use vstd::prelude::*;

verus! {

/// The view of an optional text.
pub open spec fn opt_text(o: Option<String>) -> Option<Seq<char>> {
    match o {
        Some(s) => Some(s@),
        None => None,
    }
}

/// The view of an optional list of texts.
pub open spec fn opt_texts(o: Option<Vec<String>>) -> Option<Seq<Seq<char>>> {
    match o {
        Some(list) => Some(texts(list@)),
        None => None,
    }
}

fn clone_text(o: &Option<String>) -> (r: Option<String>)
    ensures
        opt_text(r) == opt_text(*o),
{
    match o {
        Some(s) => Some(s.clone()),
        None => None,
    }
}

fn clone_texts(o: &Option<Vec<String>>) -> (r: Option<Vec<String>>)
    ensures
        opt_texts(r) == opt_texts(*o),
{
    match o {
        Some(list) => {
            let mut copy: Vec<String> = Vec::new();
            let mut at: usize = 0;
            while at < list.len()
                invariant
                    at <= list@.len(),
                    copy@.len() == at,
                    forall|i: int| 0 <= i < at ==> (#[trigger] copy@[i])@ == list@[i]@,
                decreases list@.len() - at,
            {
                copy.push(list[at].clone());
                at += 1;
            }
            assert(texts(copy@) =~= texts(list@));
            Some(copy)
        },
        None => None,
    }
}

/// What the relay says of itself.
#[derive(Debug)]
pub struct Information {
    pub name: Option<String>,
    pub description: Option<String>,
    pub pubkey: Option<String>,
    pub contact: Option<String>,
}

/// The view of [`Information`].
pub struct InformationView {
    pub name: Option<Seq<char>>,
    pub description: Option<Seq<char>>,
    pub pubkey: Option<Seq<char>>,
    pub contact: Option<Seq<char>>,
}

impl View for Information {
    type V = InformationView;

    open spec fn view(&self) -> InformationView {
        InformationView {
            name: opt_text(self.name),
            description: opt_text(self.description),
            pubkey: opt_text(self.pubkey),
            contact: opt_text(self.contact),
        }
    }
}

impl InformationView {
    /// Nothing is said.
    pub open spec fn initial() -> InformationView {
        InformationView { name: None, description: None, pubkey: None, contact: None }
    }
}

impl Clone for Information {
    fn clone(&self) -> (r: Self)
        ensures
            r@ == self@,
    {
        Information {
            name: clone_text(&self.name),
            description: clone_text(&self.description),
            pubkey: clone_text(&self.pubkey),
            contact: clone_text(&self.contact),
        }
    }
}

impl Default for Information {
    fn default() -> (r: Self)
        ensures
            r@ == InformationView::initial(),
    {
        Information { name: None, description: None, pubkey: None, contact: None }
    }
}

/// Where the database lives.
#[derive(Debug)]
pub struct Db {
    /// The data directory, as the file spells it.
    pub path: String,
}

/// The view of [`Db`].
pub struct DbView {
    pub path: Seq<char>,
}

impl View for Db {
    type V = DbView;

    open spec fn view(&self) -> DbView {
        DbView { path: self.path@ }
    }
}

impl DbView {
    /// The directory `./data`.
    pub open spec fn initial() -> DbView {
        DbView { path: "./data"@ }
    }
}

impl Clone for Db {
    fn clone(&self) -> (r: Self)
        ensures
            r@ == self@,
    {
        Db { path: self.path.clone() }
    }
}

impl Default for Db {
    fn default() -> (r: Self)
        ensures
            r@ == DbView::initial(),
    {
        Db { path: String::from_str("./data") }
    }
}

/// How many threads each pool gets; 0 leaves the number to the runtime.
#[derive(Debug, Clone, Copy, PartialEq, Eq, Structural)]
pub struct Thread {
    /// Threads of the http server.
    pub http: usize,
    /// Threads that read events.
    pub reader: usize,
}

impl Thread {
    /// Both numbers are left to the runtime.
    pub open spec fn initial() -> Thread {
        Thread { http: 0, reader: 0 }
    }
}

impl Default for Thread {
    fn default() -> (r: Self)
        ensures
            r == Thread::initial(),
    {
        Thread { reader: 0, http: 0 }
    }
}

/// Where the server listens, and how it keeps connections alive.
#[derive(Debug)]
pub struct Network {
    /// The host to bind.
    pub host: String,
    /// The port to bind.
    pub port: u16,
    /// Seconds without an answer from the client after which the connection
    /// times out. Callers keep it at or above the interval; the document
    /// does not enforce that.
    pub heartbeat_timeout: u64,
    /// Seconds between two pings.
    pub heartbeat_interval: u64,
    /// The headers, in order, that may hold the client's address behind a
    /// proxy.
    pub real_ip_header: Option<Vec<String>>,
}

/// The view of [`Network`].
pub struct NetworkView {
    pub host: Seq<char>,
    pub port: u16,
    pub heartbeat_timeout: u64,
    pub heartbeat_interval: u64,
    pub real_ip_header: Option<Seq<Seq<char>>>,
}

impl View for Network {
    type V = NetworkView;

    open spec fn view(&self) -> NetworkView {
        NetworkView {
            host: self.host@,
            port: self.port,
            heartbeat_timeout: self.heartbeat_timeout,
            heartbeat_interval: self.heartbeat_interval,
            real_ip_header: opt_texts(self.real_ip_header),
        }
    }
}

impl NetworkView {
    /// The loopback address, port 7707, a ping every 60 seconds, a timeout
    /// after 120, no proxy headers.
    pub open spec fn initial() -> NetworkView {
        NetworkView {
            host: "127.0.0.1"@,
            port: 7707,
            heartbeat_timeout: 120,
            heartbeat_interval: 60,
            real_ip_header: None,
        }
    }
}

impl Clone for Network {
    fn clone(&self) -> (r: Self)
        ensures
            r@ == self@,
    {
        Network {
            host: self.host.clone(),
            port: self.port,
            heartbeat_timeout: self.heartbeat_timeout,
            heartbeat_interval: self.heartbeat_interval,
            real_ip_header: clone_texts(&self.real_ip_header),
        }
    }
}

impl Default for Network {
    fn default() -> (r: Self)
        ensures
            r@ == NetworkView::initial(),
    {
        Network {
            host: String::from_str("127.0.0.1"),
            port: 7707,
            heartbeat_interval: 60,
            heartbeat_timeout: 120,
            real_ip_header: None,
        }
    }
}

/// The bounds that the relay holds its clients to.
#[derive(Debug, Clone, Copy, PartialEq, Eq, Structural)]
pub struct Limitation {
    /// The most bytes of one incoming message.
    pub max_message_length: u64,
    /// The most subscriptions that one connection may have open.
    pub max_subscriptions: u64,
    /// The most filters in one subscription.
    pub max_filters: u64,
    /// The number that each filter's limit is clamped to.
    pub max_limit: u64,
    /// The longest subscription id, in characters.
    pub max_subid_length: u64,
    /// The fewest hex digits in a prefix of an author or an id.
    pub min_prefix: u64,
    /// The most tags of one event.
    pub max_event_tags: u64,
    /// Events older than this many seconds are rejected.
    pub max_event_time_older_than_now: u64,
    /// Events newer than this many seconds are rejected.
    pub max_event_time_newer_than_now: u64,
}

impl Limitation {
    /// Messages of 64 KiB, 20 subscriptions of 10 filters, 300 results, ids of
    /// 100 characters, prefixes of 10 digits, 5000 tags, events from three
    /// years back to a quarter of an hour ahead.
    pub open spec fn initial() -> Limitation {
        Limitation {
            max_message_length: 65536,
            max_subscriptions: 20,
            max_filters: 10,
            max_limit: 300,
            max_subid_length: 100,
            min_prefix: 10,
            max_event_tags: 5000,
            max_event_time_older_than_now: 94608000,
            max_event_time_newer_than_now: 900,
        }
    }
}

impl Default for Limitation {
    fn default() -> (r: Self)
        ensures
            r == Limitation::initial(),
    {
        Limitation {
            max_message_length: 65536,
            max_subscriptions: 20,
            max_filters: 10,
            max_limit: 300,
            max_subid_length: 100,
            min_prefix: 10,
            max_event_tags: 5000,
            max_event_time_older_than_now: 94608000,
            max_event_time_newer_than_now: 900,
        }
    }
}

/// The map that a list of sections stands for.
pub open spec fn sections_map(sections: Seq<(String, Vec<(String, Value)>)>) -> Map<
    Seq<char>,
    Map<Seq<char>, Tree>,
> {
    Map::new(
        |name: Seq<char>| has_key(sections, name),
        |name: Seq<char>| entries_map(sections[position(sections, name)].1@),
    )
}

/// The whole configuration.
#[derive(Debug)]
pub struct Setting {
    pub information: Information,
    pub db: Db,
    pub thread: Thread,
    pub network: Network,
    pub limitation: Limitation,
    /// The sections that the document has no type for, each with its
    /// entries. The order carries no meaning; where a name comes twice, the
    /// first section counts.
    pub extensions: Vec<(String, Vec<(String, Value)>)>,
}

/// The view of [`Setting`]: a document.
pub struct Document {
    pub information: InformationView,
    pub db: DbView,
    pub thread: Thread,
    pub network: NetworkView,
    pub limitation: Limitation,
    pub extensions: Map<Seq<char>, Map<Seq<char>, Tree>>,
}

impl View for Setting {
    type V = Document;

    open spec fn view(&self) -> Document {
        Document {
            information: self.information@,
            db: self.db@,
            thread: self.thread,
            network: self.network@,
            limitation: self.limitation,
            extensions: sections_map(self.extensions@),
        }
    }
}

impl Document {
    /// Every section as it is without a file, and no extension.
    pub open spec fn initial() -> Document {
        Document {
            information: InformationView::initial(),
            db: DbView::initial(),
            thread: Thread::initial(),
            network: NetworkView::initial(),
            limitation: Limitation::initial(),
            extensions: Map::empty(),
        }
    }
}

impl Clone for Setting {
    /// A copy that stands for the same document.
    fn clone(&self) -> (r: Self)
        ensures
            r@ == self@,
    {
        let mut extensions: Vec<(String, Vec<(String, Value)>)> = Vec::new();
        let mut at: usize = 0;
        while at < self.extensions.len()
            invariant
                at <= self.extensions@.len(),
                extensions@.len() == at,
                forall|i: int|
                    0 <= i < at ==> (#[trigger] extensions@[i]).0@ == self.extensions@[i].0@,
                forall|i: int|
                    0 <= i < at ==> entries_map((#[trigger] extensions@[i]).1@) == entries_map(
                        self.extensions@[i].1@,
                    ),
            decreases self.extensions@.len() - at,
        {
            let name = self.extensions[at].0.clone();
            let entries = clone_entries(&self.extensions[at].1);
            extensions.push((name, entries));
            at += 1;
        }
        proof {
            lemma_same_sections(self.extensions@, extensions@);
        }
        Setting {
            information: self.information.clone(),
            db: self.db.clone(),
            thread: self.thread,
            network: self.network.clone(),
            limitation: self.limitation,
            extensions,
        }
    }
}

impl Default for Setting {
    fn default() -> (r: Self)
        ensures
            r@ == Document::initial(),
    {
        let r = Setting {
            information: Information::default(),
            db: Db::default(),
            thread: Thread::default(),
            network: Network::default(),
            limitation: Limitation::default(),
            extensions: Vec::new(),
        };
        assert(sections_map(r.extensions@) =~= Map::empty());
        r
    }
}

/// The first section with a name gives the name's entries in the map.
pub proof fn lemma_section(sections: Seq<(String, Vec<(String, Value)>)>, name: Seq<char>, i: int)
    requires
        is_first(sections, name, i),
    ensures
        sections_map(sections).contains_key(name),
        sections_map(sections)[name] == entries_map(sections[i].1@),
{
    lemma_position(sections, name, i);
}

/// Two lists of sections with the same names and the same entries, place by
/// place, stand for the same extensions.
pub proof fn lemma_same_sections(
    a: Seq<(String, Vec<(String, Value)>)>,
    b: Seq<(String, Vec<(String, Value)>)>,
)
    requires
        a.len() == b.len(),
        forall|i: int| 0 <= i < a.len() ==> (#[trigger] b[i]).0@ == a[i].0@,
        forall|i: int|
            0 <= i < a.len() ==> entries_map((#[trigger] b[i]).1@) == entries_map(a[i].1@),
    ensures
        sections_map(a) == sections_map(b),
{
    lemma_same_keys(a, b);
    assert forall|name: Seq<char>| has_key(a, name) implies sections_map(a)[name]
        == sections_map(b)[name] by {
        assert(is_first(a, name, position(a, name)));
    }
    assert(sections_map(a) =~= sections_map(b));
}

impl Setting {
    /// The entries of the extension `name`, if the document has it.
    pub fn extension(&self, name: &str) -> (r: Option<&Vec<(String, Value)>>)
        ensures
            match r {
                Some(entries) => {
                    &&& self@.extensions.contains_key(name@)
                    &&& self@.extensions[name@] == entries_map(entries@)
                },
                None => !self@.extensions.contains_key(name@),
            },
    {
        match locate(&self.extensions, name) {
            Some(i) => {
                proof {
                    lemma_section(self.extensions@, name@, i as int);
                }
                Some(&self.extensions[i].1)
            },
            None => None,
        }
    }
}

} // verus!
