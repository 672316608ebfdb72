//! The five typed sections: which fields each reads from a file's tree.

use crate::error::{Error, Expected, Fault};
use crate::field::{
    dotted, number_at, number_field, opt_text_at, opt_text_field, opt_texts_at, opt_texts_field,
    slot_conflict, slot_fits, text_at, text_field,
};
use crate::setting::{
    Db, DbView, Information, InformationView, Limitation, Network, NetworkView, Thread,
};
use crate::value::{Tree, Value};
use vstd::prelude::*;

verus! {

/// A number that fits 16 bits.
pub open spec fn short() -> Expected {
    Expected::Number { max: u16::MAX as u64 }
}

/// A number that fits the machine's word.
pub open spec fn word() -> Expected {
    Expected::Number { max: usize::MAX as u64 }
}

/// A number that fits 64 bits.
pub open spec fn wide() -> Expected {
    Expected::Number { max: u64::MAX }
}

impl InformationView {
    /// The section `information` of `t`: each text that `t` sets, and no
    /// value for the other fields.
    pub open spec fn merged(t: Tree) -> InformationView {
        InformationView {
            name: opt_text_at(t, "information"@, "name"@),
            description: opt_text_at(t, "information"@, "description"@),
            pubkey: opt_text_at(t, "information"@, "pubkey"@),
            contact: opt_text_at(t, "information"@, "contact"@),
        }
    }

    /// Whether each field of the section is absent from `t` or of its kind.
    pub open spec fn fits(t: Tree) -> bool {
        &&& slot_fits(t, "information"@, "name"@, Expected::Text, true)
        &&& slot_fits(t, "information"@, "description"@, Expected::Text, true)
        &&& slot_fits(t, "information"@, "pubkey"@, Expected::Text, true)
        &&& slot_fits(t, "information"@, "contact"@, Expected::Text, true)
    }

    /// Whether a field of the section is of the wrong kind in `t`, and `e`
    /// says so.
    pub open spec fn conflict(t: Tree, e: Fault) -> bool {
        ||| slot_conflict(t, e, "information"@, "name"@, Expected::Text, true)
        ||| slot_conflict(t, e, "information"@, "description"@, Expected::Text, true)
        ||| slot_conflict(t, e, "information"@, "pubkey"@, Expected::Text, true)
        ||| slot_conflict(t, e, "information"@, "contact"@, Expected::Text, true)
    }

    /// The conflict of the first field of the section that does not fit.
    pub open spec fn first_conflict(t: Tree) -> Fault {
        let s = "information"@;
        let f = if !slot_fits(t, s, "name"@, Expected::Text, true) {
            "name"@
        } else if !slot_fits(t, s, "description"@, Expected::Text, true) {
            "description"@
        } else if !slot_fits(t, s, "pubkey"@, Expected::Text, true) {
            "pubkey"@
        } else {
            "contact"@
        };
        Fault::Type { path: dotted(s, f), expected: Expected::Text }
    }
}

impl Information {
    /// Reads the section `information` from the root table of a file.
    pub fn load(root: &Value) -> (r: Result<Information, Error>)
        ensures
            match r {
                Ok(s) => {
                    &&& InformationView::fits(root.tree())
                    &&& s@ == InformationView::merged(root.tree())
                },
                Err(e) => {
                    &&& !InformationView::fits(root.tree())
                    &&& e@ == InformationView::first_conflict(root.tree())
                },
            },
    {
        let name = opt_text_field(root, "information", "name")?;
        let description = opt_text_field(root, "information", "description")?;
        let pubkey = opt_text_field(root, "information", "pubkey")?;
        let contact = opt_text_field(root, "information", "contact")?;
        Ok(Information { name, description, pubkey, contact })
    }
}

impl DbView {
    /// The section `db` of `t`: the path that `t` sets, or the default.
    pub open spec fn merged(t: Tree) -> DbView {
        DbView { path: text_at(t, "db"@, "path"@, DbView::initial().path) }
    }

    /// Whether the field of the section is absent from `t` or of its kind.
    pub open spec fn fits(t: Tree) -> bool {
        slot_fits(t, "db"@, "path"@, Expected::Text, false)
    }

    /// Whether the field of the section is of the wrong kind in `t`, and `e`
    /// says so.
    pub open spec fn conflict(t: Tree, e: Fault) -> bool {
        slot_conflict(t, e, "db"@, "path"@, Expected::Text, false)
    }

    /// The conflict of the field of the section, where it does not fit.
    pub open spec fn first_conflict(t: Tree) -> Fault {
        Fault::Type { path: dotted("db"@, "path"@), expected: Expected::Text }
    }
}

impl Db {
    /// Reads the section `db` from the root table of a file.
    pub fn load(root: &Value) -> (r: Result<Db, Error>)
        ensures
            match r {
                Ok(s) => DbView::fits(root.tree()) && s@ == DbView::merged(root.tree()),
                Err(e) => !DbView::fits(root.tree()) && e@ == DbView::first_conflict(root.tree()),
            },
    {
        let base = Db::default();
        let path = text_field(root, "db", "path", base.path)?;
        Ok(Db { path })
    }
}

impl Thread {
    /// The number of the field `field` in `t`, or `default`.
    pub open spec fn count_at(t: Tree, field: Seq<char>, default: usize) -> usize {
        number_at(t, "thread"@, field, default as int) as usize
    }

    /// The section `thread` of `t`: each number that `t` sets, and the
    /// default for the other.
    pub open spec fn merged(t: Tree) -> Thread {
        Thread {
            http: Thread::count_at(t, "http"@, Thread::initial().http),
            reader: Thread::count_at(t, "reader"@, Thread::initial().reader),
        }
    }

    /// Whether each field of the section is absent from `t` or of its kind.
    pub open spec fn fits(t: Tree) -> bool {
        &&& slot_fits(t, "thread"@, "http"@, word(), false)
        &&& slot_fits(t, "thread"@, "reader"@, word(), false)
    }

    /// Whether a field of the section is of the wrong kind in `t`, and `e`
    /// says so.
    pub open spec fn conflict(t: Tree, e: Fault) -> bool {
        ||| slot_conflict(t, e, "thread"@, "http"@, word(), false)
        ||| slot_conflict(t, e, "thread"@, "reader"@, word(), false)
    }

    /// The conflict of the first field of the section that does not fit.
    pub open spec fn first_conflict(t: Tree) -> Fault {
        let s = "thread"@;
        let f = if !slot_fits(t, s, "http"@, word(), false) {
            "http"@
        } else {
            "reader"@
        };
        Fault::Type { path: dotted(s, f), expected: word() }
    }

    fn count(root: &Value, field: &str, default: usize) -> (r: Result<usize, Error>)
        ensures
            match r {
                Ok(n) => {
                    &&& slot_fits(root.tree(), "thread"@, field@, word(), false)
                    &&& n == Thread::count_at(root.tree(), field@, default)
                },
                Err(e) => slot_conflict(root.tree(), e@, "thread"@, field@, word(), false),
            },
    {
        match number_field(root, "thread", field, usize::MAX as u64, default as u64) {
            Ok(n) => Ok(n as usize),
            Err(e) => Err(e),
        }
    }

    /// Reads the section `thread` from the root table of a file.
    pub fn load(root: &Value) -> (r: Result<Thread, Error>)
        ensures
            match r {
                Ok(s) => Thread::fits(root.tree()) && s == Thread::merged(root.tree()),
                Err(e) => !Thread::fits(root.tree()) && e@ == Thread::first_conflict(root.tree()),
            },
    {
        let base = Thread::default();
        let http = Thread::count(root, "http", base.http)?;
        let reader = Thread::count(root, "reader", base.reader)?;
        Ok(Thread { http, reader })
    }
}

impl NetworkView {
    /// The seconds of the field `field` in `t`, or `default`.
    pub open spec fn seconds_at(t: Tree, field: Seq<char>, default: u64) -> u64 {
        number_at(t, "network"@, field, default as int) as u64
    }

    /// The section `network` of `t`: each field that `t` sets, and the
    /// default for the others.
    pub open spec fn merged(t: Tree) -> NetworkView {
        let base = NetworkView::initial();
        NetworkView {
            host: text_at(t, "network"@, "host"@, base.host),
            port: number_at(t, "network"@, "port"@, base.port as int) as u16,
            heartbeat_timeout: NetworkView::seconds_at(
                t,
                "heartbeat_timeout"@,
                base.heartbeat_timeout,
            ),
            heartbeat_interval: NetworkView::seconds_at(
                t,
                "heartbeat_interval"@,
                base.heartbeat_interval,
            ),
            real_ip_header: opt_texts_at(t, "network"@, "real_ip_header"@),
        }
    }

    /// Whether each field of the section is absent from `t` or of its kind.
    pub open spec fn fits(t: Tree) -> bool {
        &&& slot_fits(t, "network"@, "host"@, Expected::Text, false)
        &&& slot_fits(t, "network"@, "port"@, short(), false)
        &&& slot_fits(t, "network"@, "heartbeat_timeout"@, wide(), false)
        &&& slot_fits(t, "network"@, "heartbeat_interval"@, wide(), false)
        &&& slot_fits(t, "network"@, "real_ip_header"@, Expected::TextList, true)
    }

    /// Whether a field of the section is of the wrong kind in `t`, and `e`
    /// says so.
    pub open spec fn conflict(t: Tree, e: Fault) -> bool {
        ||| slot_conflict(t, e, "network"@, "host"@, Expected::Text, false)
        ||| slot_conflict(t, e, "network"@, "port"@, short(), false)
        ||| slot_conflict(t, e, "network"@, "heartbeat_timeout"@, wide(), false)
        ||| slot_conflict(t, e, "network"@, "heartbeat_interval"@, wide(), false)
        ||| slot_conflict(t, e, "network"@, "real_ip_header"@, Expected::TextList, true)
    }

    /// The conflict of the first field of the section that does not fit.
    pub open spec fn first_conflict(t: Tree) -> Fault {
        let s = "network"@;
        if !slot_fits(t, s, "host"@, Expected::Text, false) {
            Fault::Type { path: dotted(s, "host"@), expected: Expected::Text }
        } else if !slot_fits(t, s, "port"@, short(), false) {
            Fault::Type { path: dotted(s, "port"@), expected: short() }
        } else if !slot_fits(t, s, "heartbeat_timeout"@, wide(), false) {
            Fault::Type { path: dotted(s, "heartbeat_timeout"@), expected: wide() }
        } else if !slot_fits(t, s, "heartbeat_interval"@, wide(), false) {
            Fault::Type { path: dotted(s, "heartbeat_interval"@), expected: wide() }
        } else {
            Fault::Type { path: dotted(s, "real_ip_header"@), expected: Expected::TextList }
        }
    }
}

impl Network {
    fn port(root: &Value, default: u16) -> (r: Result<u16, Error>)
        ensures
            match r {
                Ok(n) => {
                    &&& slot_fits(root.tree(), "network"@, "port"@, short(), false)
                    &&& n == number_at(root.tree(), "network"@, "port"@, default as int)
                },
                Err(e) => slot_conflict(root.tree(), e@, "network"@, "port"@, short(), false),
            },
    {
        match number_field(root, "network", "port", u16::MAX as u64, default as u64) {
            Ok(n) => Ok(n as u16),
            Err(e) => Err(e),
        }
    }

    /// Reads the section `network` from the root table of a file.
    pub fn load(root: &Value) -> (r: Result<Network, Error>)
        ensures
            match r {
                Ok(s) => NetworkView::fits(root.tree()) && s@ == NetworkView::merged(root.tree()),
                Err(e) => {
                    &&& !NetworkView::fits(root.tree())
                    &&& e@ == NetworkView::first_conflict(root.tree())
                },
            },
    {
        let base = Network::default();
        let host = text_field(root, "network", "host", base.host)?;
        let port = Network::port(root, base.port)?;
        let heartbeat_timeout = number_field(
            root,
            "network",
            "heartbeat_timeout",
            u64::MAX,
            base.heartbeat_timeout,
        )?;
        let heartbeat_interval = number_field(
            root,
            "network",
            "heartbeat_interval",
            u64::MAX,
            base.heartbeat_interval,
        )?;
        let real_ip_header = opt_texts_field(root, "network", "real_ip_header")?;
        Ok(Network { host, port, heartbeat_timeout, heartbeat_interval, real_ip_header })
    }
}

impl Limitation {
    /// The bound of the field `field` in `t`, or `default`.
    pub open spec fn bound_at(t: Tree, field: Seq<char>, default: u64) -> u64 {
        number_at(t, "limitation"@, field, default as int) as u64
    }

    /// Whether the field `field` is absent from `t` or a bound.
    pub open spec fn bound_fits(t: Tree, field: Seq<char>) -> bool {
        slot_fits(t, "limitation"@, field, wide(), false)
    }

    /// Whether the field `field` is no bound in `t`, and `e` says so.
    pub open spec fn bound_conflict(t: Tree, e: Fault, field: Seq<char>) -> bool {
        slot_conflict(t, e, "limitation"@, field, wide(), false)
    }

    /// The section `limitation` of `t`: each bound that `t` sets, and the
    /// default for the others.
    pub open spec fn merged(t: Tree) -> Limitation {
        let base = Limitation::initial();
        Limitation {
            max_message_length: Limitation::bound_at(
                t,
                "max_message_length"@,
                base.max_message_length,
            ),
            max_subscriptions: Limitation::bound_at(
                t,
                "max_subscriptions"@,
                base.max_subscriptions,
            ),
            max_filters: Limitation::bound_at(t, "max_filters"@, base.max_filters),
            max_limit: Limitation::bound_at(t, "max_limit"@, base.max_limit),
            max_subid_length: Limitation::bound_at(t, "max_subid_length"@, base.max_subid_length),
            min_prefix: Limitation::bound_at(t, "min_prefix"@, base.min_prefix),
            max_event_tags: Limitation::bound_at(t, "max_event_tags"@, base.max_event_tags),
            max_event_time_older_than_now: Limitation::bound_at(
                t,
                "max_event_time_older_than_now"@,
                base.max_event_time_older_than_now,
            ),
            max_event_time_newer_than_now: Limitation::bound_at(
                t,
                "max_event_time_newer_than_now"@,
                base.max_event_time_newer_than_now,
            ),
        }
    }

    /// Whether each field of the section is absent from `t` or of its kind.
    pub open spec fn fits(t: Tree) -> bool {
        &&& Limitation::bound_fits(t, "max_message_length"@)
        &&& Limitation::bound_fits(t, "max_subscriptions"@)
        &&& Limitation::bound_fits(t, "max_filters"@)
        &&& Limitation::bound_fits(t, "max_limit"@)
        &&& Limitation::bound_fits(t, "max_subid_length"@)
        &&& Limitation::bound_fits(t, "min_prefix"@)
        &&& Limitation::bound_fits(t, "max_event_tags"@)
        &&& Limitation::bound_fits(t, "max_event_time_older_than_now"@)
        &&& Limitation::bound_fits(t, "max_event_time_newer_than_now"@)
    }

    /// Whether a field of the section is of the wrong kind in `t`, and `e`
    /// says so.
    pub open spec fn conflict(t: Tree, e: Fault) -> bool {
        ||| Limitation::bound_conflict(t, e, "max_message_length"@)
        ||| Limitation::bound_conflict(t, e, "max_subscriptions"@)
        ||| Limitation::bound_conflict(t, e, "max_filters"@)
        ||| Limitation::bound_conflict(t, e, "max_limit"@)
        ||| Limitation::bound_conflict(t, e, "max_subid_length"@)
        ||| Limitation::bound_conflict(t, e, "min_prefix"@)
        ||| Limitation::bound_conflict(t, e, "max_event_tags"@)
        ||| Limitation::bound_conflict(t, e, "max_event_time_older_than_now"@)
        ||| Limitation::bound_conflict(t, e, "max_event_time_newer_than_now"@)
    }

    /// The conflict of the first field of the section that does not fit.
    pub open spec fn first_conflict(t: Tree) -> Fault {
        let f = if !Limitation::bound_fits(t, "max_message_length"@) {
            "max_message_length"@
        } else if !Limitation::bound_fits(t, "max_subscriptions"@) {
            "max_subscriptions"@
        } else if !Limitation::bound_fits(t, "max_filters"@) {
            "max_filters"@
        } else if !Limitation::bound_fits(t, "max_limit"@) {
            "max_limit"@
        } else if !Limitation::bound_fits(t, "max_subid_length"@) {
            "max_subid_length"@
        } else if !Limitation::bound_fits(t, "min_prefix"@) {
            "min_prefix"@
        } else if !Limitation::bound_fits(t, "max_event_tags"@) {
            "max_event_tags"@
        } else if !Limitation::bound_fits(t, "max_event_time_older_than_now"@) {
            "max_event_time_older_than_now"@
        } else {
            "max_event_time_newer_than_now"@
        };
        Fault::Type { path: dotted("limitation"@, f), expected: wide() }
    }

    fn bound(root: &Value, field: &str, default: u64) -> (r: Result<u64, Error>)
        ensures
            match r {
                Ok(n) => {
                    &&& Limitation::bound_fits(root.tree(), field@)
                    &&& n == Limitation::bound_at(root.tree(), field@, default)
                },
                Err(e) => Limitation::bound_conflict(root.tree(), e@, field@),
            },
    {
        number_field(root, "limitation", field, u64::MAX, default)
    }

    /// Reads the section `limitation` from the root table of a file.
    pub fn load(root: &Value) -> (r: Result<Limitation, Error>)
        ensures
            match r {
                Ok(s) => Limitation::fits(root.tree()) && s == Limitation::merged(root.tree()),
                Err(e) => {
                    &&& !Limitation::fits(root.tree())
                    &&& e@ == Limitation::first_conflict(root.tree())
                },
            },
    {
        let base = Limitation::default();
        Ok(
            Limitation {
                max_message_length: Limitation::bound(
                    root,
                    "max_message_length",
                    base.max_message_length,
                )?,
                max_subscriptions: Limitation::bound(
                    root,
                    "max_subscriptions",
                    base.max_subscriptions,
                )?,
                max_filters: Limitation::bound(root, "max_filters", base.max_filters)?,
                max_limit: Limitation::bound(root, "max_limit", base.max_limit)?,
                max_subid_length: Limitation::bound(
                    root,
                    "max_subid_length",
                    base.max_subid_length,
                )?,
                min_prefix: Limitation::bound(root, "min_prefix", base.min_prefix)?,
                max_event_tags: Limitation::bound(root, "max_event_tags", base.max_event_tags)?,
                max_event_time_older_than_now: Limitation::bound(
                    root,
                    "max_event_time_older_than_now",
                    base.max_event_time_older_than_now,
                )?,
                max_event_time_newer_than_now: Limitation::bound(
                    root,
                    "max_event_time_newer_than_now",
                    base.max_event_time_newer_than_now,
                )?,
            },
        )
    }
}

} // verus!
