//! Tor's bootstrap phases: the tags tor reports them under, and the summary
//! shown for each.
use vstd::prelude::*;

use crate::text::str_eq;

verus! {

/// A bootstrap phase, as tor names it in its status events.
#[derive(Debug, Clone, Copy, PartialEq, Eq, Structural)]
pub enum tego_tor_bootstrap_tag {
    tego_tor_bootstrap_tag_invalid,
    tego_tor_bootstrap_tag_starting,
    tego_tor_bootstrap_tag_conn_pt,
    tego_tor_bootstrap_tag_conn_done_pt,
    tego_tor_bootstrap_tag_conn_proxy,
    tego_tor_bootstrap_tag_conn_done_proxy,
    tego_tor_bootstrap_tag_conn,
    tego_tor_bootstrap_tag_conn_done,
    tego_tor_bootstrap_tag_handshake,
    tego_tor_bootstrap_tag_handshake_done,
    tego_tor_bootstrap_tag_onehop_create,
    tego_tor_bootstrap_tag_requesting_status,
    tego_tor_bootstrap_tag_loading_status,
    tego_tor_bootstrap_tag_loading_keys,
    tego_tor_bootstrap_tag_requesting_descriptors,
    tego_tor_bootstrap_tag_loading_descriptors,
    tego_tor_bootstrap_tag_enough_dirinfo,
    tego_tor_bootstrap_tag_ap_conn_pt_summary,
    tego_tor_bootstrap_tag_ap_conn_done_pt,
    tego_tor_bootstrap_tag_ap_conn_proxy,
    tego_tor_bootstrap_tag_ap_conn_done_proxy,
    tego_tor_bootstrap_tag_ap_conn,
    tego_tor_bootstrap_tag_ap_conn_done,
    tego_tor_bootstrap_tag_ap_handshake,
    tego_tor_bootstrap_tag_ap_handshake_done,
    tego_tor_bootstrap_tag_circuit_create,
    tego_tor_bootstrap_tag_done,

    tego_tor_bootstrap_tag_count,
}

/// The tag tor uses for a phase; `None` for the two that are not phases.
pub open spec fn tag_name(tag: tego_tor_bootstrap_tag) -> Option<Seq<char>> {
    match tag {
        tego_tor_bootstrap_tag::tego_tor_bootstrap_tag_starting => Some("starting"@),
        tego_tor_bootstrap_tag::tego_tor_bootstrap_tag_conn_pt => Some("conn_pt"@),
        tego_tor_bootstrap_tag::tego_tor_bootstrap_tag_conn_done_pt => Some("conn_done_pt"@),
        tego_tor_bootstrap_tag::tego_tor_bootstrap_tag_conn_proxy => Some("conn_proxy"@),
        tego_tor_bootstrap_tag::tego_tor_bootstrap_tag_conn_done_proxy => Some("conn_done_proxy"@),
        tego_tor_bootstrap_tag::tego_tor_bootstrap_tag_conn => Some("conn"@),
        tego_tor_bootstrap_tag::tego_tor_bootstrap_tag_conn_done => Some("conn_done"@),
        tego_tor_bootstrap_tag::tego_tor_bootstrap_tag_handshake => Some("handshake"@),
        tego_tor_bootstrap_tag::tego_tor_bootstrap_tag_handshake_done => Some("handshake_done"@),
        tego_tor_bootstrap_tag::tego_tor_bootstrap_tag_onehop_create => Some("onehop_create"@),
        tego_tor_bootstrap_tag::tego_tor_bootstrap_tag_requesting_status => Some("requesting_status"@),
        tego_tor_bootstrap_tag::tego_tor_bootstrap_tag_loading_status => Some("loading_status"@),
        tego_tor_bootstrap_tag::tego_tor_bootstrap_tag_loading_keys => Some("loading_keys"@),
        tego_tor_bootstrap_tag::tego_tor_bootstrap_tag_requesting_descriptors => Some("requesting_descriptors"@),
        tego_tor_bootstrap_tag::tego_tor_bootstrap_tag_loading_descriptors => Some("loading_descriptors"@),
        tego_tor_bootstrap_tag::tego_tor_bootstrap_tag_enough_dirinfo => Some("enough_dirinfo"@),
        tego_tor_bootstrap_tag::tego_tor_bootstrap_tag_ap_conn_pt_summary => Some("ap_conn_pt"@),
        tego_tor_bootstrap_tag::tego_tor_bootstrap_tag_ap_conn_done_pt => Some("ap_conn_done_pt"@),
        tego_tor_bootstrap_tag::tego_tor_bootstrap_tag_ap_conn_proxy => Some("ap_conn_proxy"@),
        tego_tor_bootstrap_tag::tego_tor_bootstrap_tag_ap_conn_done_proxy => Some("ap_conn_done_proxy"@),
        tego_tor_bootstrap_tag::tego_tor_bootstrap_tag_ap_conn => Some("ap_conn"@),
        tego_tor_bootstrap_tag::tego_tor_bootstrap_tag_ap_conn_done => Some("ap_conn_done"@),
        tego_tor_bootstrap_tag::tego_tor_bootstrap_tag_ap_handshake => Some("ap_handshake"@),
        tego_tor_bootstrap_tag::tego_tor_bootstrap_tag_ap_handshake_done => Some("ap_handshake_done"@),
        tego_tor_bootstrap_tag::tego_tor_bootstrap_tag_circuit_create => Some("circuit_create"@),
        tego_tor_bootstrap_tag::tego_tor_bootstrap_tag_done => Some("done"@),
        _ => None,
    }
}

/// The phase a tag names; unknown tags give the invalid phase.
pub open spec fn tag_from_name(name: Seq<char>) -> tego_tor_bootstrap_tag {
    if name == "starting"@ {
        tego_tor_bootstrap_tag::tego_tor_bootstrap_tag_starting
    }
    else if name == "conn_pt"@ {
        tego_tor_bootstrap_tag::tego_tor_bootstrap_tag_conn_pt
    }
    else if name == "conn_done_pt"@ {
        tego_tor_bootstrap_tag::tego_tor_bootstrap_tag_conn_done_pt
    }
    else if name == "conn_proxy"@ {
        tego_tor_bootstrap_tag::tego_tor_bootstrap_tag_conn_proxy
    }
    else if name == "conn_done_proxy"@ {
        tego_tor_bootstrap_tag::tego_tor_bootstrap_tag_conn_done_proxy
    }
    else if name == "conn"@ {
        tego_tor_bootstrap_tag::tego_tor_bootstrap_tag_conn
    }
    else if name == "conn_done"@ {
        tego_tor_bootstrap_tag::tego_tor_bootstrap_tag_conn_done
    }
    else if name == "handshake"@ {
        tego_tor_bootstrap_tag::tego_tor_bootstrap_tag_handshake
    }
    else if name == "handshake_done"@ {
        tego_tor_bootstrap_tag::tego_tor_bootstrap_tag_handshake_done
    }
    else if name == "onehop_create"@ {
        tego_tor_bootstrap_tag::tego_tor_bootstrap_tag_onehop_create
    }
    else if name == "requesting_status"@ {
        tego_tor_bootstrap_tag::tego_tor_bootstrap_tag_requesting_status
    }
    else if name == "loading_status"@ {
        tego_tor_bootstrap_tag::tego_tor_bootstrap_tag_loading_status
    }
    else if name == "loading_keys"@ {
        tego_tor_bootstrap_tag::tego_tor_bootstrap_tag_loading_keys
    }
    else if name == "requesting_descriptors"@ {
        tego_tor_bootstrap_tag::tego_tor_bootstrap_tag_requesting_descriptors
    }
    else if name == "loading_descriptors"@ {
        tego_tor_bootstrap_tag::tego_tor_bootstrap_tag_loading_descriptors
    }
    else if name == "enough_dirinfo"@ {
        tego_tor_bootstrap_tag::tego_tor_bootstrap_tag_enough_dirinfo
    }
    else if name == "ap_conn_pt"@ {
        tego_tor_bootstrap_tag::tego_tor_bootstrap_tag_ap_conn_pt_summary
    }
    else if name == "ap_conn_done_pt"@ {
        tego_tor_bootstrap_tag::tego_tor_bootstrap_tag_ap_conn_done_pt
    }
    else if name == "ap_conn_proxy"@ {
        tego_tor_bootstrap_tag::tego_tor_bootstrap_tag_ap_conn_proxy
    }
    else if name == "ap_conn_done_proxy"@ {
        tego_tor_bootstrap_tag::tego_tor_bootstrap_tag_ap_conn_done_proxy
    }
    else if name == "ap_conn"@ {
        tego_tor_bootstrap_tag::tego_tor_bootstrap_tag_ap_conn
    }
    else if name == "ap_conn_done"@ {
        tego_tor_bootstrap_tag::tego_tor_bootstrap_tag_ap_conn_done
    }
    else if name == "ap_handshake"@ {
        tego_tor_bootstrap_tag::tego_tor_bootstrap_tag_ap_handshake
    }
    else if name == "ap_handshake_done"@ {
        tego_tor_bootstrap_tag::tego_tor_bootstrap_tag_ap_handshake_done
    }
    else if name == "circuit_create"@ {
        tego_tor_bootstrap_tag::tego_tor_bootstrap_tag_circuit_create
    }
    else if name == "done"@ {
        tego_tor_bootstrap_tag::tego_tor_bootstrap_tag_done
    }
    else {
        tego_tor_bootstrap_tag::tego_tor_bootstrap_tag_invalid
    }
}

/// The summary shown for a phase; `None` for the two that are not phases.
pub open spec fn summary_text(tag: tego_tor_bootstrap_tag) -> Option<Seq<char>> {
    match tag {
        tego_tor_bootstrap_tag::tego_tor_bootstrap_tag_starting => Some("Starting"@),
        tego_tor_bootstrap_tag::tego_tor_bootstrap_tag_conn_pt => Some("Connecting to pluggable transport"@),
        tego_tor_bootstrap_tag::tego_tor_bootstrap_tag_conn_done_pt => Some("Connected to pluggable transport"@),
        tego_tor_bootstrap_tag::tego_tor_bootstrap_tag_conn_proxy => Some("Connecting to proxy"@),
        tego_tor_bootstrap_tag::tego_tor_bootstrap_tag_conn_done_proxy => Some("Connected to proxy"@),
        tego_tor_bootstrap_tag::tego_tor_bootstrap_tag_conn => Some("Connecting to a relay"@),
        tego_tor_bootstrap_tag::tego_tor_bootstrap_tag_conn_done => Some("Connected to a relay"@),
        tego_tor_bootstrap_tag::tego_tor_bootstrap_tag_handshake => Some("Handshaking with a relay"@),
        tego_tor_bootstrap_tag::tego_tor_bootstrap_tag_handshake_done => Some("Handshake with a relay done"@),
        tego_tor_bootstrap_tag::tego_tor_bootstrap_tag_onehop_create => Some("Establishing an encrypted directory connection"@),
        tego_tor_bootstrap_tag::tego_tor_bootstrap_tag_requesting_status => Some("Asking for networkstatus consensus"@),
        tego_tor_bootstrap_tag::tego_tor_bootstrap_tag_loading_status => Some("Loading networkstatus consensus"@),
        tego_tor_bootstrap_tag::tego_tor_bootstrap_tag_loading_keys => Some("Loading authority key certs"@),
        tego_tor_bootstrap_tag::tego_tor_bootstrap_tag_requesting_descriptors => Some("Asking for relay descriptors"@),
        tego_tor_bootstrap_tag::tego_tor_bootstrap_tag_loading_descriptors => Some("Loading relay descriptors"@),
        tego_tor_bootstrap_tag::tego_tor_bootstrap_tag_enough_dirinfo => Some("Loaded enough directory info to build circuits"@),
        tego_tor_bootstrap_tag::tego_tor_bootstrap_tag_ap_conn_pt_summary => Some("Connecting to pluggable transport to build circuits"@),
        tego_tor_bootstrap_tag::tego_tor_bootstrap_tag_ap_conn_done_pt => Some("Connected to pluggable transport to build circuits"@),
        tego_tor_bootstrap_tag::tego_tor_bootstrap_tag_ap_conn_proxy => Some("Connecting to proxy to build circuits"@),
        tego_tor_bootstrap_tag::tego_tor_bootstrap_tag_ap_conn_done_proxy => Some("Connected to proxy to build circuits"@),
        tego_tor_bootstrap_tag::tego_tor_bootstrap_tag_ap_conn => Some("Connecting to a relay to build circuits"@),
        tego_tor_bootstrap_tag::tego_tor_bootstrap_tag_ap_conn_done => Some("Connected to a relay to build circuits"@),
        tego_tor_bootstrap_tag::tego_tor_bootstrap_tag_ap_handshake => Some("Finishing handshake with a relay to build circuits"@),
        tego_tor_bootstrap_tag::tego_tor_bootstrap_tag_ap_handshake_done => Some("Handshake finished with a relay to build circuits"@),
        tego_tor_bootstrap_tag::tego_tor_bootstrap_tag_circuit_create => Some("Establishing a Tor circuit"@),
        tego_tor_bootstrap_tag::tego_tor_bootstrap_tag_done => Some("Done"@),
        _ => None,
    }
}

/// The value the C interface gives a phase.
pub open spec fn tag_code(tag: tego_tor_bootstrap_tag) -> i32 {
    match tag {
        tego_tor_bootstrap_tag::tego_tor_bootstrap_tag_invalid => -1i32,
        tego_tor_bootstrap_tag::tego_tor_bootstrap_tag_starting => 0i32,
        tego_tor_bootstrap_tag::tego_tor_bootstrap_tag_conn_pt => 1i32,
        tego_tor_bootstrap_tag::tego_tor_bootstrap_tag_conn_done_pt => 2i32,
        tego_tor_bootstrap_tag::tego_tor_bootstrap_tag_conn_proxy => 3i32,
        tego_tor_bootstrap_tag::tego_tor_bootstrap_tag_conn_done_proxy => 4i32,
        tego_tor_bootstrap_tag::tego_tor_bootstrap_tag_conn => 5i32,
        tego_tor_bootstrap_tag::tego_tor_bootstrap_tag_conn_done => 6i32,
        tego_tor_bootstrap_tag::tego_tor_bootstrap_tag_handshake => 7i32,
        tego_tor_bootstrap_tag::tego_tor_bootstrap_tag_handshake_done => 8i32,
        tego_tor_bootstrap_tag::tego_tor_bootstrap_tag_onehop_create => 9i32,
        tego_tor_bootstrap_tag::tego_tor_bootstrap_tag_requesting_status => 10i32,
        tego_tor_bootstrap_tag::tego_tor_bootstrap_tag_loading_status => 11i32,
        tego_tor_bootstrap_tag::tego_tor_bootstrap_tag_loading_keys => 12i32,
        tego_tor_bootstrap_tag::tego_tor_bootstrap_tag_requesting_descriptors => 13i32,
        tego_tor_bootstrap_tag::tego_tor_bootstrap_tag_loading_descriptors => 14i32,
        tego_tor_bootstrap_tag::tego_tor_bootstrap_tag_enough_dirinfo => 15i32,
        tego_tor_bootstrap_tag::tego_tor_bootstrap_tag_ap_conn_pt_summary => 16i32,
        tego_tor_bootstrap_tag::tego_tor_bootstrap_tag_ap_conn_done_pt => 17i32,
        tego_tor_bootstrap_tag::tego_tor_bootstrap_tag_ap_conn_proxy => 18i32,
        tego_tor_bootstrap_tag::tego_tor_bootstrap_tag_ap_conn_done_proxy => 19i32,
        tego_tor_bootstrap_tag::tego_tor_bootstrap_tag_ap_conn => 20i32,
        tego_tor_bootstrap_tag::tego_tor_bootstrap_tag_ap_conn_done => 21i32,
        tego_tor_bootstrap_tag::tego_tor_bootstrap_tag_ap_handshake => 22i32,
        tego_tor_bootstrap_tag::tego_tor_bootstrap_tag_ap_handshake_done => 23i32,
        tego_tor_bootstrap_tag::tego_tor_bootstrap_tag_circuit_create => 24i32,
        tego_tor_bootstrap_tag::tego_tor_bootstrap_tag_done => 25i32,
        tego_tor_bootstrap_tag::tego_tor_bootstrap_tag_count => 26i32,
    }
}

/// A phase that has no summary.
#[derive(Debug, Clone, Copy, PartialEq, Eq, Structural)]
pub struct UnknownBootstrapTag {
    /// the value the C interface gives the phase
    pub code: i32,
}

impl tego_tor_bootstrap_tag {
    /// Reads a phase from tor's tag for it.
    pub fn from_name(value: &str) -> (tag: Self)
        ensures
            tag == tag_from_name(value@),
    {
        if str_eq(value, "starting") {
            tego_tor_bootstrap_tag::tego_tor_bootstrap_tag_starting
        }
        else if str_eq(value, "conn_pt") {
            tego_tor_bootstrap_tag::tego_tor_bootstrap_tag_conn_pt
        }
        else if str_eq(value, "conn_done_pt") {
            tego_tor_bootstrap_tag::tego_tor_bootstrap_tag_conn_done_pt
        }
        else if str_eq(value, "conn_proxy") {
            tego_tor_bootstrap_tag::tego_tor_bootstrap_tag_conn_proxy
        }
        else if str_eq(value, "conn_done_proxy") {
            tego_tor_bootstrap_tag::tego_tor_bootstrap_tag_conn_done_proxy
        }
        else if str_eq(value, "conn") {
            tego_tor_bootstrap_tag::tego_tor_bootstrap_tag_conn
        }
        else if str_eq(value, "conn_done") {
            tego_tor_bootstrap_tag::tego_tor_bootstrap_tag_conn_done
        }
        else if str_eq(value, "handshake") {
            tego_tor_bootstrap_tag::tego_tor_bootstrap_tag_handshake
        }
        else if str_eq(value, "handshake_done") {
            tego_tor_bootstrap_tag::tego_tor_bootstrap_tag_handshake_done
        }
        else if str_eq(value, "onehop_create") {
            tego_tor_bootstrap_tag::tego_tor_bootstrap_tag_onehop_create
        }
        else if str_eq(value, "requesting_status") {
            tego_tor_bootstrap_tag::tego_tor_bootstrap_tag_requesting_status
        }
        else if str_eq(value, "loading_status") {
            tego_tor_bootstrap_tag::tego_tor_bootstrap_tag_loading_status
        }
        else if str_eq(value, "loading_keys") {
            tego_tor_bootstrap_tag::tego_tor_bootstrap_tag_loading_keys
        }
        else if str_eq(value, "requesting_descriptors") {
            tego_tor_bootstrap_tag::tego_tor_bootstrap_tag_requesting_descriptors
        }
        else if str_eq(value, "loading_descriptors") {
            tego_tor_bootstrap_tag::tego_tor_bootstrap_tag_loading_descriptors
        }
        else if str_eq(value, "enough_dirinfo") {
            tego_tor_bootstrap_tag::tego_tor_bootstrap_tag_enough_dirinfo
        }
        else if str_eq(value, "ap_conn_pt") {
            tego_tor_bootstrap_tag::tego_tor_bootstrap_tag_ap_conn_pt_summary
        }
        else if str_eq(value, "ap_conn_done_pt") {
            tego_tor_bootstrap_tag::tego_tor_bootstrap_tag_ap_conn_done_pt
        }
        else if str_eq(value, "ap_conn_proxy") {
            tego_tor_bootstrap_tag::tego_tor_bootstrap_tag_ap_conn_proxy
        }
        else if str_eq(value, "ap_conn_done_proxy") {
            tego_tor_bootstrap_tag::tego_tor_bootstrap_tag_ap_conn_done_proxy
        }
        else if str_eq(value, "ap_conn") {
            tego_tor_bootstrap_tag::tego_tor_bootstrap_tag_ap_conn
        }
        else if str_eq(value, "ap_conn_done") {
            tego_tor_bootstrap_tag::tego_tor_bootstrap_tag_ap_conn_done
        }
        else if str_eq(value, "ap_handshake") {
            tego_tor_bootstrap_tag::tego_tor_bootstrap_tag_ap_handshake
        }
        else if str_eq(value, "ap_handshake_done") {
            tego_tor_bootstrap_tag::tego_tor_bootstrap_tag_ap_handshake_done
        }
        else if str_eq(value, "circuit_create") {
            tego_tor_bootstrap_tag::tego_tor_bootstrap_tag_circuit_create
        }
        else if str_eq(value, "done") {
            tego_tor_bootstrap_tag::tego_tor_bootstrap_tag_done
        }
        else {
            tego_tor_bootstrap_tag::tego_tor_bootstrap_tag_invalid
        }
    }

    /// The value the C interface gives this phase.
    pub fn code(&self) -> (c: i32)
        ensures
            c == tag_code(*self),
    {
        match self {
            tego_tor_bootstrap_tag::tego_tor_bootstrap_tag_invalid => -1i32,
            tego_tor_bootstrap_tag::tego_tor_bootstrap_tag_starting => 0i32,
            tego_tor_bootstrap_tag::tego_tor_bootstrap_tag_conn_pt => 1i32,
            tego_tor_bootstrap_tag::tego_tor_bootstrap_tag_conn_done_pt => 2i32,
            tego_tor_bootstrap_tag::tego_tor_bootstrap_tag_conn_proxy => 3i32,
            tego_tor_bootstrap_tag::tego_tor_bootstrap_tag_conn_done_proxy => 4i32,
            tego_tor_bootstrap_tag::tego_tor_bootstrap_tag_conn => 5i32,
            tego_tor_bootstrap_tag::tego_tor_bootstrap_tag_conn_done => 6i32,
            tego_tor_bootstrap_tag::tego_tor_bootstrap_tag_handshake => 7i32,
            tego_tor_bootstrap_tag::tego_tor_bootstrap_tag_handshake_done => 8i32,
            tego_tor_bootstrap_tag::tego_tor_bootstrap_tag_onehop_create => 9i32,
            tego_tor_bootstrap_tag::tego_tor_bootstrap_tag_requesting_status => 10i32,
            tego_tor_bootstrap_tag::tego_tor_bootstrap_tag_loading_status => 11i32,
            tego_tor_bootstrap_tag::tego_tor_bootstrap_tag_loading_keys => 12i32,
            tego_tor_bootstrap_tag::tego_tor_bootstrap_tag_requesting_descriptors => 13i32,
            tego_tor_bootstrap_tag::tego_tor_bootstrap_tag_loading_descriptors => 14i32,
            tego_tor_bootstrap_tag::tego_tor_bootstrap_tag_enough_dirinfo => 15i32,
            tego_tor_bootstrap_tag::tego_tor_bootstrap_tag_ap_conn_pt_summary => 16i32,
            tego_tor_bootstrap_tag::tego_tor_bootstrap_tag_ap_conn_done_pt => 17i32,
            tego_tor_bootstrap_tag::tego_tor_bootstrap_tag_ap_conn_proxy => 18i32,
            tego_tor_bootstrap_tag::tego_tor_bootstrap_tag_ap_conn_done_proxy => 19i32,
            tego_tor_bootstrap_tag::tego_tor_bootstrap_tag_ap_conn => 20i32,
            tego_tor_bootstrap_tag::tego_tor_bootstrap_tag_ap_conn_done => 21i32,
            tego_tor_bootstrap_tag::tego_tor_bootstrap_tag_ap_handshake => 22i32,
            tego_tor_bootstrap_tag::tego_tor_bootstrap_tag_ap_handshake_done => 23i32,
            tego_tor_bootstrap_tag::tego_tor_bootstrap_tag_circuit_create => 24i32,
            tego_tor_bootstrap_tag::tego_tor_bootstrap_tag_done => 25i32,
            tego_tor_bootstrap_tag::tego_tor_bootstrap_tag_count => 26i32,
        }
    }

    /// The summary shown for this phase.
    pub fn to_summary(&self) -> (r: Result<&'static str, UnknownBootstrapTag>)
        ensures
            match r {
                Ok(s) => summary_text(*self) == Some(s@),
                Err(e) => summary_text(*self) is None && e.code == tag_code(*self),
            },
    {
        match self {
            tego_tor_bootstrap_tag::tego_tor_bootstrap_tag_starting => Ok("Starting"),
            tego_tor_bootstrap_tag::tego_tor_bootstrap_tag_conn_pt => Ok("Connecting to pluggable transport"),
            tego_tor_bootstrap_tag::tego_tor_bootstrap_tag_conn_done_pt => Ok("Connected to pluggable transport"),
            tego_tor_bootstrap_tag::tego_tor_bootstrap_tag_conn_proxy => Ok("Connecting to proxy"),
            tego_tor_bootstrap_tag::tego_tor_bootstrap_tag_conn_done_proxy => Ok("Connected to proxy"),
            tego_tor_bootstrap_tag::tego_tor_bootstrap_tag_conn => Ok("Connecting to a relay"),
            tego_tor_bootstrap_tag::tego_tor_bootstrap_tag_conn_done => Ok("Connected to a relay"),
            tego_tor_bootstrap_tag::tego_tor_bootstrap_tag_handshake => Ok("Handshaking with a relay"),
            tego_tor_bootstrap_tag::tego_tor_bootstrap_tag_handshake_done => Ok("Handshake with a relay done"),
            tego_tor_bootstrap_tag::tego_tor_bootstrap_tag_onehop_create => Ok("Establishing an encrypted directory connection"),
            tego_tor_bootstrap_tag::tego_tor_bootstrap_tag_requesting_status => Ok("Asking for networkstatus consensus"),
            tego_tor_bootstrap_tag::tego_tor_bootstrap_tag_loading_status => Ok("Loading networkstatus consensus"),
            tego_tor_bootstrap_tag::tego_tor_bootstrap_tag_loading_keys => Ok("Loading authority key certs"),
            tego_tor_bootstrap_tag::tego_tor_bootstrap_tag_requesting_descriptors => Ok("Asking for relay descriptors"),
            tego_tor_bootstrap_tag::tego_tor_bootstrap_tag_loading_descriptors => Ok("Loading relay descriptors"),
            tego_tor_bootstrap_tag::tego_tor_bootstrap_tag_enough_dirinfo => Ok("Loaded enough directory info to build circuits"),
            tego_tor_bootstrap_tag::tego_tor_bootstrap_tag_ap_conn_pt_summary => Ok("Connecting to pluggable transport to build circuits"),
            tego_tor_bootstrap_tag::tego_tor_bootstrap_tag_ap_conn_done_pt => Ok("Connected to pluggable transport to build circuits"),
            tego_tor_bootstrap_tag::tego_tor_bootstrap_tag_ap_conn_proxy => Ok("Connecting to proxy to build circuits"),
            tego_tor_bootstrap_tag::tego_tor_bootstrap_tag_ap_conn_done_proxy => Ok("Connected to proxy to build circuits"),
            tego_tor_bootstrap_tag::tego_tor_bootstrap_tag_ap_conn => Ok("Connecting to a relay to build circuits"),
            tego_tor_bootstrap_tag::tego_tor_bootstrap_tag_ap_conn_done => Ok("Connected to a relay to build circuits"),
            tego_tor_bootstrap_tag::tego_tor_bootstrap_tag_ap_handshake => Ok("Finishing handshake with a relay to build circuits"),
            tego_tor_bootstrap_tag::tego_tor_bootstrap_tag_ap_handshake_done => Ok("Handshake finished with a relay to build circuits"),
            tego_tor_bootstrap_tag::tego_tor_bootstrap_tag_circuit_create => Ok("Establishing a Tor circuit"),
            tego_tor_bootstrap_tag::tego_tor_bootstrap_tag_done => Ok("Done"),
            _ => Err(UnknownBootstrapTag { code: self.code() }),
        }
    }
}

impl From<&str> for tego_tor_bootstrap_tag {
    fn from(value: &str) -> (tag: Self) {
        tego_tor_bootstrap_tag::from_name(value)
    }
}

impl vstd::std_specs::convert::FromSpecImpl<&str> for tego_tor_bootstrap_tag {
    open spec fn obeys_from_spec() -> bool {
        true
    }

    open spec fn from_spec(v: &str) -> tego_tor_bootstrap_tag {
        tag_from_name(v@)
    }
}

/// Reading the tag of a phase gives the phase back.
pub proof fn lemma_tag_name_round_trip(tag: tego_tor_bootstrap_tag)
    requires
        tag_name(tag) is Some,
    ensures
        tag_from_name(tag_name(tag).unwrap()) == tag,
{
    reveal_strlit("starting");
    reveal_strlit("conn_pt");
    reveal_strlit("conn_done_pt");
    reveal_strlit("conn_proxy");
    reveal_strlit("conn_done_proxy");
    reveal_strlit("conn");
    reveal_strlit("conn_done");
    reveal_strlit("handshake");
    reveal_strlit("handshake_done");
    reveal_strlit("onehop_create");
    reveal_strlit("requesting_status");
    reveal_strlit("loading_status");
    reveal_strlit("loading_keys");
    reveal_strlit("requesting_descriptors");
    reveal_strlit("loading_descriptors");
    reveal_strlit("enough_dirinfo");
    reveal_strlit("ap_conn_pt");
    reveal_strlit("ap_conn_done_pt");
    reveal_strlit("ap_conn_proxy");
    reveal_strlit("ap_conn_done_proxy");
    reveal_strlit("ap_conn");
    reveal_strlit("ap_conn_done");
    reveal_strlit("ap_handshake");
    reveal_strlit("ap_handshake_done");
    reveal_strlit("circuit_create");
    reveal_strlit("done");
    assert("conn_pt"@ != "starting"@) by { assert("conn_pt"@.len() != "starting"@.len()); }
    assert("conn_done_pt"@ != "starting"@) by { assert("conn_done_pt"@.len() != "starting"@.len()); }
    assert("conn_done_pt"@ != "conn_pt"@) by { assert("conn_done_pt"@.len() != "conn_pt"@.len()); }
    assert("conn_proxy"@ != "starting"@) by { assert("conn_proxy"@.len() != "starting"@.len()); }
    assert("conn_proxy"@ != "conn_pt"@) by { assert("conn_proxy"@.len() != "conn_pt"@.len()); }
    assert("conn_proxy"@ != "conn_done_pt"@) by { assert("conn_proxy"@.len() != "conn_done_pt"@.len()); }
    assert("conn_done_proxy"@ != "starting"@) by { assert("conn_done_proxy"@.len() != "starting"@.len()); }
    assert("conn_done_proxy"@ != "conn_pt"@) by { assert("conn_done_proxy"@.len() != "conn_pt"@.len()); }
    assert("conn_done_proxy"@ != "conn_done_pt"@) by { assert("conn_done_proxy"@.len() != "conn_done_pt"@.len()); }
    assert("conn_done_proxy"@ != "conn_proxy"@) by { assert("conn_done_proxy"@.len() != "conn_proxy"@.len()); }
    assert("conn"@ != "starting"@) by { assert("conn"@.len() != "starting"@.len()); }
    assert("conn"@ != "conn_pt"@) by { assert("conn"@.len() != "conn_pt"@.len()); }
    assert("conn"@ != "conn_done_pt"@) by { assert("conn"@.len() != "conn_done_pt"@.len()); }
    assert("conn"@ != "conn_proxy"@) by { assert("conn"@.len() != "conn_proxy"@.len()); }
    assert("conn"@ != "conn_done_proxy"@) by { assert("conn"@.len() != "conn_done_proxy"@.len()); }
    assert("conn_done"@ != "starting"@) by { assert("conn_done"@.len() != "starting"@.len()); }
    assert("conn_done"@ != "conn_pt"@) by { assert("conn_done"@.len() != "conn_pt"@.len()); }
    assert("conn_done"@ != "conn_done_pt"@) by { assert("conn_done"@.len() != "conn_done_pt"@.len()); }
    assert("conn_done"@ != "conn_proxy"@) by { assert("conn_done"@.len() != "conn_proxy"@.len()); }
    assert("conn_done"@ != "conn_done_proxy"@) by { assert("conn_done"@.len() != "conn_done_proxy"@.len()); }
    assert("conn_done"@ != "conn"@) by { assert("conn_done"@.len() != "conn"@.len()); }
    assert("handshake"@ != "starting"@) by { assert("handshake"@.len() != "starting"@.len()); }
    assert("handshake"@ != "conn_pt"@) by { assert("handshake"@.len() != "conn_pt"@.len()); }
    assert("handshake"@ != "conn_done_pt"@) by { assert("handshake"@.len() != "conn_done_pt"@.len()); }
    assert("handshake"@ != "conn_proxy"@) by { assert("handshake"@.len() != "conn_proxy"@.len()); }
    assert("handshake"@ != "conn_done_proxy"@) by { assert("handshake"@.len() != "conn_done_proxy"@.len()); }
    assert("handshake"@ != "conn"@) by { assert("handshake"@.len() != "conn"@.len()); }
    assert("handshake"@ != "conn_done"@) by { assert("handshake"@[0] != "conn_done"@[0]); }
    assert("handshake_done"@ != "starting"@) by { assert("handshake_done"@.len() != "starting"@.len()); }
    assert("handshake_done"@ != "conn_pt"@) by { assert("handshake_done"@.len() != "conn_pt"@.len()); }
    assert("handshake_done"@ != "conn_done_pt"@) by { assert("handshake_done"@.len() != "conn_done_pt"@.len()); }
    assert("handshake_done"@ != "conn_proxy"@) by { assert("handshake_done"@.len() != "conn_proxy"@.len()); }
    assert("handshake_done"@ != "conn_done_proxy"@) by { assert("handshake_done"@.len() != "conn_done_proxy"@.len()); }
    assert("handshake_done"@ != "conn"@) by { assert("handshake_done"@.len() != "conn"@.len()); }
    assert("handshake_done"@ != "conn_done"@) by { assert("handshake_done"@.len() != "conn_done"@.len()); }
    assert("handshake_done"@ != "handshake"@) by { assert("handshake_done"@.len() != "handshake"@.len()); }
    assert("onehop_create"@ != "starting"@) by { assert("onehop_create"@.len() != "starting"@.len()); }
    assert("onehop_create"@ != "conn_pt"@) by { assert("onehop_create"@.len() != "conn_pt"@.len()); }
    assert("onehop_create"@ != "conn_done_pt"@) by { assert("onehop_create"@.len() != "conn_done_pt"@.len()); }
    assert("onehop_create"@ != "conn_proxy"@) by { assert("onehop_create"@.len() != "conn_proxy"@.len()); }
    assert("onehop_create"@ != "conn_done_proxy"@) by { assert("onehop_create"@.len() != "conn_done_proxy"@.len()); }
    assert("onehop_create"@ != "conn"@) by { assert("onehop_create"@.len() != "conn"@.len()); }
    assert("onehop_create"@ != "conn_done"@) by { assert("onehop_create"@.len() != "conn_done"@.len()); }
    assert("onehop_create"@ != "handshake"@) by { assert("onehop_create"@.len() != "handshake"@.len()); }
    assert("onehop_create"@ != "handshake_done"@) by { assert("onehop_create"@.len() != "handshake_done"@.len()); }
    assert("requesting_status"@ != "starting"@) by { assert("requesting_status"@.len() != "starting"@.len()); }
    assert("requesting_status"@ != "conn_pt"@) by { assert("requesting_status"@.len() != "conn_pt"@.len()); }
    assert("requesting_status"@ != "conn_done_pt"@) by { assert("requesting_status"@.len() != "conn_done_pt"@.len()); }
    assert("requesting_status"@ != "conn_proxy"@) by { assert("requesting_status"@.len() != "conn_proxy"@.len()); }
    assert("requesting_status"@ != "conn_done_proxy"@) by { assert("requesting_status"@.len() != "conn_done_proxy"@.len()); }
    assert("requesting_status"@ != "conn"@) by { assert("requesting_status"@.len() != "conn"@.len()); }
    assert("requesting_status"@ != "conn_done"@) by { assert("requesting_status"@.len() != "conn_done"@.len()); }
    assert("requesting_status"@ != "handshake"@) by { assert("requesting_status"@.len() != "handshake"@.len()); }
    assert("requesting_status"@ != "handshake_done"@) by { assert("requesting_status"@.len() != "handshake_done"@.len()); }
    assert("requesting_status"@ != "onehop_create"@) by { assert("requesting_status"@.len() != "onehop_create"@.len()); }
    assert("loading_status"@ != "starting"@) by { assert("loading_status"@.len() != "starting"@.len()); }
    assert("loading_status"@ != "conn_pt"@) by { assert("loading_status"@.len() != "conn_pt"@.len()); }
    assert("loading_status"@ != "conn_done_pt"@) by { assert("loading_status"@.len() != "conn_done_pt"@.len()); }
    assert("loading_status"@ != "conn_proxy"@) by { assert("loading_status"@.len() != "conn_proxy"@.len()); }
    assert("loading_status"@ != "conn_done_proxy"@) by { assert("loading_status"@.len() != "conn_done_proxy"@.len()); }
    assert("loading_status"@ != "conn"@) by { assert("loading_status"@.len() != "conn"@.len()); }
    assert("loading_status"@ != "conn_done"@) by { assert("loading_status"@.len() != "conn_done"@.len()); }
    assert("loading_status"@ != "handshake"@) by { assert("loading_status"@.len() != "handshake"@.len()); }
    assert("loading_status"@ != "handshake_done"@) by { assert("loading_status"@[0] != "handshake_done"@[0]); }
    assert("loading_status"@ != "onehop_create"@) by { assert("loading_status"@.len() != "onehop_create"@.len()); }
    assert("loading_status"@ != "requesting_status"@) by { assert("loading_status"@.len() != "requesting_status"@.len()); }
    assert("loading_keys"@ != "starting"@) by { assert("loading_keys"@.len() != "starting"@.len()); }
    assert("loading_keys"@ != "conn_pt"@) by { assert("loading_keys"@.len() != "conn_pt"@.len()); }
    assert("loading_keys"@ != "conn_done_pt"@) by { assert("loading_keys"@[0] != "conn_done_pt"@[0]); }
    assert("loading_keys"@ != "conn_proxy"@) by { assert("loading_keys"@.len() != "conn_proxy"@.len()); }
    assert("loading_keys"@ != "conn_done_proxy"@) by { assert("loading_keys"@.len() != "conn_done_proxy"@.len()); }
    assert("loading_keys"@ != "conn"@) by { assert("loading_keys"@.len() != "conn"@.len()); }
    assert("loading_keys"@ != "conn_done"@) by { assert("loading_keys"@.len() != "conn_done"@.len()); }
    assert("loading_keys"@ != "handshake"@) by { assert("loading_keys"@.len() != "handshake"@.len()); }
    assert("loading_keys"@ != "handshake_done"@) by { assert("loading_keys"@.len() != "handshake_done"@.len()); }
    assert("loading_keys"@ != "onehop_create"@) by { assert("loading_keys"@.len() != "onehop_create"@.len()); }
    assert("loading_keys"@ != "requesting_status"@) by { assert("loading_keys"@.len() != "requesting_status"@.len()); }
    assert("loading_keys"@ != "loading_status"@) by { assert("loading_keys"@.len() != "loading_status"@.len()); }
    assert("requesting_descriptors"@ != "starting"@) by { assert("requesting_descriptors"@.len() != "starting"@.len()); }
    assert("requesting_descriptors"@ != "conn_pt"@) by { assert("requesting_descriptors"@.len() != "conn_pt"@.len()); }
    assert("requesting_descriptors"@ != "conn_done_pt"@) by { assert("requesting_descriptors"@.len() != "conn_done_pt"@.len()); }
    assert("requesting_descriptors"@ != "conn_proxy"@) by { assert("requesting_descriptors"@.len() != "conn_proxy"@.len()); }
    assert("requesting_descriptors"@ != "conn_done_proxy"@) by { assert("requesting_descriptors"@.len() != "conn_done_proxy"@.len()); }
    assert("requesting_descriptors"@ != "conn"@) by { assert("requesting_descriptors"@.len() != "conn"@.len()); }
    assert("requesting_descriptors"@ != "conn_done"@) by { assert("requesting_descriptors"@.len() != "conn_done"@.len()); }
    assert("requesting_descriptors"@ != "handshake"@) by { assert("requesting_descriptors"@.len() != "handshake"@.len()); }
    assert("requesting_descriptors"@ != "handshake_done"@) by { assert("requesting_descriptors"@.len() != "handshake_done"@.len()); }
    assert("requesting_descriptors"@ != "onehop_create"@) by { assert("requesting_descriptors"@.len() != "onehop_create"@.len()); }
    assert("requesting_descriptors"@ != "requesting_status"@) by { assert("requesting_descriptors"@.len() != "requesting_status"@.len()); }
    assert("requesting_descriptors"@ != "loading_status"@) by { assert("requesting_descriptors"@.len() != "loading_status"@.len()); }
    assert("requesting_descriptors"@ != "loading_keys"@) by { assert("requesting_descriptors"@.len() != "loading_keys"@.len()); }
    assert("loading_descriptors"@ != "starting"@) by { assert("loading_descriptors"@.len() != "starting"@.len()); }
    assert("loading_descriptors"@ != "conn_pt"@) by { assert("loading_descriptors"@.len() != "conn_pt"@.len()); }
    assert("loading_descriptors"@ != "conn_done_pt"@) by { assert("loading_descriptors"@.len() != "conn_done_pt"@.len()); }
    assert("loading_descriptors"@ != "conn_proxy"@) by { assert("loading_descriptors"@.len() != "conn_proxy"@.len()); }
    assert("loading_descriptors"@ != "conn_done_proxy"@) by { assert("loading_descriptors"@.len() != "conn_done_proxy"@.len()); }
    assert("loading_descriptors"@ != "conn"@) by { assert("loading_descriptors"@.len() != "conn"@.len()); }
    assert("loading_descriptors"@ != "conn_done"@) by { assert("loading_descriptors"@.len() != "conn_done"@.len()); }
    assert("loading_descriptors"@ != "handshake"@) by { assert("loading_descriptors"@.len() != "handshake"@.len()); }
    assert("loading_descriptors"@ != "handshake_done"@) by { assert("loading_descriptors"@.len() != "handshake_done"@.len()); }
    assert("loading_descriptors"@ != "onehop_create"@) by { assert("loading_descriptors"@.len() != "onehop_create"@.len()); }
    assert("loading_descriptors"@ != "requesting_status"@) by { assert("loading_descriptors"@.len() != "requesting_status"@.len()); }
    assert("loading_descriptors"@ != "loading_status"@) by { assert("loading_descriptors"@.len() != "loading_status"@.len()); }
    assert("loading_descriptors"@ != "loading_keys"@) by { assert("loading_descriptors"@.len() != "loading_keys"@.len()); }
    assert("loading_descriptors"@ != "requesting_descriptors"@) by { assert("loading_descriptors"@.len() != "requesting_descriptors"@.len()); }
    assert("enough_dirinfo"@ != "starting"@) by { assert("enough_dirinfo"@.len() != "starting"@.len()); }
    assert("enough_dirinfo"@ != "conn_pt"@) by { assert("enough_dirinfo"@.len() != "conn_pt"@.len()); }
    assert("enough_dirinfo"@ != "conn_done_pt"@) by { assert("enough_dirinfo"@.len() != "conn_done_pt"@.len()); }
    assert("enough_dirinfo"@ != "conn_proxy"@) by { assert("enough_dirinfo"@.len() != "conn_proxy"@.len()); }
    assert("enough_dirinfo"@ != "conn_done_proxy"@) by { assert("enough_dirinfo"@.len() != "conn_done_proxy"@.len()); }
    assert("enough_dirinfo"@ != "conn"@) by { assert("enough_dirinfo"@.len() != "conn"@.len()); }
    assert("enough_dirinfo"@ != "conn_done"@) by { assert("enough_dirinfo"@.len() != "conn_done"@.len()); }
    assert("enough_dirinfo"@ != "handshake"@) by { assert("enough_dirinfo"@.len() != "handshake"@.len()); }
    assert("enough_dirinfo"@ != "handshake_done"@) by { assert("enough_dirinfo"@[0] != "handshake_done"@[0]); }
    assert("enough_dirinfo"@ != "onehop_create"@) by { assert("enough_dirinfo"@.len() != "onehop_create"@.len()); }
    assert("enough_dirinfo"@ != "requesting_status"@) by { assert("enough_dirinfo"@.len() != "requesting_status"@.len()); }
    assert("enough_dirinfo"@ != "loading_status"@) by { assert("enough_dirinfo"@[0] != "loading_status"@[0]); }
    assert("enough_dirinfo"@ != "loading_keys"@) by { assert("enough_dirinfo"@.len() != "loading_keys"@.len()); }
    assert("enough_dirinfo"@ != "requesting_descriptors"@) by { assert("enough_dirinfo"@.len() != "requesting_descriptors"@.len()); }
    assert("enough_dirinfo"@ != "loading_descriptors"@) by { assert("enough_dirinfo"@.len() != "loading_descriptors"@.len()); }
    assert("ap_conn_pt"@ != "starting"@) by { assert("ap_conn_pt"@.len() != "starting"@.len()); }
    assert("ap_conn_pt"@ != "conn_pt"@) by { assert("ap_conn_pt"@.len() != "conn_pt"@.len()); }
    assert("ap_conn_pt"@ != "conn_done_pt"@) by { assert("ap_conn_pt"@.len() != "conn_done_pt"@.len()); }
    assert("ap_conn_pt"@ != "conn_proxy"@) by { assert("ap_conn_pt"@[0] != "conn_proxy"@[0]); }
    assert("ap_conn_pt"@ != "conn_done_proxy"@) by { assert("ap_conn_pt"@.len() != "conn_done_proxy"@.len()); }
    assert("ap_conn_pt"@ != "conn"@) by { assert("ap_conn_pt"@.len() != "conn"@.len()); }
    assert("ap_conn_pt"@ != "conn_done"@) by { assert("ap_conn_pt"@.len() != "conn_done"@.len()); }
    assert("ap_conn_pt"@ != "handshake"@) by { assert("ap_conn_pt"@.len() != "handshake"@.len()); }
    assert("ap_conn_pt"@ != "handshake_done"@) by { assert("ap_conn_pt"@.len() != "handshake_done"@.len()); }
    assert("ap_conn_pt"@ != "onehop_create"@) by { assert("ap_conn_pt"@.len() != "onehop_create"@.len()); }
    assert("ap_conn_pt"@ != "requesting_status"@) by { assert("ap_conn_pt"@.len() != "requesting_status"@.len()); }
    assert("ap_conn_pt"@ != "loading_status"@) by { assert("ap_conn_pt"@.len() != "loading_status"@.len()); }
    assert("ap_conn_pt"@ != "loading_keys"@) by { assert("ap_conn_pt"@.len() != "loading_keys"@.len()); }
    assert("ap_conn_pt"@ != "requesting_descriptors"@) by { assert("ap_conn_pt"@.len() != "requesting_descriptors"@.len()); }
    assert("ap_conn_pt"@ != "loading_descriptors"@) by { assert("ap_conn_pt"@.len() != "loading_descriptors"@.len()); }
    assert("ap_conn_pt"@ != "enough_dirinfo"@) by { assert("ap_conn_pt"@.len() != "enough_dirinfo"@.len()); }
    assert("ap_conn_done_pt"@ != "starting"@) by { assert("ap_conn_done_pt"@.len() != "starting"@.len()); }
    assert("ap_conn_done_pt"@ != "conn_pt"@) by { assert("ap_conn_done_pt"@.len() != "conn_pt"@.len()); }
    assert("ap_conn_done_pt"@ != "conn_done_pt"@) by { assert("ap_conn_done_pt"@.len() != "conn_done_pt"@.len()); }
    assert("ap_conn_done_pt"@ != "conn_proxy"@) by { assert("ap_conn_done_pt"@.len() != "conn_proxy"@.len()); }
    assert("ap_conn_done_pt"@ != "conn_done_proxy"@) by { assert("ap_conn_done_pt"@[0] != "conn_done_proxy"@[0]); }
    assert("ap_conn_done_pt"@ != "conn"@) by { assert("ap_conn_done_pt"@.len() != "conn"@.len()); }
    assert("ap_conn_done_pt"@ != "conn_done"@) by { assert("ap_conn_done_pt"@.len() != "conn_done"@.len()); }
    assert("ap_conn_done_pt"@ != "handshake"@) by { assert("ap_conn_done_pt"@.len() != "handshake"@.len()); }
    assert("ap_conn_done_pt"@ != "handshake_done"@) by { assert("ap_conn_done_pt"@.len() != "handshake_done"@.len()); }
    assert("ap_conn_done_pt"@ != "onehop_create"@) by { assert("ap_conn_done_pt"@.len() != "onehop_create"@.len()); }
    assert("ap_conn_done_pt"@ != "requesting_status"@) by { assert("ap_conn_done_pt"@.len() != "requesting_status"@.len()); }
    assert("ap_conn_done_pt"@ != "loading_status"@) by { assert("ap_conn_done_pt"@.len() != "loading_status"@.len()); }
    assert("ap_conn_done_pt"@ != "loading_keys"@) by { assert("ap_conn_done_pt"@.len() != "loading_keys"@.len()); }
    assert("ap_conn_done_pt"@ != "requesting_descriptors"@) by { assert("ap_conn_done_pt"@.len() != "requesting_descriptors"@.len()); }
    assert("ap_conn_done_pt"@ != "loading_descriptors"@) by { assert("ap_conn_done_pt"@.len() != "loading_descriptors"@.len()); }
    assert("ap_conn_done_pt"@ != "enough_dirinfo"@) by { assert("ap_conn_done_pt"@.len() != "enough_dirinfo"@.len()); }
    assert("ap_conn_done_pt"@ != "ap_conn_pt"@) by { assert("ap_conn_done_pt"@.len() != "ap_conn_pt"@.len()); }
    assert("ap_conn_proxy"@ != "starting"@) by { assert("ap_conn_proxy"@.len() != "starting"@.len()); }
    assert("ap_conn_proxy"@ != "conn_pt"@) by { assert("ap_conn_proxy"@.len() != "conn_pt"@.len()); }
    assert("ap_conn_proxy"@ != "conn_done_pt"@) by { assert("ap_conn_proxy"@.len() != "conn_done_pt"@.len()); }
    assert("ap_conn_proxy"@ != "conn_proxy"@) by { assert("ap_conn_proxy"@.len() != "conn_proxy"@.len()); }
    assert("ap_conn_proxy"@ != "conn_done_proxy"@) by { assert("ap_conn_proxy"@.len() != "conn_done_proxy"@.len()); }
    assert("ap_conn_proxy"@ != "conn"@) by { assert("ap_conn_proxy"@.len() != "conn"@.len()); }
    assert("ap_conn_proxy"@ != "conn_done"@) by { assert("ap_conn_proxy"@.len() != "conn_done"@.len()); }
    assert("ap_conn_proxy"@ != "handshake"@) by { assert("ap_conn_proxy"@.len() != "handshake"@.len()); }
    assert("ap_conn_proxy"@ != "handshake_done"@) by { assert("ap_conn_proxy"@.len() != "handshake_done"@.len()); }
    assert("ap_conn_proxy"@ != "onehop_create"@) by { assert("ap_conn_proxy"@[0] != "onehop_create"@[0]); }
    assert("ap_conn_proxy"@ != "requesting_status"@) by { assert("ap_conn_proxy"@.len() != "requesting_status"@.len()); }
    assert("ap_conn_proxy"@ != "loading_status"@) by { assert("ap_conn_proxy"@.len() != "loading_status"@.len()); }
    assert("ap_conn_proxy"@ != "loading_keys"@) by { assert("ap_conn_proxy"@.len() != "loading_keys"@.len()); }
    assert("ap_conn_proxy"@ != "requesting_descriptors"@) by { assert("ap_conn_proxy"@.len() != "requesting_descriptors"@.len()); }
    assert("ap_conn_proxy"@ != "loading_descriptors"@) by { assert("ap_conn_proxy"@.len() != "loading_descriptors"@.len()); }
    assert("ap_conn_proxy"@ != "enough_dirinfo"@) by { assert("ap_conn_proxy"@.len() != "enough_dirinfo"@.len()); }
    assert("ap_conn_proxy"@ != "ap_conn_pt"@) by { assert("ap_conn_proxy"@.len() != "ap_conn_pt"@.len()); }
    assert("ap_conn_proxy"@ != "ap_conn_done_pt"@) by { assert("ap_conn_proxy"@.len() != "ap_conn_done_pt"@.len()); }
    assert("ap_conn_done_proxy"@ != "starting"@) by { assert("ap_conn_done_proxy"@.len() != "starting"@.len()); }
    assert("ap_conn_done_proxy"@ != "conn_pt"@) by { assert("ap_conn_done_proxy"@.len() != "conn_pt"@.len()); }
    assert("ap_conn_done_proxy"@ != "conn_done_pt"@) by { assert("ap_conn_done_proxy"@.len() != "conn_done_pt"@.len()); }
    assert("ap_conn_done_proxy"@ != "conn_proxy"@) by { assert("ap_conn_done_proxy"@.len() != "conn_proxy"@.len()); }
    assert("ap_conn_done_proxy"@ != "conn_done_proxy"@) by { assert("ap_conn_done_proxy"@.len() != "conn_done_proxy"@.len()); }
    assert("ap_conn_done_proxy"@ != "conn"@) by { assert("ap_conn_done_proxy"@.len() != "conn"@.len()); }
    assert("ap_conn_done_proxy"@ != "conn_done"@) by { assert("ap_conn_done_proxy"@.len() != "conn_done"@.len()); }
    assert("ap_conn_done_proxy"@ != "handshake"@) by { assert("ap_conn_done_proxy"@.len() != "handshake"@.len()); }
    assert("ap_conn_done_proxy"@ != "handshake_done"@) by { assert("ap_conn_done_proxy"@.len() != "handshake_done"@.len()); }
    assert("ap_conn_done_proxy"@ != "onehop_create"@) by { assert("ap_conn_done_proxy"@.len() != "onehop_create"@.len()); }
    assert("ap_conn_done_proxy"@ != "requesting_status"@) by { assert("ap_conn_done_proxy"@.len() != "requesting_status"@.len()); }
    assert("ap_conn_done_proxy"@ != "loading_status"@) by { assert("ap_conn_done_proxy"@.len() != "loading_status"@.len()); }
    assert("ap_conn_done_proxy"@ != "loading_keys"@) by { assert("ap_conn_done_proxy"@.len() != "loading_keys"@.len()); }
    assert("ap_conn_done_proxy"@ != "requesting_descriptors"@) by { assert("ap_conn_done_proxy"@.len() != "requesting_descriptors"@.len()); }
    assert("ap_conn_done_proxy"@ != "loading_descriptors"@) by { assert("ap_conn_done_proxy"@.len() != "loading_descriptors"@.len()); }
    assert("ap_conn_done_proxy"@ != "enough_dirinfo"@) by { assert("ap_conn_done_proxy"@.len() != "enough_dirinfo"@.len()); }
    assert("ap_conn_done_proxy"@ != "ap_conn_pt"@) by { assert("ap_conn_done_proxy"@.len() != "ap_conn_pt"@.len()); }
    assert("ap_conn_done_proxy"@ != "ap_conn_done_pt"@) by { assert("ap_conn_done_proxy"@.len() != "ap_conn_done_pt"@.len()); }
    assert("ap_conn_done_proxy"@ != "ap_conn_proxy"@) by { assert("ap_conn_done_proxy"@.len() != "ap_conn_proxy"@.len()); }
    assert("ap_conn"@ != "starting"@) by { assert("ap_conn"@.len() != "starting"@.len()); }
    assert("ap_conn"@ != "conn_pt"@) by { assert("ap_conn"@[0] != "conn_pt"@[0]); }
    assert("ap_conn"@ != "conn_done_pt"@) by { assert("ap_conn"@.len() != "conn_done_pt"@.len()); }
    assert("ap_conn"@ != "conn_proxy"@) by { assert("ap_conn"@.len() != "conn_proxy"@.len()); }
    assert("ap_conn"@ != "conn_done_proxy"@) by { assert("ap_conn"@.len() != "conn_done_proxy"@.len()); }
    assert("ap_conn"@ != "conn"@) by { assert("ap_conn"@.len() != "conn"@.len()); }
    assert("ap_conn"@ != "conn_done"@) by { assert("ap_conn"@.len() != "conn_done"@.len()); }
    assert("ap_conn"@ != "handshake"@) by { assert("ap_conn"@.len() != "handshake"@.len()); }
    assert("ap_conn"@ != "handshake_done"@) by { assert("ap_conn"@.len() != "handshake_done"@.len()); }
    assert("ap_conn"@ != "onehop_create"@) by { assert("ap_conn"@.len() != "onehop_create"@.len()); }
    assert("ap_conn"@ != "requesting_status"@) by { assert("ap_conn"@.len() != "requesting_status"@.len()); }
    assert("ap_conn"@ != "loading_status"@) by { assert("ap_conn"@.len() != "loading_status"@.len()); }
    assert("ap_conn"@ != "loading_keys"@) by { assert("ap_conn"@.len() != "loading_keys"@.len()); }
    assert("ap_conn"@ != "requesting_descriptors"@) by { assert("ap_conn"@.len() != "requesting_descriptors"@.len()); }
    assert("ap_conn"@ != "loading_descriptors"@) by { assert("ap_conn"@.len() != "loading_descriptors"@.len()); }
    assert("ap_conn"@ != "enough_dirinfo"@) by { assert("ap_conn"@.len() != "enough_dirinfo"@.len()); }
    assert("ap_conn"@ != "ap_conn_pt"@) by { assert("ap_conn"@.len() != "ap_conn_pt"@.len()); }
    assert("ap_conn"@ != "ap_conn_done_pt"@) by { assert("ap_conn"@.len() != "ap_conn_done_pt"@.len()); }
    assert("ap_conn"@ != "ap_conn_proxy"@) by { assert("ap_conn"@.len() != "ap_conn_proxy"@.len()); }
    assert("ap_conn"@ != "ap_conn_done_proxy"@) by { assert("ap_conn"@.len() != "ap_conn_done_proxy"@.len()); }
    assert("ap_conn_done"@ != "starting"@) by { assert("ap_conn_done"@.len() != "starting"@.len()); }
    assert("ap_conn_done"@ != "conn_pt"@) by { assert("ap_conn_done"@.len() != "conn_pt"@.len()); }
    assert("ap_conn_done"@ != "conn_done_pt"@) by { assert("ap_conn_done"@[0] != "conn_done_pt"@[0]); }
    assert("ap_conn_done"@ != "conn_proxy"@) by { assert("ap_conn_done"@.len() != "conn_proxy"@.len()); }
    assert("ap_conn_done"@ != "conn_done_proxy"@) by { assert("ap_conn_done"@.len() != "conn_done_proxy"@.len()); }
    assert("ap_conn_done"@ != "conn"@) by { assert("ap_conn_done"@.len() != "conn"@.len()); }
    assert("ap_conn_done"@ != "conn_done"@) by { assert("ap_conn_done"@.len() != "conn_done"@.len()); }
    assert("ap_conn_done"@ != "handshake"@) by { assert("ap_conn_done"@.len() != "handshake"@.len()); }
    assert("ap_conn_done"@ != "handshake_done"@) by { assert("ap_conn_done"@.len() != "handshake_done"@.len()); }
    assert("ap_conn_done"@ != "onehop_create"@) by { assert("ap_conn_done"@.len() != "onehop_create"@.len()); }
    assert("ap_conn_done"@ != "requesting_status"@) by { assert("ap_conn_done"@.len() != "requesting_status"@.len()); }
    assert("ap_conn_done"@ != "loading_status"@) by { assert("ap_conn_done"@.len() != "loading_status"@.len()); }
    assert("ap_conn_done"@ != "loading_keys"@) by { assert("ap_conn_done"@[0] != "loading_keys"@[0]); }
    assert("ap_conn_done"@ != "requesting_descriptors"@) by { assert("ap_conn_done"@.len() != "requesting_descriptors"@.len()); }
    assert("ap_conn_done"@ != "loading_descriptors"@) by { assert("ap_conn_done"@.len() != "loading_descriptors"@.len()); }
    assert("ap_conn_done"@ != "enough_dirinfo"@) by { assert("ap_conn_done"@.len() != "enough_dirinfo"@.len()); }
    assert("ap_conn_done"@ != "ap_conn_pt"@) by { assert("ap_conn_done"@.len() != "ap_conn_pt"@.len()); }
    assert("ap_conn_done"@ != "ap_conn_done_pt"@) by { assert("ap_conn_done"@.len() != "ap_conn_done_pt"@.len()); }
    assert("ap_conn_done"@ != "ap_conn_proxy"@) by { assert("ap_conn_done"@.len() != "ap_conn_proxy"@.len()); }
    assert("ap_conn_done"@ != "ap_conn_done_proxy"@) by { assert("ap_conn_done"@.len() != "ap_conn_done_proxy"@.len()); }
    assert("ap_conn_done"@ != "ap_conn"@) by { assert("ap_conn_done"@.len() != "ap_conn"@.len()); }
    assert("ap_handshake"@ != "starting"@) by { assert("ap_handshake"@.len() != "starting"@.len()); }
    assert("ap_handshake"@ != "conn_pt"@) by { assert("ap_handshake"@.len() != "conn_pt"@.len()); }
    assert("ap_handshake"@ != "conn_done_pt"@) by { assert("ap_handshake"@[0] != "conn_done_pt"@[0]); }
    assert("ap_handshake"@ != "conn_proxy"@) by { assert("ap_handshake"@.len() != "conn_proxy"@.len()); }
    assert("ap_handshake"@ != "conn_done_proxy"@) by { assert("ap_handshake"@.len() != "conn_done_proxy"@.len()); }
    assert("ap_handshake"@ != "conn"@) by { assert("ap_handshake"@.len() != "conn"@.len()); }
    assert("ap_handshake"@ != "conn_done"@) by { assert("ap_handshake"@.len() != "conn_done"@.len()); }
    assert("ap_handshake"@ != "handshake"@) by { assert("ap_handshake"@.len() != "handshake"@.len()); }
    assert("ap_handshake"@ != "handshake_done"@) by { assert("ap_handshake"@.len() != "handshake_done"@.len()); }
    assert("ap_handshake"@ != "onehop_create"@) by { assert("ap_handshake"@.len() != "onehop_create"@.len()); }
    assert("ap_handshake"@ != "requesting_status"@) by { assert("ap_handshake"@.len() != "requesting_status"@.len()); }
    assert("ap_handshake"@ != "loading_status"@) by { assert("ap_handshake"@.len() != "loading_status"@.len()); }
    assert("ap_handshake"@ != "loading_keys"@) by { assert("ap_handshake"@[0] != "loading_keys"@[0]); }
    assert("ap_handshake"@ != "requesting_descriptors"@) by { assert("ap_handshake"@.len() != "requesting_descriptors"@.len()); }
    assert("ap_handshake"@ != "loading_descriptors"@) by { assert("ap_handshake"@.len() != "loading_descriptors"@.len()); }
    assert("ap_handshake"@ != "enough_dirinfo"@) by { assert("ap_handshake"@.len() != "enough_dirinfo"@.len()); }
    assert("ap_handshake"@ != "ap_conn_pt"@) by { assert("ap_handshake"@.len() != "ap_conn_pt"@.len()); }
    assert("ap_handshake"@ != "ap_conn_done_pt"@) by { assert("ap_handshake"@.len() != "ap_conn_done_pt"@.len()); }
    assert("ap_handshake"@ != "ap_conn_proxy"@) by { assert("ap_handshake"@.len() != "ap_conn_proxy"@.len()); }
    assert("ap_handshake"@ != "ap_conn_done_proxy"@) by { assert("ap_handshake"@.len() != "ap_conn_done_proxy"@.len()); }
    assert("ap_handshake"@ != "ap_conn"@) by { assert("ap_handshake"@.len() != "ap_conn"@.len()); }
    assert("ap_handshake"@ != "ap_conn_done"@) by { assert("ap_handshake"@[3] != "ap_conn_done"@[3]); }
    assert("ap_handshake_done"@ != "starting"@) by { assert("ap_handshake_done"@.len() != "starting"@.len()); }
    assert("ap_handshake_done"@ != "conn_pt"@) by { assert("ap_handshake_done"@.len() != "conn_pt"@.len()); }
    assert("ap_handshake_done"@ != "conn_done_pt"@) by { assert("ap_handshake_done"@.len() != "conn_done_pt"@.len()); }
    assert("ap_handshake_done"@ != "conn_proxy"@) by { assert("ap_handshake_done"@.len() != "conn_proxy"@.len()); }
    assert("ap_handshake_done"@ != "conn_done_proxy"@) by { assert("ap_handshake_done"@.len() != "conn_done_proxy"@.len()); }
    assert("ap_handshake_done"@ != "conn"@) by { assert("ap_handshake_done"@.len() != "conn"@.len()); }
    assert("ap_handshake_done"@ != "conn_done"@) by { assert("ap_handshake_done"@.len() != "conn_done"@.len()); }
    assert("ap_handshake_done"@ != "handshake"@) by { assert("ap_handshake_done"@.len() != "handshake"@.len()); }
    assert("ap_handshake_done"@ != "handshake_done"@) by { assert("ap_handshake_done"@.len() != "handshake_done"@.len()); }
    assert("ap_handshake_done"@ != "onehop_create"@) by { assert("ap_handshake_done"@.len() != "onehop_create"@.len()); }
    assert("ap_handshake_done"@ != "requesting_status"@) by { assert("ap_handshake_done"@[0] != "requesting_status"@[0]); }
    assert("ap_handshake_done"@ != "loading_status"@) by { assert("ap_handshake_done"@.len() != "loading_status"@.len()); }
    assert("ap_handshake_done"@ != "loading_keys"@) by { assert("ap_handshake_done"@.len() != "loading_keys"@.len()); }
    assert("ap_handshake_done"@ != "requesting_descriptors"@) by { assert("ap_handshake_done"@.len() != "requesting_descriptors"@.len()); }
    assert("ap_handshake_done"@ != "loading_descriptors"@) by { assert("ap_handshake_done"@.len() != "loading_descriptors"@.len()); }
    assert("ap_handshake_done"@ != "enough_dirinfo"@) by { assert("ap_handshake_done"@.len() != "enough_dirinfo"@.len()); }
    assert("ap_handshake_done"@ != "ap_conn_pt"@) by { assert("ap_handshake_done"@.len() != "ap_conn_pt"@.len()); }
    assert("ap_handshake_done"@ != "ap_conn_done_pt"@) by { assert("ap_handshake_done"@.len() != "ap_conn_done_pt"@.len()); }
    assert("ap_handshake_done"@ != "ap_conn_proxy"@) by { assert("ap_handshake_done"@.len() != "ap_conn_proxy"@.len()); }
    assert("ap_handshake_done"@ != "ap_conn_done_proxy"@) by { assert("ap_handshake_done"@.len() != "ap_conn_done_proxy"@.len()); }
    assert("ap_handshake_done"@ != "ap_conn"@) by { assert("ap_handshake_done"@.len() != "ap_conn"@.len()); }
    assert("ap_handshake_done"@ != "ap_conn_done"@) by { assert("ap_handshake_done"@.len() != "ap_conn_done"@.len()); }
    assert("ap_handshake_done"@ != "ap_handshake"@) by { assert("ap_handshake_done"@.len() != "ap_handshake"@.len()); }
    assert("circuit_create"@ != "starting"@) by { assert("circuit_create"@.len() != "starting"@.len()); }
    assert("circuit_create"@ != "conn_pt"@) by { assert("circuit_create"@.len() != "conn_pt"@.len()); }
    assert("circuit_create"@ != "conn_done_pt"@) by { assert("circuit_create"@.len() != "conn_done_pt"@.len()); }
    assert("circuit_create"@ != "conn_proxy"@) by { assert("circuit_create"@.len() != "conn_proxy"@.len()); }
    assert("circuit_create"@ != "conn_done_proxy"@) by { assert("circuit_create"@.len() != "conn_done_proxy"@.len()); }
    assert("circuit_create"@ != "conn"@) by { assert("circuit_create"@.len() != "conn"@.len()); }
    assert("circuit_create"@ != "conn_done"@) by { assert("circuit_create"@.len() != "conn_done"@.len()); }
    assert("circuit_create"@ != "handshake"@) by { assert("circuit_create"@.len() != "handshake"@.len()); }
    assert("circuit_create"@ != "handshake_done"@) by { assert("circuit_create"@[0] != "handshake_done"@[0]); }
    assert("circuit_create"@ != "onehop_create"@) by { assert("circuit_create"@.len() != "onehop_create"@.len()); }
    assert("circuit_create"@ != "requesting_status"@) by { assert("circuit_create"@.len() != "requesting_status"@.len()); }
    assert("circuit_create"@ != "loading_status"@) by { assert("circuit_create"@[0] != "loading_status"@[0]); }
    assert("circuit_create"@ != "loading_keys"@) by { assert("circuit_create"@.len() != "loading_keys"@.len()); }
    assert("circuit_create"@ != "requesting_descriptors"@) by { assert("circuit_create"@.len() != "requesting_descriptors"@.len()); }
    assert("circuit_create"@ != "loading_descriptors"@) by { assert("circuit_create"@.len() != "loading_descriptors"@.len()); }
    assert("circuit_create"@ != "enough_dirinfo"@) by { assert("circuit_create"@[0] != "enough_dirinfo"@[0]); }
    assert("circuit_create"@ != "ap_conn_pt"@) by { assert("circuit_create"@.len() != "ap_conn_pt"@.len()); }
    assert("circuit_create"@ != "ap_conn_done_pt"@) by { assert("circuit_create"@.len() != "ap_conn_done_pt"@.len()); }
    assert("circuit_create"@ != "ap_conn_proxy"@) by { assert("circuit_create"@.len() != "ap_conn_proxy"@.len()); }
    assert("circuit_create"@ != "ap_conn_done_proxy"@) by { assert("circuit_create"@.len() != "ap_conn_done_proxy"@.len()); }
    assert("circuit_create"@ != "ap_conn"@) by { assert("circuit_create"@.len() != "ap_conn"@.len()); }
    assert("circuit_create"@ != "ap_conn_done"@) by { assert("circuit_create"@.len() != "ap_conn_done"@.len()); }
    assert("circuit_create"@ != "ap_handshake"@) by { assert("circuit_create"@.len() != "ap_handshake"@.len()); }
    assert("circuit_create"@ != "ap_handshake_done"@) by { assert("circuit_create"@.len() != "ap_handshake_done"@.len()); }
    assert("done"@ != "starting"@) by { assert("done"@.len() != "starting"@.len()); }
    assert("done"@ != "conn_pt"@) by { assert("done"@.len() != "conn_pt"@.len()); }
    assert("done"@ != "conn_done_pt"@) by { assert("done"@.len() != "conn_done_pt"@.len()); }
    assert("done"@ != "conn_proxy"@) by { assert("done"@.len() != "conn_proxy"@.len()); }
    assert("done"@ != "conn_done_proxy"@) by { assert("done"@.len() != "conn_done_proxy"@.len()); }
    assert("done"@ != "conn"@) by { assert("done"@[0] != "conn"@[0]); }
    assert("done"@ != "conn_done"@) by { assert("done"@.len() != "conn_done"@.len()); }
    assert("done"@ != "handshake"@) by { assert("done"@.len() != "handshake"@.len()); }
    assert("done"@ != "handshake_done"@) by { assert("done"@.len() != "handshake_done"@.len()); }
    assert("done"@ != "onehop_create"@) by { assert("done"@.len() != "onehop_create"@.len()); }
    assert("done"@ != "requesting_status"@) by { assert("done"@.len() != "requesting_status"@.len()); }
    assert("done"@ != "loading_status"@) by { assert("done"@.len() != "loading_status"@.len()); }
    assert("done"@ != "loading_keys"@) by { assert("done"@.len() != "loading_keys"@.len()); }
    assert("done"@ != "requesting_descriptors"@) by { assert("done"@.len() != "requesting_descriptors"@.len()); }
    assert("done"@ != "loading_descriptors"@) by { assert("done"@.len() != "loading_descriptors"@.len()); }
    assert("done"@ != "enough_dirinfo"@) by { assert("done"@.len() != "enough_dirinfo"@.len()); }
    assert("done"@ != "ap_conn_pt"@) by { assert("done"@.len() != "ap_conn_pt"@.len()); }
    assert("done"@ != "ap_conn_done_pt"@) by { assert("done"@.len() != "ap_conn_done_pt"@.len()); }
    assert("done"@ != "ap_conn_proxy"@) by { assert("done"@.len() != "ap_conn_proxy"@.len()); }
    assert("done"@ != "ap_conn_done_proxy"@) by { assert("done"@.len() != "ap_conn_done_proxy"@.len()); }
    assert("done"@ != "ap_conn"@) by { assert("done"@.len() != "ap_conn"@.len()); }
    assert("done"@ != "ap_conn_done"@) by { assert("done"@.len() != "ap_conn_done"@.len()); }
    assert("done"@ != "ap_handshake"@) by { assert("done"@.len() != "ap_handshake"@.len()); }
    assert("done"@ != "ap_handshake_done"@) by { assert("done"@.len() != "ap_handshake_done"@.len()); }
    assert("done"@ != "circuit_create"@) by { assert("done"@.len() != "circuit_create"@.len()); }
}


/// The phases in the order the enum declares them, from the invalid phase to
/// the count of phases.
pub open spec fn declared_phases() -> Seq<tego_tor_bootstrap_tag> {
    seq![
        tego_tor_bootstrap_tag::tego_tor_bootstrap_tag_invalid,
        tego_tor_bootstrap_tag::tego_tor_bootstrap_tag_starting,
        tego_tor_bootstrap_tag::tego_tor_bootstrap_tag_conn_pt,
        tego_tor_bootstrap_tag::tego_tor_bootstrap_tag_conn_done_pt,
        tego_tor_bootstrap_tag::tego_tor_bootstrap_tag_conn_proxy,
        tego_tor_bootstrap_tag::tego_tor_bootstrap_tag_conn_done_proxy,
        tego_tor_bootstrap_tag::tego_tor_bootstrap_tag_conn,
        tego_tor_bootstrap_tag::tego_tor_bootstrap_tag_conn_done,
        tego_tor_bootstrap_tag::tego_tor_bootstrap_tag_handshake,
        tego_tor_bootstrap_tag::tego_tor_bootstrap_tag_handshake_done,
        tego_tor_bootstrap_tag::tego_tor_bootstrap_tag_onehop_create,
        tego_tor_bootstrap_tag::tego_tor_bootstrap_tag_requesting_status,
        tego_tor_bootstrap_tag::tego_tor_bootstrap_tag_loading_status,
        tego_tor_bootstrap_tag::tego_tor_bootstrap_tag_loading_keys,
        tego_tor_bootstrap_tag::tego_tor_bootstrap_tag_requesting_descriptors,
        tego_tor_bootstrap_tag::tego_tor_bootstrap_tag_loading_descriptors,
        tego_tor_bootstrap_tag::tego_tor_bootstrap_tag_enough_dirinfo,
        tego_tor_bootstrap_tag::tego_tor_bootstrap_tag_ap_conn_pt_summary,
        tego_tor_bootstrap_tag::tego_tor_bootstrap_tag_ap_conn_done_pt,
        tego_tor_bootstrap_tag::tego_tor_bootstrap_tag_ap_conn_proxy,
        tego_tor_bootstrap_tag::tego_tor_bootstrap_tag_ap_conn_done_proxy,
        tego_tor_bootstrap_tag::tego_tor_bootstrap_tag_ap_conn,
        tego_tor_bootstrap_tag::tego_tor_bootstrap_tag_ap_conn_done,
        tego_tor_bootstrap_tag::tego_tor_bootstrap_tag_ap_handshake,
        tego_tor_bootstrap_tag::tego_tor_bootstrap_tag_ap_handshake_done,
        tego_tor_bootstrap_tag::tego_tor_bootstrap_tag_circuit_create,
        tego_tor_bootstrap_tag::tego_tor_bootstrap_tag_done,
        tego_tor_bootstrap_tag::tego_tor_bootstrap_tag_count,
    ]
}

/// Law: the value the C interface gives a phase is its place in the
/// declaration, counted from -1 for the invalid phase: each phase's value is
/// one more than that of the phase declared before it, so the values rise
/// strictly along the declaration, and every phase is declared there.
pub proof fn law_code_follows_declaration(tag: tego_tor_bootstrap_tag)
    ensures
        declared_phases().len() == 28,
        forall|i: int| 0 <= i < 28 ==> tag_code(#[trigger] declared_phases()[i]) == i - 1,
        forall|i: int, j: int| 0 <= i < j < 28 ==> tag_code(#[trigger] declared_phases()[i]) < tag_code(#[trigger] declared_phases()[j]),
        declared_phases()[tag_code(tag) + 1] == tag,
{
    let d = declared_phases();
    assert(d[0] == tego_tor_bootstrap_tag::tego_tor_bootstrap_tag_invalid);
    assert(d[1] == tego_tor_bootstrap_tag::tego_tor_bootstrap_tag_starting);
    assert(d[2] == tego_tor_bootstrap_tag::tego_tor_bootstrap_tag_conn_pt);
    assert(d[3] == tego_tor_bootstrap_tag::tego_tor_bootstrap_tag_conn_done_pt);
    assert(d[4] == tego_tor_bootstrap_tag::tego_tor_bootstrap_tag_conn_proxy);
    assert(d[5] == tego_tor_bootstrap_tag::tego_tor_bootstrap_tag_conn_done_proxy);
    assert(d[6] == tego_tor_bootstrap_tag::tego_tor_bootstrap_tag_conn);
    assert(d[7] == tego_tor_bootstrap_tag::tego_tor_bootstrap_tag_conn_done);
    assert(d[8] == tego_tor_bootstrap_tag::tego_tor_bootstrap_tag_handshake);
    assert(d[9] == tego_tor_bootstrap_tag::tego_tor_bootstrap_tag_handshake_done);
    assert(d[10] == tego_tor_bootstrap_tag::tego_tor_bootstrap_tag_onehop_create);
    assert(d[11] == tego_tor_bootstrap_tag::tego_tor_bootstrap_tag_requesting_status);
    assert(d[12] == tego_tor_bootstrap_tag::tego_tor_bootstrap_tag_loading_status);
    assert(d[13] == tego_tor_bootstrap_tag::tego_tor_bootstrap_tag_loading_keys);
    assert(d[14] == tego_tor_bootstrap_tag::tego_tor_bootstrap_tag_requesting_descriptors);
    assert(d[15] == tego_tor_bootstrap_tag::tego_tor_bootstrap_tag_loading_descriptors);
    assert(d[16] == tego_tor_bootstrap_tag::tego_tor_bootstrap_tag_enough_dirinfo);
    assert(d[17] == tego_tor_bootstrap_tag::tego_tor_bootstrap_tag_ap_conn_pt_summary);
    assert(d[18] == tego_tor_bootstrap_tag::tego_tor_bootstrap_tag_ap_conn_done_pt);
    assert(d[19] == tego_tor_bootstrap_tag::tego_tor_bootstrap_tag_ap_conn_proxy);
    assert(d[20] == tego_tor_bootstrap_tag::tego_tor_bootstrap_tag_ap_conn_done_proxy);
    assert(d[21] == tego_tor_bootstrap_tag::tego_tor_bootstrap_tag_ap_conn);
    assert(d[22] == tego_tor_bootstrap_tag::tego_tor_bootstrap_tag_ap_conn_done);
    assert(d[23] == tego_tor_bootstrap_tag::tego_tor_bootstrap_tag_ap_handshake);
    assert(d[24] == tego_tor_bootstrap_tag::tego_tor_bootstrap_tag_ap_handshake_done);
    assert(d[25] == tego_tor_bootstrap_tag::tego_tor_bootstrap_tag_circuit_create);
    assert(d[26] == tego_tor_bootstrap_tag::tego_tor_bootstrap_tag_done);
    assert(d[27] == tego_tor_bootstrap_tag::tego_tor_bootstrap_tag_count);
}

} // verus!
