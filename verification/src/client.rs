//! The acquisition loop's decisions.
//!
//! One background thread per connection polls the shared region and streams
//! `UpdatePacket`s to the consumer over a bounded channel. The decisions of
//! that loop — when the connection is over, when the variable catalog must
//! be published, whether a sample carries a fresh frame or a fresh session
//! document, and how long to wait otherwise — are the state machine below.
//! The platform half (the thread, the channel, the kernel wait and the
//! reconnect backoff) executes its commands and feeds back what it observed.

use vstd::prelude::*;
use std::collections::HashMap;
use crate::ir_data::IrData;
use crate::var_header::{VarHeader, VarHeaderGeneric};

verus! {

/// One update delivered to the consumer.
///
/// `Data` carries a frame, sent at roughly the requested update interval.
/// `SessionInfo` carries the session document, sent only when its revision
/// counter changed. `VariableHeaders` carries the catalog as a name-keyed
/// map, sent once per session. `NotConnected` reports that the producer went
/// away; the connection is then over.
#[derive(Debug)]
#[non_exhaustive]
pub enum UpdatePacket {
    Data(IrData),
    SessionInfo(String),
    VariableHeaders(HashMap<String, VarHeader>),
    NotConnected,
}

/// Handle for connecting to the producer and receiving `UpdatePacket`s.
/// Connecting opens the shared region and spawns the polling thread, which
/// is platform work outside this library; the decisions that thread takes
/// are the `Poller` below.
pub struct Client {}

/// What the polling loop must do next.
#[derive(Debug, Clone, Copy, PartialEq, Eq, Structural)]
pub enum PollCommand {
    /// Publish `NotConnected`; this connection is over.
    Disconnect,
    /// Read the control block and sample the freshest buffer now. When
    /// `publish_catalog` is set, the variable catalog must be published
    /// before the sample's packets (once per session).
    Sample { publish_catalog: bool },
    /// Too early to sample: block on the producer's update signal for at
    /// most this long.
    Wait { micros: u64 },
}

/// Which packets one sample requires publishing.
#[derive(Debug, Clone, Copy, PartialEq, Eq, Structural)]
pub struct SampleOutcome {
    /// The session document's revision changed: publish the document.
    pub publish_session: bool,
    /// The freshest buffer's tick changed: publish the frame.
    pub publish_frame: bool,
}

/// The decision state of one connection's polling loop.
///
/// The tick fields start at `i32::MIN` so that the first sample of a session
/// is treated as fresh.
#[derive(Debug, Clone, Copy, PartialEq, Eq, Structural)]
pub struct Poller {
    /// Minimum number of microseconds between two samples.
    pub update_interval_micros: u64,
    /// Tick counter of the last published frame.
    pub tick_count: i32,
    /// Revision counter of the last published session document.
    pub session_info_tick: i32,
    /// The variable catalog of this session has been published.
    pub catalog_published: bool,
    /// A `Disconnect` has been issued; no further decision may be asked of
    /// this connection.
    pub finished: bool,
}

/// The decision taken on one loop iteration, and the state after it: a
/// disconnected producer ends the connection; a poll with at least the
/// update interval elapsed samples, publishing the catalog first if this
/// session has not had it yet; an earlier poll waits out the remainder of
/// the interval.
pub open spec fn decide_spec(p: Poller, connected: bool, elapsed_micros: u64) -> (
    Poller,
    PollCommand,
) {
    if !connected {
        (
            Poller { finished: true, ..p },
            PollCommand::Disconnect,
        )
    } else if elapsed_micros >= p.update_interval_micros {
        (
            Poller { catalog_published: true, ..p },
            PollCommand::Sample { publish_catalog: !p.catalog_published },
        )
    } else {
        (p, PollCommand::Wait { micros: (p.update_interval_micros - elapsed_micros) as u64 })
    }
}

/// The effect of accepting one sample: the session document is published
/// exactly when its revision differs from the last published one, the frame
/// exactly when its tick differs, and both counters move to the sampled
/// values.
pub open spec fn observe_spec(p: Poller, tick: i32, session_tick: i32) -> (
    Poller,
    SampleOutcome,
) {
    (
        Poller { tick_count: tick, session_info_tick: session_tick, ..p },
        SampleOutcome {
            publish_session: session_tick != p.session_info_tick,
            publish_frame: tick != p.tick_count,
        },
    )
}

impl Poller {
    /// A fresh connection's poller. The update interval derives from the
    /// requested rate given in hundredths of an update per second: one
    /// hundred seconds divided by it.
    pub fn new(rate_hundredths: u32) -> (p: Poller)
        requires
            rate_hundredths >= 1,
        ensures
            p.update_interval_micros == 100_000_000u64 / rate_hundredths as u64,
            p.tick_count == i32::MIN,
            p.session_info_tick == i32::MIN,
            !p.catalog_published,
            !p.finished,
    {
        Poller {
            update_interval_micros: 100_000_000u64 / (rate_hundredths as u64),
            tick_count: i32::MIN,
            session_info_tick: i32::MIN,
            catalog_published: false,
            finished: false,
        }
    }

    /// One decision of the polling loop. A connection whose producer reports
    /// disconnected gets exactly one `Disconnect` and is then finished:
    /// `decide` and `observe` demand an unfinished poller, so no further
    /// polling can happen for this connection.
    pub fn decide(&mut self, connected: bool, elapsed_micros: u64) -> (cmd: PollCommand)
        requires
            !old(self).finished,
        ensures
            (*final(self), cmd) == decide_spec(*old(self), connected, elapsed_micros),
    {
        if !connected {
            self.finished = true;
            PollCommand::Disconnect
        } else if elapsed_micros >= self.update_interval_micros {
            let publish_catalog = !self.catalog_published;
            self.catalog_published = true;
            PollCommand::Sample { publish_catalog }
        } else {
            PollCommand::Wait { micros: self.update_interval_micros - elapsed_micros }
        }
    }

    /// Accepts the (frame tick, session revision) pair of one sample and
    /// says which packets it requires publishing.
    pub fn observe(&mut self, tick: i32, session_tick: i32) -> (out: SampleOutcome)
        requires
            !old(self).finished,
        ensures
            (*final(self), out) == observe_spec(*old(self), tick, session_tick),
    {
        let out = SampleOutcome {
            publish_session: session_tick != self.session_info_tick,
            publish_frame: tick != self.tick_count,
        };
        self.tick_count = tick;
        self.session_info_tick = session_tick;
        out
    }
}

/// Law: across two consecutive samples, the second publishes a session
/// document exactly when its revision differs from the first's — an
/// unchanged revision publishes nothing, a changed one publishes exactly
/// once.
pub proof fn lemma_session_republished_iff_revision_changed(
    p: Poller,
    tick1: i32,
    rev1: i32,
    tick2: i32,
    rev2: i32,
)
    ensures
        ({
            let (p1, _) = observe_spec(p, tick1, rev1);
            let (_, out2) = observe_spec(p1, tick2, rev2);
            out2.publish_session == (rev2 != rev1)
        }),
{
}

/// Law: when the producer reports disconnected, the loop's decision is the
/// single `Disconnect` command and the poller is finished — and a finished
/// poller can be asked nothing further, whatever the elapsed time.
pub proof fn lemma_disconnect_ends_connection(p: Poller, elapsed_micros: u64)
    ensures
        decide_spec(p, false, elapsed_micros).1 == PollCommand::Disconnect,
        decide_spec(p, false, elapsed_micros).0.finished,
{
}

/// The name-keyed map a catalog denotes: every record under its name,
/// inserted in table order, so that a duplicate name overwrites earlier
/// records (last wins).
pub open spec fn catalog_map_spec(hs: Seq<VarHeader>) -> Map<String, VarHeader>
    decreases hs.len(),
{
    if hs.len() == 0 {
        Map::empty()
    } else {
        catalog_map_spec(hs.drop_last()).insert(hs.last().name, hs.last())
    }
}

/// The catalog as a name-keyed map, inserted in table order so that
/// duplicate names overwrite earlier ones (last wins). The contract holds
/// under the standard library's hashing model for string keys.
pub fn catalog_map(headers: &Vec<VarHeader>) -> (map: HashMap<String, VarHeader>)
    ensures
        vstd::std_specs::hash::obeys_key_model::<String>() ==> map@ == catalog_map_spec(headers@),
{
    broadcast use vstd::std_specs::hash::axiom_random_state_builds_valid_hashers;

    let mut map: HashMap<String, VarHeader> = HashMap::new();
    let mut i: usize = 0;
    while i < headers.len()
        invariant
            0 <= i <= headers@.len(),
            vstd::std_specs::hash::obeys_key_model::<String>() ==> map@ == catalog_map_spec(
                headers@.take(i as int),
            ),
        decreases headers@.len() - i,
    {
        let vh = &headers[i];
        let copy = VarHeaderGeneric {
            _type: vh._type,
            offset: vh.offset,
            count: vh.count,
            count_as_time: vh.count_as_time,
            name: vh.name.clone(),
            desc: vh.desc.clone(),
            unit: vh.unit.clone(),
        };
        map.insert(vh.name.clone(), copy);
        proof {
            assert(headers@.take(i + 1).drop_last() =~= headers@.take(i as int));
        }
        i = i + 1;
    }
    proof {
        assert(headers@.take(headers@.len() as int) =~= headers@);
    }
    map
}

} // verus!
