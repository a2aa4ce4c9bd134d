//! One serial session: settings, per-session data, the task handle marker,
//! and the decisions the tick loop takes for the session.
//!
//! The tick loop never blocks: it drains queues, hands byte batches and log
//! lines back to its caller, and reacts to the messages the session task
//! reported.  The session's state is only ever what was last received.

use vstd::prelude::*;
use vstd::utf8::encode_utf8;
use crate::data::port_data_eq;
use crate::data::same_cache;
use crate::data::same_except_state;
use crate::data::PortData;
use crate::encoding::decode_bytes;
use crate::encoding::decode_bytes_spec;
use crate::encoding::encode_string;
use crate::encoding::encode_string_spec;
use crate::encoding::DataType;
use crate::llm::LlmConfig;
use crate::llm::LlmState;
use crate::log::DataSource;
use crate::port::PortChannelData;
use crate::port::PortSettings;
use crate::port::PortState;
use crate::text::contains_newline;
use crate::text::has_newline;
use crate::text::remove_newlines;
use crate::text::strip_newlines;

verus! {

/// A request to append one line to the session's traffic log.
pub struct LogRequest {
    /// The rendered payload to log.
    pub data: Vec<u8>,
    /// The direction tag for the entry.
    pub source: DataSource,
}

/// One tick's outbound work for a session: the text for the traffic log and
/// the encoded bytes for the wire.
pub struct OutboundBatch {
    /// The queued strings joined with line feeds, for the traffic log.
    pub file_data: String,
    /// The queued strings encoded under the session's scheme, concatenated.
    pub payload: Vec<u8>,
    /// Whether the session was open, so the payload may be sent.
    pub port_open: bool,
}

/// The queued strings joined by single line feeds.
pub open spec fn join_lines(items: Seq<Seq<char>>) -> Seq<char>
    decreases items.len(),
{
    if items.len() == 0 {
        Seq::empty()
    } else if items.len() == 1 {
        items[0]
    } else {
        join_lines(items.drop_last()) + seq!['\n'] + items.last()
    }
}

/// The queued strings encoded under a scheme and concatenated.
pub open spec fn concat_encoded(items: Seq<Seq<char>>, data_type: DataType) -> Seq<u8>
    decreases items.len(),
{
    if items.len() == 0 {
        Seq::empty()
    } else {
        concat_encoded(items.drop_last(), data_type) + encode_string_spec(items.last(), data_type)
    }
}

/// The history position after one step of history navigation followed by the
/// clamping lookup.
pub open spec fn checkout_index(idx: nat, len: nat, forward: bool) -> nat {
    let moved: nat = if forward {
        if idx < len {
            idx + 1
        } else {
            idx
        }
    } else {
        if idx > 1 {
            (idx - 1) as nat
        } else {
            idx
        }
    };
    if len == 0 {
        moved
    } else if moved <= len {
        moved
    } else {
        len
    }
}

/// The task-handle transition of `ensure_task`: a present handle stays and
/// nothing is spawned; an absent one is filled and a spawn is requested.
pub open spec fn ensure_task_model(h: Option<u64>, id: u64) -> (Option<u64>, bool) {
    match h {
        Option::Some(x) => (Option::Some(x), false),
        Option::None => (Option::Some(id), true),
    }
}

/// At most one task is ever spawned for a session without an intervening
/// terminal state: of two consecutive `ensure_task` calls, at most the first
/// spawns, and none spawns when a task already exists.
pub proof fn lemma_ensure_task_at_most_one_spawn(h: Option<u64>, id1: u64, id2: u64)
    ensures
        ({
            let (h1, s1) = ensure_task_model(h, id1);
            let (h2, s2) = ensure_task_model(h1, id2);
            &&& h1 is Some
            &&& h2 == h1
            &&& !s2
            &&& (h is Some ==> !s1)
        }),
{
}

/// True when a session is unchanged in every observable part.
pub open spec fn serial_unchanged(a: Serial, b: Serial) -> bool {
    &&& port_data_eq(a.data_spec(), b.data_spec())
    &&& a.set == b.set
    &&& a.handle_spec() == b.handle_spec()
    &&& a.llm_spec() == b.llm_spec()
}

/// One logical serial-port connection: settings, per-session data, the
/// optional task handle, and the LLM configuration.
pub struct Serial {
    /// Port settings.
    pub set: PortSettings,
    /// Per-session data.
    pub data: PortData,
    /// Identifier of the running session task; `None` means no task owns
    /// this session's hardware resource.
    pub thread_handle: Option<u64>,
    /// LLM configuration.
    pub llm: LlmConfig,
}

impl Serial {
    /// The per-session data.
    pub open spec fn data_spec(&self) -> PortData {
        self.data
    }

    /// The task handle marker.
    pub open spec fn handle_spec(&self) -> Option<u64> {
        self.thread_handle
    }

    /// The LLM configuration.
    pub open spec fn llm_spec(&self) -> LlmConfig {
        self.llm
    }

    /// Creates a new session with default settings, fresh data, no task and
    /// a disabled LLM.
    pub fn new() -> (r: Self)
        ensures
            r.set.is_default(),
            r.data_spec().state_spec() == PortState::Close,
            r.data_spec().outbound() == Seq::<Seq<char>>::empty(),
            r.data_spec().source_files() == Seq::<Seq<char>>::empty(),
            r.data_spec().parse_files() == Seq::<Seq<char>>::empty(),
            r.data_spec().cache().history() == Seq::<Seq<char>>::empty(),
            r.data_spec().cache().index() == 0,
            r.data_spec().cache().current() == Seq::<char>::empty(),
            r.data_spec().data_type_spec() == DataType::Utf8,
            !r.data_spec().line_feed_spec(),
            r.handle_spec() is None,
            !r.llm_spec().enable,
            r.llm_spec().state == LlmState::Ready,
    {
        Serial {
            set: PortSettings::new(),
            data: PortData::new(),
            thread_handle: None,
            llm: LlmConfig::new(),
        }
    }

    /// Gets a reference to the port settings.
    pub fn set(&self) -> (r: &PortSettings)
        ensures
            *r == self.set,
    {
        &self.set
    }

    /// Gets a mutable reference to the per-session data.
    pub fn data(&mut self) -> (r: &mut PortData)
        ensures
            *r == old(self).data_spec(),
            final(self).data_spec() == *final(r),
            final(self).set == old(self).set,
            final(self).handle_spec() == old(self).handle_spec(),
            final(self).llm_spec() == old(self).llm_spec(),
    {
        &mut self.data
    }

    /// Gets a mutable reference to the task handle marker.
    pub fn thread_handle(&mut self) -> (r: &mut Option<u64>)
        ensures
            *r == old(self).handle_spec(),
            final(self).handle_spec() == *final(r),
            final(self).set == old(self).set,
            final(self).data_spec() == old(self).data_spec(),
            final(self).llm_spec() == old(self).llm_spec(),
    {
        &mut self.thread_handle
    }

    /// Gets a mutable reference to the LLM configuration.
    pub fn llm(&mut self) -> (r: &mut LlmConfig)
        ensures
            *r == old(self).llm_spec(),
            final(self).llm_spec() == *final(r),
            final(self).set == old(self).set,
            final(self).data_spec() == old(self).data_spec(),
            final(self).handle_spec() == old(self).handle_spec(),
    {
        &mut self.llm
    }

    /// Records that the port is open.
    pub fn open(&mut self)
        ensures
            final(self).data_spec().state_spec() == PortState::Ready,
            same_except_state(old(self).data_spec(), final(self).data_spec()),
            final(self).set == old(self).set,
            final(self).handle_spec() == old(self).handle_spec(),
            final(self).llm_spec() == old(self).llm_spec(),
    {
        self.data.state().open();
    }

    /// Returns true if the port is open.
    pub fn is_open(&mut self) -> (r: bool)
        ensures
            serial_unchanged(*old(self), *final(self)),
            r == (old(self).data_spec().state_spec() is Ready),
    {
        self.data.state().is_open()
    }

    /// Records that the port is closed and clears the task handle.
    pub fn close(&mut self)
        ensures
            final(self).data_spec().state_spec() == PortState::Close,
            same_except_state(old(self).data_spec(), final(self).data_spec()),
            final(self).handle_spec() is None,
            final(self).set == old(self).set,
            final(self).llm_spec() == old(self).llm_spec(),
    {
        self.data.state().close();
        self.thread_handle = None;
    }

    /// Returns true if the port is closed.
    pub fn is_close(&mut self) -> (r: bool)
        ensures
            serial_unchanged(*old(self), *final(self)),
            r == (old(self).data_spec().state_spec() is Close),
    {
        self.data.state().is_close()
    }

    /// Records that the port is in error state.
    pub fn error(&mut self)
        ensures
            final(self).data_spec().state_spec() == PortState::Error,
            same_except_state(old(self).data_spec(), final(self).data_spec()),
            final(self).set == old(self).set,
            final(self).handle_spec() == old(self).handle_spec(),
            final(self).llm_spec() == old(self).llm_spec(),
    {
        self.data.state().error();
    }

    /// Returns true if the port is in error state.
    pub fn is_error(&mut self) -> (r: bool)
        ensures
            serial_unchanged(*old(self), *final(self)),
            r == (old(self).data_spec().state_spec() is Error),
    {
        self.data.state().is_error()
    }

    /// Claims the session for a new task when none is running: with no task
    /// handle present, stores the given identifier and asks the caller to
    /// spawn (returns true); with a task already present, changes nothing.
    pub fn ensure_task(&mut self, id: u64) -> (spawned: bool)
        ensures
            (final(self).handle_spec(), spawned) == ensure_task_model(old(self).handle_spec(),
            id),
            old(self).handle_spec() is Some ==> !spawned && serial_unchanged(*old(self), *final(self)),
            old(self).handle_spec() is None ==> spawned && final(self).handle_spec() == Some(id),
            final(self).set == old(self).set,
            final(self).data_spec() == old(self).data_spec(),
            final(self).llm_spec() == old(self).llm_spec(),
            final(self).handle_spec() is Some,
    {
        match self.thread_handle {
            Some(_) => false,
            None => {
                self.thread_handle = Some(id);
                true
            },
        }
    }

    /// Submits the current input line once it contains a line break: queues
    /// it for sending (stripped of line breaks unless the line-feed policy
    /// keeps them), records it in the history, and clears the input.  A
    /// session that is not open, or an input without a line break, is left
    /// untouched.
    pub fn send_cache_data(&mut self)
        ensures
            !(old(self).data_spec().state_spec() is Ready) || !has_newline(
                old(self).data_spec().cache().current(),
            ) ==> serial_unchanged(*old(self), *final(self)),
            old(self).data_spec().state_spec() is Ready && has_newline(
                old(self).data_spec().cache().current(),
            ) ==> ({
                let cur = old(self).data_spec().cache().current();
                let payload = if old(self).data_spec().line_feed_spec() {
                    cur
                } else {
                    remove_newlines(cur)
                };
                let hist = remove_newlines(payload);
                let oldh = old(self).data_spec().cache().history();
                &&& final(self).data_spec().outbound() == old(self).data_spec().outbound().push(
                    payload,
                )
                &&& (oldh.len() == 0 || oldh.last() != hist ==> final(self).data_spec().cache().history() == oldh.push(hist) && final(self).data_spec().cache().index() == oldh.len() + 1)
                &&& (oldh.len() > 0 && oldh.last() == hist ==> final(self).data_spec().cache().history() == oldh && final(self).data_spec().cache().index() == old(self).data_spec().cache().index())
                &&& final(self).data_spec().cache().current() == Seq::<char>::empty()
                &&& final(self).data_spec().state_spec() == old(self).data_spec().state_spec()
                &&& final(self).data_spec().source_files() == old(self).data_spec().source_files()
                &&& final(self).data_spec().parse_files() == old(self).data_spec().parse_files()
                &&& final(self).data_spec().data_type_spec() == old(self).data_spec().data_type_spec()
                &&& final(self).data_spec().line_feed_spec() == old(self).data_spec().line_feed_spec()
                &&& final(self).set == old(self).set
                &&& final(self).handle_spec() == old(self).handle_spec()
                &&& final(self).llm_spec() == old(self).llm_spec()
            }),
    {
        let open_now: bool = self.is_open();
        if !open_now {
            return ;
        }
        let cur: String = self.data.get_cache_data().get_current_data().clone();
        if !contains_newline(cur.as_str()) {
            return ;
        }
        let lf: bool = *self.data.line_feed();
        let data_s: String = if lf {
            cur
        } else {
            strip_newlines(cur.as_str())
        };
        let hist: String = strip_newlines(data_s.as_str());
        self.data.get_cache_data().add_history_data(hist);
        self.data.send_data(data_s);
        self.data.get_cache_data().clear_current_data();
    }

    /// Steps through the command history (backward or forward) and loads the
    /// entry at the new position into the input line.  Only an open session
    /// reacts.
    pub fn history_data_checkout(&mut self, forward: bool)
        ensures
            !(old(self).data_spec().state_spec() is Ready) ==> serial_unchanged(*old(self), *final(self)),
            old(self).data_spec().state_spec() is Ready ==> ({
                let oldc = old(self).data_spec().cache();
                let idx2 = checkout_index(oldc.index(), oldc.history().len(), forward);
                &&& final(self).data_spec().cache().history() == oldc.history()
                &&& final(self).data_spec().cache().index() == idx2
                &&& (oldc.history().len() > 0 && idx2 > 0 ==> final(self).data_spec().cache().current() == oldc.history()[idx2 - 1])
                &&& (oldc.history().len() == 0 || idx2 == 0 ==> final(self).data_spec().cache().current() == Seq::<char>::empty())
                &&& final(self).data_spec().state_spec() == old(self).data_spec().state_spec()
                &&& final(self).data_spec().outbound() == old(self).data_spec().outbound()
                &&& final(self).data_spec().source_files() == old(self).data_spec().source_files()
                &&& final(self).data_spec().parse_files() == old(self).data_spec().parse_files()
                &&& final(self).data_spec().data_type_spec() == old(self).data_spec().data_type_spec()
                &&& final(self).data_spec().line_feed_spec() == old(self).data_spec().line_feed_spec()
                &&& final(self).set == old(self).set
                &&& final(self).handle_spec() == old(self).handle_spec()
                &&& final(self).llm_spec() == old(self).llm_spec()
            }),
    {
        let open_now: bool = self.is_open();
        if !open_now {
            return ;
        }
        if forward {
            self.data.get_cache_data().add_history_index();
        } else {
            self.data.get_cache_data().sub_history_index();
        }
        let index: usize = self.data.get_cache_data().get_current_data_index();
        let entry: String = self.data.get_cache_data().get_history_data(index);
        let slot: &mut String = self.data.get_cache_data().get_current_data();
        *slot = entry;
    }

    /// Drains the outbound queue for one tick: the queued strings leave the
    /// session atomically and come back joined for the traffic log and
    /// encoded for the wire.  An empty queue yields nothing.
    pub fn send_serial_data(&mut self) -> (r: Option<OutboundBatch>)
        ensures
            old(self).data_spec().outbound().len() == 0 ==> r is None && serial_unchanged(*old(self), *final(self)),
            old(self).data_spec().outbound().len() > 0 ==> ({
                &&& r matches Some(b)
                &&& b.file_data@ == join_lines(old(self).data_spec().outbound())
                &&& b.payload@ == concat_encoded(
                    old(self).data_spec().outbound(),
                    old(self).data_spec().data_type_spec(),
                )
                &&& b.port_open == (old(self).data_spec().state_spec() is Ready)
                &&& final(self).data_spec().outbound() == Seq::<Seq<char>>::empty()
                &&& same_cache(old(self).data_spec(), final(self).data_spec())
                &&& final(self).data_spec().state_spec() == old(self).data_spec().state_spec()
                &&& final(self).data_spec().source_files() == old(self).data_spec().source_files()
                &&& final(self).data_spec().parse_files() == old(self).data_spec().parse_files()
                &&& final(self).data_spec().data_type_spec() == old(self).data_spec().data_type_spec()
                &&& final(self).data_spec().line_feed_spec() == old(self).data_spec().line_feed_spec()
                &&& final(self).set == old(self).set
                &&& final(self).handle_spec() == old(self).handle_spec()
                &&& final(self).llm_spec() == old(self).llm_spec()
            }),
    {
        let items: Vec<String> = self.data.get_send_data();
        if items.len() == 0 {
            proof {
                assert(self.data_spec().outbound() =~= old(self).data_spec().outbound());
            }
            return None;
        }
        let dt: DataType = *self.data.data_type();
        let open_now: bool = self.is_open();
        let n: usize = items.len();
        let mut file_data: String = String::new();
        let mut payload: Vec<u8> = Vec::new();
        let mut k: usize = 0;
        proof {
            assert(items.deep_view().subrange(0, 0) =~= Seq::<Seq<char>>::empty());
        }
        while k < n
            invariant
                0 < n == items@.len(),
                k <= n,
                items.deep_view() == old(self).data_spec().outbound(),
                dt == old(self).data_spec().data_type_spec(),
                file_data@ == join_lines(items.deep_view().subrange(0, k as int)),
                payload@ == concat_encoded(items.deep_view().subrange(0, k as int), dt),
            decreases n - k,
        {
            proof {
                assert(items.deep_view().subrange(0, k + 1).drop_last() =~= items
                    .deep_view().subrange(0, k as int));
                assert(items.deep_view().subrange(0, k + 1).last() == items@[k as int]@);
            }
            if k > 0 {
                file_data.append("\n");
            }
            file_data.append(items[k].as_str());
            proof {
                reveal_strlit("\n");
                assert(file_data@ =~= join_lines(items.deep_view().subrange(0, k + 1)));
            }
            let mut enc: Vec<u8> = encode_string(items[k].as_str(), dt);
            payload.append(&mut enc);
            proof {
                assert(payload@ =~= concat_encoded(items.deep_view().subrange(0, k + 1), dt));
            }
            k = k + 1;
        }
        proof {
            assert(items.deep_view().subrange(0, n as int) =~= items.deep_view());
        }
        Some(OutboundBatch { file_data, payload, port_open: open_now })
    }

    /// Applies one message received from the session's channels: state
    /// reports update the session (a close also clears the outbound queue
    /// and the task handle), received data and errors come back decoded as a
    /// log request.  An error report also clears the task handle: the task
    /// that emitted it has terminated, so a subsequent open can proceed with
    /// a fresh task.  Other messages are ignored.
    pub fn receive_serial_data(&mut self, data: PortChannelData) -> (r: Option<LogRequest>)
        ensures
            data == PortChannelData::PortState(PortState::Ready) ==> ({
                &&& final(self).data_spec().state_spec() == PortState::Ready
                &&& final(self).data_spec().outbound() == Seq::<Seq<char>>::empty()
                &&& final(self).handle_spec() == old(self).handle_spec()
                &&& r is None
            }),
            data == PortChannelData::PortState(PortState::Close) ==> ({
                &&& final(self).data_spec().state_spec() == PortState::Close
                &&& final(self).data_spec().outbound() == Seq::<Seq<char>>::empty()
                &&& final(self).handle_spec() is None
                &&& r is None
            }),
            data == PortChannelData::PortState(PortState::Error) ==> ({
                &&& final(self).data_spec().state_spec() == PortState::Error
                &&& same_except_state(old(self).data_spec(), final(self).data_spec())
                &&& final(self).handle_spec() == old(self).handle_spec()
                &&& r is None
            }),
            data matches PortChannelData::PortRead(d) ==> ({
                &&& serial_unchanged(*old(self), *final(self))
                &&& r matches Some(l)
                &&& l.source == DataSource::Read
                &&& l.data@ == encode_utf8(
                    decode_bytes_spec(d.data@, old(self).data_spec().data_type_spec()),
                )
            }),
            data matches PortChannelData::PortError(d) ==> ({
                &&& final(self).data_spec().state_spec() == PortState::Error
                &&& same_except_state(old(self).data_spec(), final(self).data_spec())
                &&& final(self).handle_spec() is None
                &&& r matches Some(l)
                &&& l.source == DataSource::Error
                &&& l.data@ == encode_utf8(
                    decode_bytes_spec(d.data@, old(self).data_spec().data_type_spec()),
                )
            }),
            (data is PortName || data is PortOpen || data is PortWrite || data is PortClose)
                ==> serial_unchanged(*old(self), *final(self)) && r is None,
            final(self).set == old(self).set,
            final(self).llm_spec() == old(self).llm_spec(),
            same_cache(old(self).data_spec(), final(self).data_spec()),
            final(self).data_spec().source_files() == old(self).data_spec().source_files(),
            final(self).data_spec().parse_files() == old(self).data_spec().parse_files(),
            final(self).data_spec().data_type_spec() == old(self).data_spec().data_type_spec(),
            final(self).data_spec().line_feed_spec() == old(self).data_spec().line_feed_spec(),
    {
        match data {
            PortChannelData::PortState(state) => {
                match state {
                    PortState::Ready => {
                        self.open();
                        self.data.clear_send_data();
                    },
                    PortState::Close => {
                        self.close();
                        self.data.clear_send_data();
                    },
                    PortState::Error => {
                        self.error();
                    },
                }
                None
            },
            PortChannelData::PortRead(d) => {
                let dt: DataType = *self.data.data_type();
                let decoded: String = decode_bytes(d.data.as_slice(), dt);
                Some(LogRequest { data: decoded.as_str().as_bytes_vec(), source: DataSource::Read })
            },
            PortChannelData::PortError(d) => {
                let dt: DataType = *self.data.data_type();
                let decoded: String = decode_bytes(d.data.as_slice(), dt);
                self.error();
                // The error ends the task, so the handle is released at once
                // and a later open can start a fresh task.
                self.thread_handle = None;
                Some(
                    LogRequest { data: decoded.as_str().as_bytes_vec(), source: DataSource::Error },
                )
            },
            _ => None,
        }
    }
}

impl Default for Serial {
    /// A fresh session: default settings, closed, no task.
    fn default() -> (r: Self)
        ensures
            r.set.is_default(),
            r.data_spec().state_spec() == PortState::Close,
            r.handle_spec() is None,
    {
        Serial::new()
    }
}

} // verus!
