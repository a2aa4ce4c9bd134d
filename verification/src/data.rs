//! Per-session data: command history and the session's queued outbound
//! strings, codec selection, log file bookkeeping and state.
//!
//! A session's `PortData` is created with the session and reset on close; the
//! authoritative `PortState` in it is only ever what was last reported
//! through the session's channels.

use vstd::prelude::*;
use crate::encoding::DataType;
use crate::log::sanitize_log_name;
use crate::log::sanitized_log_path;
use crate::port::PortState;

verus! {

/// Cache for command history and the current input line.
pub struct CacheData {
    /// History of sent commands, deduplicated on repeat.
    history_data: Vec<String>,
    /// Current position in the history, counted from one; zero is "before
    /// the first entry".
    history_index: usize,
    /// Current input data.
    current_data: String,
}

impl CacheData {
    /// The recorded history entries, oldest first.
    pub closed spec fn history(&self) -> Seq<Seq<char>> {
        self.history_data.deep_view()
    }

    /// The current position in the history.
    pub closed spec fn index(&self) -> nat {
        self.history_index as nat
    }

    /// The current input line.
    pub closed spec fn current(&self) -> Seq<char> {
        self.current_data@
    }

    /// The position never runs past the end of the history.
    pub open spec fn well_formed(&self) -> bool {
        self.index() <= self.history().len()
    }

    /// Creates an empty cache.
    pub fn new() -> (r: Self)
        ensures
            r.history() == Seq::<Seq<char>>::empty(),
            r.index() == 0,
            r.current() == Seq::<char>::empty(),
            r.well_formed(),
    {
        CacheData { history_data: Vec::new(), history_index: 0, current_data: String::new() }
    }

    /// The number of recorded history entries.
    pub fn history_len(&self) -> (r: usize)
        ensures
            r == self.history().len(),
    {
        self.history_data.len()
    }

    /// Adds a command to the history unless it repeats the last entry; on a
    /// new entry the position moves to the end.
    pub fn add_history_data(&mut self, data: String)
        ensures
            old(self).history().len() == 0 || old(self).history().last() != data@ ==> {
                &&& final(self).history() == old(self).history().push(data@)
                &&& final(self).index() == final(self).history().len()
            },
            old(self).history().len() > 0 && old(self).history().last() == data@ ==> {
                &&& final(self).history() == old(self).history()
                &&& final(self).index() == old(self).index()
            },
            final(self).current() == old(self).current(),
            old(self).well_formed() ==> final(self).well_formed(),
    {
        let n: usize = self.history_data.len();
        let is_repeat: bool = if n == 0 {
            false
        } else {
            let last: &String = &self.history_data[n - 1];
            last.eq(&data)
        };
        if !is_repeat {
            self.history_data.push(data);
            self.history_index = self.history_data.len();
        }
        proof {
            assert(final(self).history() =~= if is_repeat {
                old(self).history()
            } else {
                old(self).history().push(data@)
            });
        }
    }

    /// Moves one entry forward in the history, saturating at the end, and
    /// returns the new position.
    pub fn add_history_index(&mut self) -> (r: usize)
        ensures
            final(self).index() == if old(self).index() < old(self).history().len() {
                old(self).index() + 1
            } else {
                old(self).index()
            },
            r == final(self).index(),
            final(self).history() == old(self).history(),
            final(self).current() == old(self).current(),
    {
        if self.history_index < self.history_data.len() {
            self.history_index = self.history_index + 1;
        }
        self.history_index
    }

    /// Moves one entry backward in the history, stopping at the first entry,
    /// and returns the new position.
    pub fn sub_history_index(&mut self) -> (r: usize)
        ensures
            final(self).index() == if old(self).index() > 1 {
                (old(self).index() - 1) as nat
            } else {
                old(self).index()
            },
            r == final(self).index(),
            final(self).history() == old(self).history(),
            final(self).current() == old(self).current(),
    {
        if self.history_index > 1 {
            self.history_index = self.history_index - 1;
        }
        self.history_index
    }

    /// The current position in the history.
    pub fn get_current_data_index(&self) -> (r: usize)
        ensures
            r == self.index(),
    {
        self.history_index
    }

    /// Moves to the given position, clamped to the history length, and
    /// returns the entry there; position zero and an empty history yield the
    /// empty string.
    pub fn get_history_data(&mut self, index: usize) -> (r: String)
        ensures
            final(self).history() == old(self).history(),
            final(self).current() == old(self).current(),
            old(self).history().len() == 0 ==> {
                &&& final(self).index() == old(self).index()
                &&& r@ == Seq::<char>::empty()
            },
            old(self).history().len() > 0 ==> {
                &&& final(self).index() == if index <= old(self).history().len() {
                    index as nat
                } else {
                    old(self).history().len()
                }
                &&& final(self).well_formed()
                &&& (final(self).index() > 0 ==> r@ == old(self).history()[final(self).index()
                    - 1])
                &&& (final(self).index() == 0 ==> r@ == Seq::<char>::empty())
            },
    {
        let n: usize = self.history_data.len();
        if n == 0 {
            return String::new();
        }
        self.history_index = if index < n {
            index
        } else {
            n
        };
        if self.history_index > 0 {
            self.history_data[self.history_index - 1].clone()
        } else {
            String::new()
        }
    }

    /// Gets a mutable reference to the current input line.
    pub fn get_current_data(&mut self) -> (r: &mut String)
        ensures
            r@ == old(self).current(),
            final(self).current() == final(r)@,
            final(self).history() == old(self).history(),
            final(self).index() == old(self).index(),
    {
        &mut self.current_data
    }

    /// Clears the current input line.
    pub fn clear_current_data(&mut self)
        ensures
            final(self).current() == Seq::<char>::empty(),
            final(self).history() == old(self).history(),
            final(self).index() == old(self).index(),
    {
        self.current_data = String::new();
    }
}

/// True when two session data values hold the same command cache contents.
pub open spec fn same_cache(a: PortData, b: PortData) -> bool {
    &&& a.cache().history() == b.cache().history()
    &&& a.cache().index() == b.cache().index()
    &&& a.cache().current() == b.cache().current()
}

/// True when two session data values agree on everything but the state
/// field.
pub open spec fn same_except_state(a: PortData, b: PortData) -> bool {
    &&& a.source_files() == b.source_files()
    &&& a.parse_files() == b.parse_files()
    &&& a.outbound() == b.outbound()
    &&& same_cache(a, b)
    &&& a.data_type_spec() == b.data_type_spec()
    &&& a.line_feed_spec() == b.line_feed_spec()
}

/// True when two session data values agree on every observable part.
pub open spec fn port_data_eq(a: PortData, b: PortData) -> bool {
    &&& same_except_state(a, b)
    &&& a.state_spec() == b.state_spec()
}

/// Data owned by one session: log file bookkeeping, the outbound queue,
/// codec selection, command cache and the session state.
pub struct PortData {
    /// Paths of the traffic-log files opened for this session, oldest first.
    source_file: Vec<String>,
    /// Paths of parse files registered for this session.
    parse_file: Vec<String>,
    /// Outbound strings queued to be sent, cleared atomically on each send.
    send_data: Vec<String>,
    /// Command cache and history.
    cache_data: CacheData,
    /// Current port state.
    state: PortState,
    /// Selected encoding scheme.
    data_type: DataType,
    /// Whether sent data keeps its line feeds.
    line_feed: bool,
}

impl PortData {
    /// The traffic-log file paths, oldest first.
    pub closed spec fn source_files(&self) -> Seq<Seq<char>> {
        self.source_file.deep_view()
    }

    /// The parse file paths, oldest first.
    pub closed spec fn parse_files(&self) -> Seq<Seq<char>> {
        self.parse_file.deep_view()
    }

    /// The queued outbound strings, oldest first.
    pub closed spec fn outbound(&self) -> Seq<Seq<char>> {
        self.send_data.deep_view()
    }

    /// The command cache.
    pub closed spec fn cache(&self) -> CacheData {
        self.cache_data
    }

    /// The current port state.
    pub closed spec fn state_spec(&self) -> PortState {
        self.state
    }

    /// The selected encoding scheme.
    pub closed spec fn data_type_spec(&self) -> DataType {
        self.data_type
    }

    /// Whether sent data keeps its line feeds.
    pub closed spec fn line_feed_spec(&self) -> bool {
        self.line_feed
    }

    /// Creates the data for a fresh session: everything empty, state
    /// `Close`, UTF-8 encoding, line feeds stripped.
    pub fn new() -> (r: Self)
        ensures
            r.source_files() == Seq::<Seq<char>>::empty(),
            r.parse_files() == Seq::<Seq<char>>::empty(),
            r.outbound() == Seq::<Seq<char>>::empty(),
            r.cache().history() == Seq::<Seq<char>>::empty(),
            r.cache().index() == 0,
            r.cache().current() == Seq::<char>::empty(),
            r.state_spec() == PortState::Close,
            r.data_type_spec() == DataType::Utf8,
            !r.line_feed_spec(),
    {
        let r = PortData {
            source_file: Vec::new(),
            parse_file: Vec::new(),
            send_data: Vec::new(),
            cache_data: CacheData::new(),
            state: PortState::Close,
            data_type: DataType::Utf8,
            line_feed: false,
        };
        proof {
            assert(r.source_files() =~= Seq::<Seq<char>>::empty());
            assert(r.parse_files() =~= Seq::<Seq<char>>::empty());
            assert(r.outbound() =~= Seq::<Seq<char>>::empty());
        }
        r
    }

    /// Registers a traffic-log file for the given name, sanitized so that
    /// the path stays under the fixed logs directory, and returns the new
    /// file count.  The caller creates the file on disk.
    pub fn add_source_file(&mut self, name: String) -> (r: usize)
        ensures
            final(self).source_files() == old(self).source_files().push(
                sanitized_log_path(name@),
            ),
            r == final(self).source_files().len(),
            final(self).parse_files() == old(self).parse_files(),
            final(self).outbound() == old(self).outbound(),
            final(self).cache() == old(self).cache(),
            final(self).state_spec() == old(self).state_spec(),
            final(self).data_type_spec() == old(self).data_type_spec(),
            final(self).line_feed_spec() == old(self).line_feed_spec(),
    {
        let path: String = sanitize_log_name(name.as_str());
        self.source_file.push(path);
        proof {
            assert(final(self).source_files() =~= old(self).source_files().push(
                sanitized_log_path(name@),
            ));
        }
        self.source_file.len()
    }

    /// The number of traffic-log files registered so far.
    pub fn source_file_index(&self) -> (r: usize)
        ensures
            r == self.source_files().len(),
    {
        self.source_file.len()
    }

    /// The path of the traffic-log file at the given position, or the empty
    /// string when there is none.
    pub fn get_source_file_name(&self, index: usize) -> (r: &str)
        ensures
            index < self.source_files().len() ==> r@ == self.source_files()[index as int],
            index >= self.source_files().len() ==> r@ == Seq::<char>::empty(),
    {
        proof {
            reveal_strlit("");
            assert(""@ =~= Seq::<char>::empty());
        }
        if index < self.source_file.len() {
            self.source_file[index].as_str()
        } else {
            ""
        }
    }

    /// Registers a parse file under the given name, unchanged, and returns
    /// the new file count.  The caller creates the file on disk.
    pub fn add_parse_file(&mut self, name: String) -> (r: usize)
        ensures
            final(self).parse_files() == old(self).parse_files().push(name@),
            r == final(self).parse_files().len(),
            final(self).source_files() == old(self).source_files(),
            final(self).outbound() == old(self).outbound(),
            final(self).cache() == old(self).cache(),
            final(self).state_spec() == old(self).state_spec(),
            final(self).data_type_spec() == old(self).data_type_spec(),
            final(self).line_feed_spec() == old(self).line_feed_spec(),
    {
        self.parse_file.push(name);
        proof {
            assert(final(self).parse_files() =~= old(self).parse_files().push(
                final(self).parse_files().last(),
            ));
        }
        self.parse_file.len()
    }

    /// The number of parse files registered so far.
    pub fn parse_file_index(&self) -> (r: usize)
        ensures
            r == self.parse_files().len(),
    {
        self.parse_file.len()
    }

    /// The path of the parse file at the given position, or the empty string
    /// when there is none.
    pub fn get_parse_file_name(&self, index: usize) -> (r: &str)
        ensures
            index < self.parse_files().len() ==> r@ == self.parse_files()[index as int],
            index >= self.parse_files().len() ==> r@ == Seq::<char>::empty(),
    {
        proof {
            reveal_strlit("");
            assert(""@ =~= Seq::<char>::empty());
        }
        if index < self.parse_file.len() {
            self.parse_file[index].as_str()
        } else {
            ""
        }
    }

    /// Queues a string to be sent on the next tick.
    pub fn send_data(&mut self, data: String)
        ensures
            final(self).outbound() == old(self).outbound().push(data@),
            final(self).source_files() == old(self).source_files(),
            final(self).parse_files() == old(self).parse_files(),
            final(self).cache() == old(self).cache(),
            final(self).state_spec() == old(self).state_spec(),
            final(self).data_type_spec() == old(self).data_type_spec(),
            final(self).line_feed_spec() == old(self).line_feed_spec(),
    {
        self.send_data.push(data);
        proof {
            assert(final(self).outbound() =~= old(self).outbound().push(
                final(self).outbound().last(),
            ));
        }
    }

    /// Takes the queued outbound strings, leaving the queue empty.
    pub fn get_send_data(&mut self) -> (r: Vec<String>)
        ensures
            r.deep_view() == old(self).outbound(),
            final(self).outbound() == Seq::<Seq<char>>::empty(),
            final(self).source_files() == old(self).source_files(),
            final(self).parse_files() == old(self).parse_files(),
            final(self).cache() == old(self).cache(),
            final(self).state_spec() == old(self).state_spec(),
            final(self).data_type_spec() == old(self).data_type_spec(),
            final(self).line_feed_spec() == old(self).line_feed_spec(),
    {
        let mut taken: Vec<String> = Vec::new();
        core::mem::swap(&mut taken, &mut self.send_data);
        proof {
            assert(final(self).outbound() =~= Seq::<Seq<char>>::empty());
        }
        taken
    }

    /// Clears the queued outbound strings.
    pub fn clear_send_data(&mut self)
        ensures
            final(self).outbound() == Seq::<Seq<char>>::empty(),
            final(self).source_files() == old(self).source_files(),
            final(self).parse_files() == old(self).parse_files(),
            final(self).cache() == old(self).cache(),
            final(self).state_spec() == old(self).state_spec(),
            final(self).data_type_spec() == old(self).data_type_spec(),
            final(self).line_feed_spec() == old(self).line_feed_spec(),
    {
        self.send_data.clear();
        proof {
            assert(final(self).outbound() =~= Seq::<Seq<char>>::empty());
        }
    }

    /// Selects the encoding scheme.
    pub fn set_data_type(&mut self, data_type: DataType)
        ensures
            final(self).data_type_spec() == data_type,
            final(self).source_files() == old(self).source_files(),
            final(self).parse_files() == old(self).parse_files(),
            final(self).outbound() == old(self).outbound(),
            final(self).cache() == old(self).cache(),
            final(self).state_spec() == old(self).state_spec(),
            final(self).line_feed_spec() == old(self).line_feed_spec(),
    {
        self.data_type = data_type;
    }

    /// Gets a mutable reference to the command cache.
    pub fn get_cache_data(&mut self) -> (r: &mut CacheData)
        ensures
            *r == old(self).cache(),
            final(self).cache() == *final(r),
            final(self).source_files() == old(self).source_files(),
            final(self).parse_files() == old(self).parse_files(),
            final(self).outbound() == old(self).outbound(),
            final(self).state_spec() == old(self).state_spec(),
            final(self).data_type_spec() == old(self).data_type_spec(),
            final(self).line_feed_spec() == old(self).line_feed_spec(),
    {
        &mut self.cache_data
    }

    /// Gets a mutable reference to the port state.
    pub fn state(&mut self) -> (r: &mut PortState)
        ensures
            *r == old(self).state_spec(),
            final(self).state_spec() == *final(r),
            final(self).source_files() == old(self).source_files(),
            final(self).parse_files() == old(self).parse_files(),
            final(self).outbound() == old(self).outbound(),
            final(self).cache() == old(self).cache(),
            final(self).data_type_spec() == old(self).data_type_spec(),
            final(self).line_feed_spec() == old(self).line_feed_spec(),
    {
        &mut self.state
    }

    /// Gets a mutable reference to the selected encoding scheme.
    pub fn data_type(&mut self) -> (r: &mut DataType)
        ensures
            *r == old(self).data_type_spec(),
            final(self).data_type_spec() == *final(r),
            final(self).source_files() == old(self).source_files(),
            final(self).parse_files() == old(self).parse_files(),
            final(self).outbound() == old(self).outbound(),
            final(self).cache() == old(self).cache(),
            final(self).state_spec() == old(self).state_spec(),
            final(self).line_feed_spec() == old(self).line_feed_spec(),
    {
        &mut self.data_type
    }

    /// Gets a mutable reference to the line-feed policy flag.
    pub fn line_feed(&mut self) -> (r: &mut bool)
        ensures
            *r == old(self).line_feed_spec(),
            final(self).line_feed_spec() == *final(r),
            final(self).source_files() == old(self).source_files(),
            final(self).parse_files() == old(self).parse_files(),
            final(self).outbound() == old(self).outbound(),
            final(self).cache() == old(self).cache(),
            final(self).state_spec() == old(self).state_spec(),
            final(self).data_type_spec() == old(self).data_type_spec(),
    {
        &mut self.line_feed
    }
}

} // verus!
