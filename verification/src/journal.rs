//! The journal reader model: entries, fields, cursor iteration and match
//! bookkeeping.
//!
//! The engine owns the journal files; the transport side feeds the
//! entries it delivers (already filtered by the recorded matches) into
//! this model with [`Journal::feed_entry`]. Everything after that — the
//! read position, field splitting, record collection, thresholds and the
//! match expression being built — is value logic and verified here.

use vstd::prelude::*;
use vstd::slice::slice_index_get;
use vstd::string::StringSliceAdditionalSpecFns;

use crate::Errno;
use crate::EADDRNOTAVAIL;
use crate::daemon::pairs_view;
use crate::id128::Id128;
use vstd::pervasive::unreached;

verus! {

/// Open only journal files generated on the local machine.
pub const SD_JOURNAL_LOCAL_ONLY: i32 = 1;

/// Open only volatile journal files.
pub const SD_JOURNAL_RUNTIME_ONLY: i32 = 2;

/// Open the journal files of system services and the kernel.
pub const SD_JOURNAL_SYSTEM: i32 = 4;

/// Open the journal files of the current user.
pub const SD_JOURNAL_CURRENT_USER: i32 = 8;

/// Search for journal files below the usual paths of the given root.
pub const SD_JOURNAL_OS_ROOT: i32 = 16;

/// Access all defined namespaces simultaneously.
pub const SD_JOURNAL_ALL_NAMESPACES: i32 = 32;

/// Access the given namespace and the default one.
pub const SD_JOURNAL_INCLUDE_DEFAULT_NAMESPACE: i32 = 64;

/// The default field size beyond which data may be truncated.
pub const DEFAULT_DATA_THRESHOLD: usize = 65536;

/// Relies on memchr::memchr: the index of the first occurrence of the
/// needle byte in the haystack, or nothing when it does not occur.
pub assume_specification [ memchr::memchr ](needle: u8, haystack: &[u8]) -> (r: Option<usize>)
    ensures
        r matches Some(i) ==> i < haystack@.len() && haystack@[i as int] == needle && (forall|
            j: int,
        | 0 <= j < i ==> haystack@[j] != needle),
        r is None ==> forall|j: int| 0 <= j < haystack@.len() ==> haystack@[j] != needle,
;

/// The text that lossy UTF-8 decoding yields for a byte string: a pure
/// function of the bytes alone.
pub uninterp spec fn lossy_text(b: Seq<u8>) -> Seq<char>;

/// Relies on String::from_utf8_lossy: the decoded text depends on the
/// bytes alone, and decoding valid UTF-8 is the plain decoding.
#[verifier::external_body]
fn lossy_string(b: &[u8]) -> (r: String)
    ensures
        r@ == lossy_text(b@),
        vstd::utf8::valid_utf8(b@) ==> r@ == vstd::utf8::decode_utf8(b@),
{
    String::from_utf8_lossy(b).into_owned()
}

/// The ghost state of one journal data element: its bytes and the
/// position of the first `=`, the whole length when there is none.
#[verifier::ext_equal]
pub struct JournalEntryFieldView {
    pub data: Seq<u8>,
    pub eq: int,
}

/// Whether `eq` marks the first `=` of `data` (or its end, for data
/// without one).
pub open spec fn eq_split_ok(data: Seq<u8>, eq: int) -> bool {
    &&& 0 <= eq <= data.len()
    &&& (eq == data.len() || data[eq] == ('=' as u8))
    &&& forall|j: int| 0 <= j < eq ==> data[j] != ('=' as u8)
}

/// The name part of a field: everything before the first `=`.
pub open spec fn field_name(f: JournalEntryFieldView) -> Seq<u8> {
    f.data.subrange(0, f.eq)
}

/// The value part of a field with an `=`: everything after it.
pub open spec fn field_value(f: JournalEntryFieldView) -> Seq<u8> {
    f.data.subrange(f.eq + 1, f.data.len() as int)
}

/// A (name, value) pair formatted as a `NAME=value` byte string.
///
/// Each journal entry consists of a number of these data elements.
#[derive(Debug)]
pub struct JournalEntryField {
    data: Vec<u8>,
    eq_offs: usize,
}

impl View for JournalEntryField {
    type V = JournalEntryFieldView;

    closed spec fn view(&self) -> JournalEntryFieldView {
        JournalEntryFieldView { data: self.data@, eq: self.eq_offs as int }
    }
}

impl JournalEntryField {
    /// The split position is always the first `=`.
    #[verifier::type_invariant]
    pub closed spec fn wf(self) -> bool {
        eq_split_ok(self.data@, self.eq_offs as int)
    }

    /// Wrap a data element, locating its first `=`.
    pub fn from_bytes(data: Vec<u8>) -> (r: Self)
        ensures
            r@.data == data@,
            eq_split_ok(data@, r@.eq),
    {
        let eq_offs = match memchr::memchr('=' as u8, data.as_slice()) {
            Some(v) => v,
            None => data.len(),
        };
        JournalEntryField { data, eq_offs }
    }

    /// The entire data element.
    pub fn data(&self) -> (r: &[u8])
        ensures
            r@ == self@.data,
    {
        self.data.as_slice()
    }

    /// The name: the part before the first `=`, which is not included.
    /// Depending on how the element was retrieved it may be truncated;
    /// see the data threshold.
    pub fn name(&self) -> (r: &[u8])
        ensures
            r@ == field_name(self@),
    {
        proof {
            use_type_invariant(self);
        }
        &self.data.as_slice()[0..self.eq_offs]
    }

    /// The value: the part after the first `=` (not included), if the
    /// element has one.
    pub fn value(&self) -> (r: Option<&[u8]>)
        ensures
            r is Some <==> self@.eq < self@.data.len(),
            r matches Some(v) ==> v@ == field_value(self@),
    {
        proof {
            use_type_invariant(self);
        }
        if self.eq_offs != self.data.len() {
            Some(&self.data.as_slice()[self.eq_offs + 1..self.data.len()])
        } else {
            None
        }
    }
}

impl Clone for JournalEntryField {
    /// Cloning keeps the data element and its split.
    fn clone(&self) -> (r: Self)
        ensures
            r@ == self@,
    {
        proof {
            use_type_invariant(self);
        }
        JournalEntryField {
            data: vstd::slice::slice_to_vec(self.data.as_slice()),
            eq_offs: self.eq_offs,
        }
    }
}

/// The association list after storing `(k, v)`: the first pair with this
/// key is replaced, or the pair is appended.
pub open spec fn rec_insert(
    s: Seq<(Seq<char>, Seq<char>)>,
    k: Seq<char>,
    v: Seq<char>,
) -> Seq<(Seq<char>, Seq<char>)>
    decreases s.len(),
{
    if s.len() == 0 {
        seq![(k, v)]
    } else if s[0].0 == k {
        seq![(k, v)] + s.drop_first()
    } else {
        seq![s[0]] + rec_insert(s.drop_first(), k, v)
    }
}

/// Storing a key held at (first) position `i` updates that position.
proof fn lemma_rec_insert_found(
    s: Seq<(Seq<char>, Seq<char>)>,
    k: Seq<char>,
    v: Seq<char>,
    i: int,
)
    requires
        0 <= i < s.len(),
        s[i].0 == k,
        forall|j: int| 0 <= j < i ==> (#[trigger] s[j]).0 != k,
    ensures
        rec_insert(s, k, v) =~= s.update(i, (k, v)),
    decreases i,
{
    if i == 0 {
    } else {
        lemma_rec_insert_found(s.drop_first(), k, v, i - 1);
    }
}

/// Storing an absent key appends the pair.
proof fn lemma_rec_insert_absent(s: Seq<(Seq<char>, Seq<char>)>, k: Seq<char>, v: Seq<char>)
    requires
        forall|j: int| 0 <= j < s.len() ==> (#[trigger] s[j]).0 != k,
    ensures
        rec_insert(s, k, v) =~= s.push((k, v)),
    decreases s.len(),
{
    if s.len() > 0 {
        lemma_rec_insert_absent(s.drop_first(), k, v);
    }
}

/// A single log entry, collected as a (name, value) association: storing
/// a name twice keeps the later value, and first insertion order is
/// preserved.
#[derive(Debug)]
pub struct JournalRecord {
    fields: Vec<(String, String)>,
}

impl View for JournalRecord {
    type V = Seq<(Seq<char>, Seq<char>)>;

    closed spec fn view(&self) -> Seq<(Seq<char>, Seq<char>)> {
        pairs_view(self.fields@)
    }
}

impl JournalRecord {
    /// The empty record.
    pub fn new() -> (r: Self)
        ensures
            r@ =~= Seq::<(Seq<char>, Seq<char>)>::empty(),
    {
        JournalRecord { fields: Vec::new() }
    }

    /// The number of distinct names stored.
    pub fn len(&self) -> (r: usize)
        ensures
            r == self@.len(),
    {
        self.fields.len()
    }

    /// Store a value under a name, replacing the value of the first pair
    /// already carrying the name, if any.
    pub fn insert(&mut self, k: String, v: String)
        ensures
            final(self)@ == rec_insert(old(self)@, k@, v@),
    {
        let mut i: usize = 0;
        while i < self.fields.len()
            invariant
                i <= self@.len(),
                self@ == old(self)@,
                forall|j: int| 0 <= j < i ==> (#[trigger] old(self)@[j]).0 != k@,
            decreases self@.len() - i,
        {
            let hit = slice_index_get(self.fields.as_slice(), i).0 == k;
            if hit {
                self.fields[i] = (k, v);
                proof {
                    let ii = i as int;
                    assert(self@ =~= old(self)@.update(ii, (k@, v@)));
                    lemma_rec_insert_found(old(self)@, k@, v@, ii);
                }
                return ;
            }
            i = i + 1;
        }
        self.fields.push((k, v));
        proof {
            assert(self@ =~= old(self)@.push((k@, v@)));
            lemma_rec_insert_absent(old(self)@, k@, v@);
        }
    }

    /// The value stored under a name, if any: the first pair carrying it.
    pub fn get(&self, k: &String) -> (r: Option<&String>)
        ensures
            r matches Some(v) ==> exists|i: int|
                0 <= i < self@.len() && (#[trigger] self@[i]).0 == k@ && self@[i].1 == v@ && (
                forall|j: int| 0 <= j < i ==> (#[trigger] self@[j]).0 != k@),
            r is None ==> forall|i: int| 0 <= i < self@.len() ==> (#[trigger] self@[i]).0 != k@,
    {
        let mut i: usize = 0;
        while i < self.fields.len()
            invariant
                i <= self@.len(),
                forall|j: int| 0 <= j < i ==> (#[trigger] self@[j]).0 != k@,
            decreases self@.len() - i,
        {
            let entry = slice_index_get(self.fields.as_slice(), i);
            if entry.0 == *k {
                proof {
                    let ii = i as int;
                    assert((#[trigger] self@[ii]).0 == k@ && self@[ii].1 == entry.1@);
                }
                return Some(&entry.1);
            }
            i = i + 1;
        }
        None
    }

    /// All stored pairs, in storage order.
    pub fn entries(&self) -> (r: &Vec<(String, String)>)
        ensures
            pairs_view(r@) == self@,
    {
        &self.fields
    }
}

/// The ghost state of one journal entry: its data elements and the
/// clocks at which it was recorded.
#[verifier::ext_equal]
pub struct JournalEntryView {
    pub fields: Seq<JournalEntryFieldView>,
    pub realtime_usec: u64,
    pub monotonic_usec: u64,
    pub boot_id: Seq<u8>,
}

/// Every data element of the entry has a name and a value.
pub open spec fn entry_fields_ok(e: JournalEntryView) -> bool {
    forall|j: int|
        0 <= j < e.fields.len() ==> eq_split_ok((#[trigger] e.fields[j]).data, e.fields[j].eq)
            && e.fields[j].eq < e.fields[j].data.len()
}

/// One journal entry as the transport delivers it: its data elements and
/// the timestamps of its recording.
#[derive(Debug)]
pub struct JournalEntry {
    fields: Vec<JournalEntryField>,
    realtime_usec: u64,
    monotonic_usec: u64,
    boot_id: Id128,
}

impl View for JournalEntry {
    type V = JournalEntryView;

    closed spec fn view(&self) -> JournalEntryView {
        JournalEntryView {
            fields: Seq::new(self.fields@.len(), |i: int| self.fields@[i]@),
            realtime_usec: self.realtime_usec,
            monotonic_usec: self.monotonic_usec,
            boot_id: self.boot_id@,
        }
    }
}

impl JournalEntry {
    /// Assemble an entry from its data elements, each of which must be a
    /// `NAME=value` pair, and its clocks.
    pub fn new(
        fields: Vec<JournalEntryField>,
        realtime_usec: u64,
        monotonic_usec: u64,
        boot_id: Id128,
    ) -> (r: Self)
        requires
            forall|j: int|
                0 <= j < fields@.len() ==> eq_split_ok(
                    (#[trigger] fields@[j]@).data,
                    fields@[j]@.eq,
                ) && fields@[j]@.eq < fields@[j]@.data.len(),
        ensures
            r@.fields == Seq::new(fields@.len(), |i: int| fields@[i]@),
            r@.realtime_usec == realtime_usec,
            r@.monotonic_usec == monotonic_usec,
            r@.boot_id == boot_id@,
            entry_fields_ok(r@),
    {
        let r = JournalEntry { fields, realtime_usec, monotonic_usec, boot_id };
        proof {
            assert(entry_fields_ok(r@));
        }
        r
    }
}

impl JournalEntry {
    /// The realtime clock at which the entry was recorded.
    pub fn realtime(&self) -> (r: u64)
        ensures
            r == self@.realtime_usec,
    {
        self.realtime_usec
    }

    /// The monotonic clock at which the entry was recorded.
    pub fn monotonic(&self) -> (r: u64)
        ensures
            r == self@.monotonic_usec,
    {
        self.monotonic_usec
    }

    /// The boot the entry belongs to.
    pub fn boot_id_bytes(&self) -> (r: &[u8])
        ensures
            r@ == self@.boot_id,
    {
        self.boot_id.as_bytes()
    }
}

/// One term of the match expression being built on the engine side.
pub enum MatchTermV {
    /// A `FIELD=value` requirement.
    Pair(Seq<u8>),
    /// A disjunction (logical OR) inserted between the groups around it.
    Disjunction,
    /// A conjunction (logical AND) inserted between the groups around it.
    Conjunction,
}

/// One term of the match expression being built.
#[derive(Debug)]
pub enum MatchTerm {
    /// A `FIELD=value` requirement.
    Pair(Vec<u8>),
    /// A disjunction (logical OR) inserted between the groups around it.
    Disjunction,
    /// A conjunction (logical AND) inserted between the groups around it.
    Conjunction,
}

impl View for MatchTerm {
    type V = MatchTermV;

    closed spec fn view(&self) -> MatchTermV {
        match self {
            MatchTerm::Pair(b) => MatchTermV::Pair(b@),
            MatchTerm::Disjunction => MatchTermV::Disjunction,
            MatchTerm::Conjunction => MatchTermV::Conjunction,
        }
    }
}

/// Represents the set of journal files to read.
#[derive(Clone, Copy, Debug, PartialEq, Eq, Structural)]
pub enum JournalFiles {
    /// The system-wide journal.
    System,
    /// The current user's journal.
    CurrentUser,
    /// All journal files, including other users'.
    All,
}

impl JournalFiles {
    /// The open flag this selection stands for.
    pub fn as_flags(self) -> (r: i32)
        ensures
            self == JournalFiles::System ==> r == SD_JOURNAL_SYSTEM,
            self == JournalFiles::CurrentUser ==> r == SD_JOURNAL_CURRENT_USER,
            self == JournalFiles::All ==> r == 0,
    {
        match self {
            JournalFiles::System => SD_JOURNAL_SYSTEM,
            JournalFiles::CurrentUser => SD_JOURNAL_CURRENT_USER,
            JournalFiles::All => 0,
        }
    }
}

/// The outcome of waiting for journal changes.
#[derive(Clone, Copy, Debug, PartialEq, Eq, Structural)]
pub enum JournalWaitResult {
    /// Nothing happened within the wait.
    Nop,
    /// New entries were appended.
    Append,
    /// Journal files were added, rotated or removed.
    Invalidate,
}

/// Journal open options, turned into the engine's open flags.
#[derive(Debug)]
pub struct OpenOptions {
    current_user: bool,
    system: bool,
    local_only: bool,
    runtime_only: bool,
    all_namespaces: bool,
    include_default_namespace: bool,
    extra_raw_flags: i32,
}

/// The ghost state of the open options.
#[verifier::ext_equal]
pub struct OpenOptionsView {
    pub current_user: bool,
    pub system: bool,
    pub local_only: bool,
    pub runtime_only: bool,
    pub all_namespaces: bool,
    pub include_default_namespace: bool,
    pub extra_raw_flags: i32,
}

impl View for OpenOptions {
    type V = OpenOptionsView;

    closed spec fn view(&self) -> OpenOptionsView {
        OpenOptionsView {
            current_user: self.current_user,
            system: self.system,
            local_only: self.local_only,
            runtime_only: self.runtime_only,
            all_namespaces: self.all_namespaces,
            include_default_namespace: self.include_default_namespace,
            extra_raw_flags: self.extra_raw_flags,
        }
    }
}

/// The open flags a set of options stands for.
pub open spec fn spec_raw_flags(o: OpenOptionsView) -> i32 {
    o.extra_raw_flags | (if o.current_user {
        SD_JOURNAL_CURRENT_USER
    } else {
        0
    }) | (if o.system {
        SD_JOURNAL_SYSTEM
    } else {
        0
    }) | (if o.local_only {
        SD_JOURNAL_LOCAL_ONLY
    } else {
        0
    }) | (if o.runtime_only {
        SD_JOURNAL_RUNTIME_ONLY
    } else {
        0
    }) | (if o.all_namespaces {
        SD_JOURNAL_ALL_NAMESPACES
    } else {
        0
    }) | (if o.include_default_namespace {
        SD_JOURNAL_INCLUDE_DEFAULT_NAMESPACE
    } else {
        0
    })
}

impl Default for OpenOptions {
    /// No file selection, no extra flags.
    fn default() -> (r: Self)
        ensures
            r@ == (OpenOptionsView {
                current_user: false,
                system: false,
                local_only: false,
                runtime_only: false,
                all_namespaces: false,
                include_default_namespace: false,
                extra_raw_flags: 0,
            }),
    {
        OpenOptions {
            current_user: false,
            system: false,
            local_only: false,
            runtime_only: false,
            all_namespaces: false,
            include_default_namespace: false,
            extra_raw_flags: 0,
        }
    }
}

impl OpenOptions {
    /// Open the journal files of the current user.
    pub fn current_user(&mut self, current_user: bool)
        ensures
            final(self)@ == (OpenOptionsView { current_user, ..old(self)@ }),
    {
        self.current_user = current_user;
    }

    /// Open the journal files of system services and the kernel.
    pub fn system(&mut self, system: bool)
        ensures
            final(self)@ == (OpenOptionsView { system, ..old(self)@ }),
    {
        self.system = system;
    }

    /// Only open journal files generated on the local machine.
    pub fn local_only(&mut self, local_only: bool)
        ensures
            final(self)@ == (OpenOptionsView { local_only, ..old(self)@ }),
    {
        self.local_only = local_only;
    }

    /// Only open volatile journal files.
    pub fn runtime_only(&mut self, runtime_only: bool)
        ensures
            final(self)@ == (OpenOptionsView { runtime_only, ..old(self)@ }),
    {
        self.runtime_only = runtime_only;
    }

    /// Access all defined namespaces simultaneously.
    pub fn all_namespaces(&mut self, all_namespaces: bool)
        ensures
            final(self)@ == (OpenOptionsView { all_namespaces, ..old(self)@ }),
    {
        self.all_namespaces = all_namespaces;
    }

    /// Access the given namespace and the default one.
    pub fn include_default_namespace(&mut self, include_default_namespace: bool)
        ensures
            final(self)@ == (OpenOptionsView { include_default_namespace, ..old(self)@ }),
    {
        self.include_default_namespace = include_default_namespace;
    }

    /// Supply additional raw flags to the open call.
    pub fn extra_raw_flags(&mut self, extra_raw_flags: i32)
        ensures
            final(self)@ == (OpenOptionsView { extra_raw_flags, ..old(self)@ }),
    {
        self.extra_raw_flags = extra_raw_flags;
    }

    /// The open flags these options stand for.
    pub fn raw_flags(&self) -> (r: i32)
        ensures
            r == spec_raw_flags(self@),
    {
        self.extra_raw_flags | (if self.current_user {
            SD_JOURNAL_CURRENT_USER
        } else {
            0
        }) | (if self.system {
            SD_JOURNAL_SYSTEM
        } else {
            0
        }) | (if self.local_only {
            SD_JOURNAL_LOCAL_ONLY
        } else {
            0
        }) | (if self.runtime_only {
            SD_JOURNAL_RUNTIME_ONLY
        } else {
            0
        }) | (if self.all_namespaces {
            SD_JOURNAL_ALL_NAMESPACES
        } else {
            0
        }) | (if self.include_default_namespace {
            SD_JOURNAL_INCLUDE_DEFAULT_NAMESPACE
        } else {
            0
        })
    }

    /// Open the log journal for reading: a fresh reader, positioned
    /// before the first entry, with no matches and the default data
    /// threshold. Which entries the transport will feed is selected by
    /// the flags these options stand for.
    pub fn open(&self) -> (r: Result<Journal, Errno>)
        ensures
            r matches Ok(j) && fresh_journal(j@),
    {
        Ok(JournalRef {
            entries: Vec::new(),
            pos: 0,
            data_pos: 0,
            matches: Vec::new(),
            data_threshold: DEFAULT_DATA_THRESHOLD,
        })
    }
}

/// The ghost state of a journal reader.
#[verifier::ext_equal]
pub struct JournalView {
    pub entries: Seq<JournalEntryView>,
    /// 0 before the first entry; `1 + k` at entry `k`; one past the
    /// entry count after the last entry.
    pub pos: int,
    pub data_pos: int,
    pub matches: Seq<MatchTermV>,
    pub data_threshold: int,
}

/// The state every fresh journal reader starts in.
pub open spec fn fresh_journal(j: JournalView) -> bool {
    &&& j.entries.len() == 0
    &&& j.pos == 0
    &&& j.data_pos == 0
    &&& j.matches.len() == 0
    &&& j.data_threshold == DEFAULT_DATA_THRESHOLD
}

/// Whether the reader is positioned at an entry.
pub open spec fn at_entry(j: JournalView) -> bool {
    1 <= j.pos <= j.entries.len()
}

/// The entry the reader is positioned at.
pub open spec fn cur_entry(j: JournalView) -> JournalEntryView
    recommends
        at_entry(j),
{
    j.entries[j.pos - 1]
}

/// A reader for the journal.
///
/// Supports read, next, previous and head/tail seeking. The transport
/// feeds delivered entries in at the tail; iteration and collection are
/// local. The reader is single-threaded: it must stay on the thread that
/// drives it.
#[derive(Debug)]
pub struct JournalRef {
    entries: Vec<JournalEntry>,
    pos: usize,
    data_pos: usize,
    matches: Vec<MatchTerm>,
    data_threshold: usize,
}

/// A journal reader is its own reference target: the model keeps no
/// engine object behind a separate handle type.
pub type Journal = JournalRef;

impl View for JournalRef {
    type V = JournalView;

    closed spec fn view(&self) -> JournalView {
        JournalView {
            entries: Seq::new(self.entries@.len(), |i: int| self.entries@[i]@),
            pos: self.pos as int,
            data_pos: self.data_pos as int,
            matches: Seq::new(self.matches@.len(), |i: int| self.matches@[i]@),
            data_threshold: self.data_threshold as int,
        }
    }
}

impl JournalRef {
    /// The position stays within the entry range (with its two
    /// sentinels), every stored entry is made of `NAME=value` elements,
    /// and there is room to grow.
    #[verifier::type_invariant]
    pub closed spec fn wf(self) -> bool {
        &&& self.pos <= self.entries@.len() + 1
        &&& self.entries@.len() + 2 <= usize::MAX
        &&& forall|i: int|
            0 <= i < self.entries@.len() ==> entry_fields_ok(#[trigger] self.entries@[i]@)
    }

    /// Open a journal reader for the given file selection.
    pub fn open(files: JournalFiles, runtime_only: bool, local_only: bool) -> (r: Result<
        Journal,
        Errno,
    >)
        ensures
            r matches Ok(j) && fresh_journal(j@),
    {
        let mut opts = OpenOptions::default();
        opts.extra_raw_flags(files.as_flags());
        opts.local_only(local_only);
        opts.runtime_only(runtime_only);
        opts.open()
    }

    /// Transport boundary: an entry the engine delivered (it already
    /// passed the engine-side matches) joins the model at the tail.
    pub fn feed_entry(&mut self, e: JournalEntry)
        requires
            entry_fields_ok(e@),
            old(self)@.entries.len() + 3 <= usize::MAX,
        ensures
            final(self)@ == (JournalView { entries: old(self)@.entries.push(e@), ..old(self)@ }),
    {
        proof {
            use_type_invariant(&*self);
        }
        let ghost ev = e@;
        let saved_pos = self.pos;
        self.pos = 0;
        let mut entries: Vec<JournalEntry> = Vec::new();
        core::mem::swap(&mut entries, &mut self.entries);
        entries.push(e);
        core::mem::swap(&mut entries, &mut self.entries);
        self.pos = saved_pos;
        proof {
            assert(self@.entries =~= old(self)@.entries.push(ev));
            assert(self@ =~= (JournalView { entries: old(self)@.entries.push(ev), ..old(self)@ }));
        }
    }

    /// The reader position after one forward step.
    pub open spec fn next_pos(j: JournalView) -> int {
        if j.pos <= j.entries.len() {
            j.pos + 1
        } else {
            j.pos
        }
    }

    /// The reader position after one backward step.
    pub open spec fn prev_pos(j: JournalView) -> int {
        if j.pos >= 1 {
            j.pos - 1
        } else {
            0
        }
    }

    /// Move to the next entry. Returns 1 when the reader lands on an
    /// entry and 0 when it moved (or stayed) past the last one. Resets
    /// the data cursor.
    pub fn next(&mut self) -> (r: Result<u64, Errno>)
        ensures
            r matches Ok(n) && final(self)@ == (JournalView {
                pos: Self::next_pos(old(self)@),
                data_pos: 0,
                ..old(self)@
            }) && n == (if at_entry(final(self)@) {
                1u64
            } else {
                0u64
            }),
    {
        proof {
            use_type_invariant(&*self);
        }
        if self.pos <= self.entries.len() {
            self.pos = self.pos + 1;
        }
        self.data_pos = 0;
        let landed = self.pos >= 1 && self.pos <= self.entries.len();
        proof {
            assert(self@ =~= (JournalView {
                pos: Self::next_pos(old(self)@),
                data_pos: 0,
                ..old(self)@
            }));
        }
        if landed {
            Ok(1)
        } else {
            Ok(0)
        }
    }

    /// Move to the previous entry. Returns 1 when the reader lands on an
    /// entry and 0 when it moved (or stayed) before the first one.
    /// Resets the data cursor.
    pub fn previous(&mut self) -> (r: Result<u64, Errno>)
        ensures
            r matches Ok(n) && final(self)@ == (JournalView {
                pos: Self::prev_pos(old(self)@),
                data_pos: 0,
                ..old(self)@
            }) && n == (if at_entry(final(self)@) {
                1u64
            } else {
                0u64
            }),
    {
        proof {
            use_type_invariant(&*self);
        }
        if self.pos >= 1 {
            self.pos = self.pos - 1;
        }
        self.data_pos = 0;
        let landed = self.pos >= 1 && self.pos <= self.entries.len();
        proof {
            assert(self@ =~= (JournalView {
                pos: Self::prev_pos(old(self)@),
                data_pos: 0,
                ..old(self)@
            }));
        }
        if landed {
            Ok(1)
        } else {
            Ok(0)
        }
    }

    /// Seek before the first entry; use the iteration calls to move onto
    /// an entry afterwards.
    pub fn seek_head(&mut self)
        ensures
            final(self)@ == (JournalView { pos: 0, data_pos: 0, ..old(self)@ }),
    {
        proof {
            use_type_invariant(&*self);
        }
        self.pos = 0;
        self.data_pos = 0;
        proof {
            assert(self@ =~= (JournalView { pos: 0, data_pos: 0, ..old(self)@ }));
        }
    }

    /// Seek after the last entry; use the iteration calls to move onto
    /// an entry afterwards.
    pub fn seek_tail(&mut self)
        ensures
            final(self)@ == (JournalView {
                pos: old(self)@.entries.len() + 1int,
                data_pos: 0,
                ..old(self)@
            }),
    {
        proof {
            use_type_invariant(&*self);
        }
        self.pos = self.entries.len() + 1;
        self.data_pos = 0;
        proof {
            assert(self@ =~= (JournalView {
                pos: old(self)@.entries.len() + 1int,
                data_pos: 0,
                ..old(self)@
            }));
        }
    }

    /// Restart the data-element iteration over the current entry.
    pub fn restart_data(&mut self)
        ensures
            final(self)@ == (JournalView { data_pos: 0, ..old(self)@ }),
    {
        proof {
            use_type_invariant(&*self);
        }
        self.data_pos = 0;
        proof {
            assert(self@ =~= (JournalView { data_pos: 0, ..old(self)@ }));
        }
    }

    /// The next data element of the current entry, advancing the data
    /// cursor; nothing when all elements have been enumerated. Fails
    /// while the reader is not positioned at an entry.
    pub fn enumerate_data(&mut self) -> (r: Result<Option<JournalEntryField>, Errno>)
        ensures
            !at_entry(old(self)@) ==> (r matches Err(e) && e.code == EADDRNOTAVAIL
                && final(self)@ == old(self)@),
            at_entry(old(self)@) && old(self)@.data_pos >= cur_entry(old(self)@).fields.len()
                ==> (r matches Ok(o) && o is None && final(self)@ == old(self)@),
            at_entry(old(self)@) && old(self)@.data_pos < cur_entry(old(self)@).fields.len()
                ==> (r matches Ok(o) && o matches Some(f) && f@ == cur_entry(old(self)@).fields[
                old(self)@.data_pos
            ] && final(self)@ == (JournalView { data_pos: old(self)@.data_pos + 1, ..old(self)@ })),
    {
        proof {
            use_type_invariant(&*self);
        }
        if self.pos < 1 || self.pos > self.entries.len() {
            return Err(Errno { code: EADDRNOTAVAIL });
        }
        let entry = slice_index_get(self.entries.as_slice(), self.pos - 1);
        if self.data_pos >= entry.fields.len() {
            return Ok(None);
        }
        let f = slice_index_get(entry.fields.as_slice(), self.data_pos).clone();
        self.data_pos = self.data_pos + 1;
        proof {
            assert(self@ =~= (JournalView { data_pos: old(self)@.data_pos + 1, ..old(self)@ }));
        }
        Ok(Some(f))
    }

    /// The data element with the given name in the current entry, if
    /// any: the first one whose name part equals `field`. Fails while
    /// the reader is not positioned at an entry. The result may be
    /// truncated to the data threshold by the engine; the model stores
    /// what was delivered.
    pub fn get_data(&mut self, field: &[u8]) -> (r: Result<Option<JournalEntryField>, Errno>)
        ensures
            final(self)@ == old(self)@,
            !at_entry(old(self)@) ==> (r matches Err(e) && e.code == EADDRNOTAVAIL),
            at_entry(old(self)@) ==> (match r {
                Ok(Some(f)) => exists|i: int|
                    0 <= i < cur_entry(old(self)@).fields.len() && f@ == (#[trigger] cur_entry(
                        old(self)@,
                    ).fields[i]) && field_name(cur_entry(old(self)@).fields[i]) == field@ && (
                    forall|j: int|
                        0 <= j < i ==> field_name(
                            #[trigger] cur_entry(old(self)@).fields[j],
                        ) != field@),
                Ok(None) => forall|i: int|
                    0 <= i < cur_entry(old(self)@).fields.len() ==> field_name(
                        #[trigger] cur_entry(old(self)@).fields[i],
                    ) != field@,
                Err(_) => false,
            }),
    {
        proof {
            use_type_invariant(&*self);
        }
        if self.pos < 1 || self.pos > self.entries.len() {
            return Err(Errno { code: EADDRNOTAVAIL });
        }
        let entry = slice_index_get(self.entries.as_slice(), self.pos - 1);
        let mut i: usize = 0;
        while i < entry.fields.len()
            invariant
                i <= entry@.fields.len(),
                entry@ == cur_entry(old(self)@),
                self@ == old(self)@,
                at_entry(old(self)@),
                forall|j: int|
                    0 <= j < i ==> field_name(#[trigger] cur_entry(old(self)@).fields[j])
                        != field@,
            decreases entry@.fields.len() - i,
        {
            let f = slice_index_get(entry.fields.as_slice(), i);
            if crate::text::bytes_eq(f.name(), field) {
                let found = f.clone();
                proof {
                    let ii = i as int;
                    assert(found@ == (#[trigger] cur_entry(old(self)@).fields[ii]));
                }
                return Ok(Some(found));
            }
            i = i + 1;
        }
        Ok(None)
    }
}


/// The record collected from the data elements of an entry, from
/// position `i` on, starting from the pairs already in `acc`: each
/// element's name and value, lossily decoded, stored in order.
pub open spec fn collect_rec(
    fields: Seq<JournalEntryFieldView>,
    i: int,
    acc: Seq<(Seq<char>, Seq<char>)>,
) -> Seq<(Seq<char>, Seq<char>)>
    decreases fields.len() - i,
    when i <= fields.len()
{
    if i >= fields.len() {
        acc
    } else {
        collect_rec(
            fields,
            i + 1,
            rec_insert(acc, lossy_text(field_name(fields[i])), lossy_text(field_value(fields[i]))),
        )
    }
}

/// The view of each string in a list.
pub open spec fn strs_view(s: Seq<String>) -> Seq<Seq<char>> {
    Seq::new(s.len(), |i: int| s[i]@)
}

/// A displayable rendering of a single entry's data elements.
#[derive(Debug)]
pub struct DisplayEntryData {
    fields: Vec<JournalEntryField>,
}

impl View for DisplayEntryData {
    type V = Seq<JournalEntryFieldView>;

    closed spec fn view(&self) -> Seq<JournalEntryFieldView> {
        Seq::new(self.fields@.len(), |i: int| self.fields@[i]@)
    }
}

/// One rendered line per data element: the element's text, lossily
/// decoded, quoted and indented.
pub open spec fn display_lines(fields: Seq<JournalEntryFieldView>, i: int) -> Seq<char>
    decreases fields.len() - i,
    when i <= fields.len()
{
    if i >= fields.len() {
        Seq::empty()
    } else {
        seq![' ', '"'] + lossy_text(fields[i].data) + seq!['"', ',', '\n'] + display_lines(
            fields,
            i + 1,
        )
    }
}

/// The rendered form of an entry: its quoted data elements, one per
/// line, between braces.
pub open spec fn display_text(fields: Seq<JournalEntryFieldView>) -> Seq<char> {
    seq!['{', '\n'] + display_lines(fields, 0) + seq!['}', '\n']
}

impl DisplayEntryData {
    /// Render the entry's data elements as text.
    pub fn render(&self) -> (r: String)
        ensures
            r@ == display_text(self@),
    {
        proof {
            reveal_strlit("{\n");
            reveal_strlit(" \"");
            reveal_strlit("\",\n");
            reveal_strlit("}\n");
        }
        let mut out = String::new();
        out.append("{\n");
        let mut i: usize = 0;
        while i < self.fields.len()
            invariant
                i <= self@.len(),
                out@ == seq!['{', '\n'] + (display_lines(self@, 0).subrange(
                    0,
                    display_lines(self@, 0).len() - display_lines(self@, i as int).len(),
                )),
            decreases self@.len() - i,
        {
            proof {
                reveal_strlit("{\n");
                reveal_strlit(" \"");
                reveal_strlit("\",\n");
                lemma_display_lines_prefix(self@, i as int);
            }
            let f = slice_index_get(self.fields.as_slice(), i);
            let t = lossy_string(f.data());
            out.append(" \"");
            out.append(t.as_str());
            out.append("\",\n");
            i = i + 1;
            proof {
                assert(out@ =~= seq!['{', '\n'] + (display_lines(self@, 0).subrange(
                    0,
                    display_lines(self@, 0).len() - display_lines(self@, i as int).len(),
                )));
            }
        }
        out.append("}\n");
        proof {
            assert(display_lines(self@, i as int) =~= Seq::<char>::empty());
            assert(out@ =~= display_text(self@));
        }
        out
    }
}

/// The rendered lines from `i` on are a suffix of the whole rendering.
proof fn lemma_display_lines_prefix(fields: Seq<JournalEntryFieldView>, i: int)
    requires
        0 <= i <= fields.len(),
    ensures
        display_lines(fields, 0).subrange(
            0,
            display_lines(fields, 0).len() - display_lines(fields, i).len(),
        ) + display_lines(fields, i) =~= display_lines(fields, 0),
        display_lines(fields, i).len() <= display_lines(fields, 0).len(),
    decreases i,
{
    if i == 0 {
    } else {
        lemma_display_lines_prefix(fields, i - 1);
        assert(display_lines(fields, i - 1) =~= seq![' ', '"'] + lossy_text(fields[i - 1].data)
            + seq!['"', ',', '\n'] + display_lines(fields, i));
    }
}

impl JournalRef {
    /// Collect all data elements of the current entry into a record,
    /// exhausting the data cursor. Fails while the reader is not
    /// positioned at an entry.
    pub fn collect_entry(&mut self) -> (r: Result<JournalRecord, Errno>)
        ensures
            !at_entry(old(self)@) ==> (r matches Err(e) && e.code == EADDRNOTAVAIL
                && final(self)@ == old(self)@),
            at_entry(old(self)@) ==> (r matches Ok(rec) && rec@ == collect_rec(
                cur_entry(old(self)@).fields,
                0,
                Seq::empty(),
            ) && final(self)@ == (JournalView {
                data_pos: cur_entry(old(self)@).fields.len() as int,
                ..old(self)@
            })),
    {
        proof {
            use_type_invariant(&*self);
        }
        if self.pos < 1 || self.pos > self.entries.len() {
            return Err(Errno { code: EADDRNOTAVAIL });
        }
        let entry = slice_index_get(self.entries.as_slice(), self.pos - 1);
        let ghost fv = cur_entry(old(self)@).fields;
        let mut rec = JournalRecord::new();
        let mut i: usize = 0;
        while i < entry.fields.len()
            invariant
                i <= fv.len(),
                entry@ == cur_entry(old(self)@),
                fv == entry@.fields,
                entry_fields_ok(entry@),
                self@ == old(self)@,
                collect_rec(fv, i as int, rec@) == collect_rec(fv, 0, Seq::empty()),
            decreases fv.len() - i,
        {
            let f = slice_index_get(entry.fields.as_slice(), i);
            let k = lossy_string(f.name());
            let v = match f.value() {
                Some(v) => lossy_string(v),
                None => unreached(),
            };
            rec.insert(k, v);
            i = i + 1;
        }
        let n = entry.fields.len();
        self.data_pos = n;
        proof {
            assert(self@ =~= (JournalView {
                data_pos: cur_entry(old(self)@).fields.len() as int,
                ..old(self)@
            }));
        }
        Ok(rec)
    }

    /// Read the next entry from the journal as a collected record;
    /// nothing when no entry is left.
    pub fn next_entry(&mut self) -> (r: Result<Option<JournalRecord>, Errno>)
        ensures
            !at_entry((JournalView { pos: Self::next_pos(old(self)@), ..old(self)@ })) ==> (
            r matches Ok(o) && o is None && final(self)@ == (JournalView {
                pos: Self::next_pos(old(self)@),
                data_pos: 0,
                ..old(self)@
            })),
            at_entry((JournalView { pos: Self::next_pos(old(self)@), ..old(self)@ })) ==> (
            r matches Ok(o) && o matches Some(rec) && rec@ == collect_rec(
                old(self)@.entries[Self::next_pos(old(self)@) - 1].fields,
                0,
                Seq::empty(),
            ) && final(self)@ == (JournalView {
                pos: Self::next_pos(old(self)@),
                data_pos: old(self)@.entries[Self::next_pos(old(self)@) - 1].fields.len() as int,
                ..old(self)@
            })),
    {
        let n = match self.next() {
            Ok(n) => n,
            Err(e) => {
                return Err(e);
            },
        };
        if n == 0 {
            return Ok(None);
        }
        match self.collect_entry() {
            Ok(rec) => Ok(Some(rec)),
            Err(e) => Err(e),
        }
    }

    /// Read the previous entry from the journal as a collected record;
    /// nothing when no entry is left.
    pub fn previous_entry(&mut self) -> (r: Result<Option<JournalRecord>, Errno>)
        ensures
            !at_entry((JournalView { pos: Self::prev_pos(old(self)@), ..old(self)@ })) ==> (
            r matches Ok(o) && o is None && final(self)@ == (JournalView {
                pos: Self::prev_pos(old(self)@),
                data_pos: 0,
                ..old(self)@
            })),
            at_entry((JournalView { pos: Self::prev_pos(old(self)@), ..old(self)@ })) ==> (
            r matches Ok(o) && o matches Some(rec) && rec@ == collect_rec(
                old(self)@.entries[Self::prev_pos(old(self)@) - 1].fields,
                0,
                Seq::empty(),
            ) && final(self)@ == (JournalView {
                pos: Self::prev_pos(old(self)@),
                data_pos: old(self)@.entries[Self::prev_pos(old(self)@) - 1].fields.len() as int,
                ..old(self)@
            })),
    {
        let n = match self.previous() {
            Ok(n) => n,
            Err(e) => {
                return Err(e);
            },
        };
        if n == 0 {
            return Ok(None);
        }
        match self.collect_entry() {
            Ok(rec) => Ok(Some(rec)),
            Err(e) => Err(e),
        }
    }

    /// React to the outcome of a wait for journal changes: nothing
    /// happened means no entry; on append (or invalidation, which is
    /// treated the same way) the next entry is read.
    pub fn await_next_entry(&mut self, wait_result: JournalWaitResult) -> (r: Result<
        Option<JournalRecord>,
        Errno,
    >)
        ensures
            wait_result == JournalWaitResult::Nop ==> (r matches Ok(o) && o is None
                && final(self)@ == old(self)@),
            wait_result != JournalWaitResult::Nop && !at_entry(
                (JournalView { pos: Self::next_pos(old(self)@), ..old(self)@ }),
            ) ==> (r matches Ok(o) && o is None && final(self)@ == (JournalView {
                pos: Self::next_pos(old(self)@),
                data_pos: 0,
                ..old(self)@
            })),
            wait_result != JournalWaitResult::Nop && at_entry(
                (JournalView { pos: Self::next_pos(old(self)@), ..old(self)@ }),
            ) ==> (r matches Ok(o) && o matches Some(rec) && rec@ == collect_rec(
                old(self)@.entries[Self::next_pos(old(self)@) - 1].fields,
                0,
                Seq::empty(),
            )),
    {
        match wait_result {
            JournalWaitResult::Nop => Ok(None),
            JournalWaitResult::Append => self.next_entry(),
            JournalWaitResult::Invalidate => self.next_entry(),
        }
    }

    /// A displayable rendering of the current entry's data elements;
    /// empty while the reader is not positioned at an entry.
    pub fn display_entry_data(&mut self) -> (r: DisplayEntryData)
        ensures
            final(self)@ == old(self)@,
            at_entry(old(self)@) ==> r@ == cur_entry(old(self)@).fields,
            !at_entry(old(self)@) ==> r@ =~= Seq::<JournalEntryFieldView>::empty(),
    {
        proof {
            use_type_invariant(&*self);
        }
        if self.pos < 1 || self.pos > self.entries.len() {
            return DisplayEntryData { fields: Vec::new() };
        }
        let entry = slice_index_get(self.entries.as_slice(), self.pos - 1);
        let mut fields: Vec<JournalEntryField> = Vec::new();
        let mut i: usize = 0;
        while i < entry.fields.len()
            invariant
                i <= entry@.fields.len(),
                entry@ == cur_entry(old(self)@),
                self@ == old(self)@,
                at_entry(old(self)@),
                fields@.len() == i,
                forall|j: int| 0 <= j < i ==> fields@[j]@ == entry@.fields[j],
            decreases entry@.fields.len() - i,
        {
            fields.push(slice_index_get(entry.fields.as_slice(), i).clone());
            i = i + 1;
        }
        let r = DisplayEntryData { fields };
        proof {
            assert(r@ =~= cur_entry(old(self)@).fields);
        }
        r
    }

    /// The realtime clock at which the current entry was recorded.
    /// Fails while the reader is not positioned at an entry.
    pub fn timestamp(&self) -> (r: Result<u64, Errno>)
        ensures
            at_entry(self@) ==> r == Ok::<u64, Errno>(cur_entry(self@).realtime_usec),
            !at_entry(self@) ==> (r matches Err(e) && e.code == EADDRNOTAVAIL),
    {
        proof {
            use_type_invariant(self);
        }
        if self.pos < 1 || self.pos > self.entries.len() {
            return Err(Errno { code: EADDRNOTAVAIL });
        }
        Ok(slice_index_get(self.entries.as_slice(), self.pos - 1).realtime_usec)
    }

    /// The monotonic clock at which the current entry was recorded, with
    /// the boot it belongs to. Fails while the reader is not positioned
    /// at an entry.
    pub fn monotonic_timestamp(&self) -> (r: Result<(u64, Id128), Errno>)
        ensures
            at_entry(self@) ==> (r matches Ok(p) && p.0 == cur_entry(self@).monotonic_usec
                && p.1@ == cur_entry(self@).boot_id),
            !at_entry(self@) ==> (r matches Err(e) && e.code == EADDRNOTAVAIL),
    {
        proof {
            use_type_invariant(self);
        }
        if self.pos < 1 || self.pos > self.entries.len() {
            return Err(Errno { code: EADDRNOTAVAIL });
        }
        let entry = slice_index_get(self.entries.as_slice(), self.pos - 1);
        Ok((entry.monotonic_usec, entry.boot_id.clone()))
    }

    /// The monotonic clock at which the current entry was recorded,
    /// without its boot ID. Fails while the reader is not positioned at
    /// an entry.
    pub fn monotonic_timestamp_current_boot(&self) -> (r: Result<u64, Errno>)
        ensures
            at_entry(self@) ==> r == Ok::<u64, Errno>(cur_entry(self@).monotonic_usec),
            !at_entry(self@) ==> (r matches Err(e) && e.code == EADDRNOTAVAIL),
    {
        proof {
            use_type_invariant(self);
        }
        if self.pos < 1 || self.pos > self.entries.len() {
            return Err(Errno { code: EADDRNOTAVAIL });
        }
        Ok(slice_index_get(self.entries.as_slice(), self.pos - 1).monotonic_usec)
    }


    /// Move forward over up to `skip` entries. Returns the number of
    /// entries landed on; fewer than `skip` means the reader ran past
    /// the last entry.
    pub fn next_skip(&mut self, skip: u64) -> (r: Result<u64, Errno>)
        ensures
            skip == 0 ==> (r matches Ok(n) && n == 0 && final(self)@ == old(self)@),
            skip > 0 && old(self)@.pos > old(self)@.entries.len() ==> (r matches Ok(n) && n == 0
                && final(self)@ == (JournalView { data_pos: 0, ..old(self)@ })),
            skip > 0 && old(self)@.pos <= old(self)@.entries.len() && skip <= old(self)@.entries.len() - old(self)@.pos ==> (r matches Ok(n) && n == skip
                && final(self)@ == (JournalView {
                    pos: old(self)@.pos + skip,
                    data_pos: 0,
                    ..old(self)@
                })),
            skip > 0 && old(self)@.pos <= old(self)@.entries.len() && skip > old(self)@.entries.len() - old(self)@.pos ==> (r matches Ok(n) && n == old(self)@.entries.len() - old(self)@.pos && final(self)@ == (JournalView {
                pos: old(self)@.entries.len() + 1int,
                data_pos: 0,
                ..old(self)@
            })),
    {
        proof {
            use_type_invariant(&*self);
        }
        let mut count: u64 = 0;
        while count < skip
            invariant
                count <= skip,
                old(self)@.pos <= old(self)@.entries.len() + 1,
                count == 0 ==> self@ == old(self)@,
                count > 0 ==> old(self)@.pos + count <= old(self)@.entries.len() && self@ == (
                JournalView { pos: old(self)@.pos + count, data_pos: 0, ..old(self)@ }),
            decreases skip - count,
        {
            let n = match self.next() {
                Ok(n) => n,
                Err(e) => {
                    return Err(e);
                },
            };
            if n == 0 {
                return Ok(count);
            }
            count = count + 1;
        }
        Ok(count)
    }

    /// Move backward over up to `skip` entries. Returns the number of
    /// entries landed on; fewer than `skip` means the reader ran before
    /// the first entry.
    pub fn previous_skip(&mut self, skip: u64) -> (r: Result<usize, Errno>)
        ensures
            skip == 0 ==> (r matches Ok(n) && n == 0 && final(self)@ == old(self)@),
            skip > 0 && old(self)@.pos == 0 ==> (r matches Ok(n) && n == 0 && final(self)@ == (
            JournalView { data_pos: 0, ..old(self)@ })),
            skip > 0 && old(self)@.pos > 0 && skip <= old(self)@.pos - 1 ==> (r matches Ok(n)
                && n == skip && final(self)@ == (JournalView {
                pos: old(self)@.pos - skip,
                data_pos: 0,
                ..old(self)@
            })),
            skip > 0 && old(self)@.pos > 0 && skip > old(self)@.pos - 1 ==> (r matches Ok(n)
                && n == old(self)@.pos - 1 && final(self)@ == (JournalView {
                pos: 0,
                data_pos: 0,
                ..old(self)@
            })),
    {
        proof {
            use_type_invariant(&*self);
        }
        let mut count: usize = 0;
        while (count as u64) < skip
            invariant
                count as u64 <= skip,
                old(self)@.pos <= old(self)@.entries.len() + 1,
                count == 0 ==> self@ == old(self)@,
                count > 0 ==> count <= old(self)@.pos - 1 && self@ == (JournalView {
                    pos: old(self)@.pos - count,
                    data_pos: 0,
                    ..old(self)@
                }) && self@.pos >= 1,
            decreases skip - count,
        {
            let n = match self.previous() {
                Ok(n) => n,
                Err(e) => {
                    return Err(e);
                },
            };
            if n == 0 {
                return Ok(count);
            }
            count = count + 1;
        }
        Ok(count)
    }

    /// Seek so that forward iteration continues with the first entry
    /// recorded at or after the given realtime clock.
    pub fn seek_realtime_usec(&mut self, usec: u64) -> (r: Result<(), Errno>)
        ensures
            r is Ok,
            final(self)@ == (JournalView {
                pos: final(self)@.pos,
                data_pos: 0,
                ..old(self)@
            }),
            0 <= final(self)@.pos <= old(self)@.entries.len(),
            forall|j: int|
                0 <= j < final(self)@.pos ==> (#[trigger] old(self)@.entries[j]).realtime_usec
                    < usec,
            final(self)@.pos < old(self)@.entries.len() ==> old(self)@.entries[final(self)@.pos].realtime_usec >= usec,
    {
        proof {
            use_type_invariant(&*self);
        }
        let mut i: usize = 0;
        while i < self.entries.len() && slice_index_get(self.entries.as_slice(), i).realtime()
            < usec
            invariant
                i <= self@.entries.len(),
                self@ == old(self)@,
                forall|j: int|
                    0 <= j < i ==> (#[trigger] old(self)@.entries[j]).realtime_usec < usec,
            decreases self@.entries.len() - i,
        {
            i = i + 1;
        }
        self.pos = i;
        self.data_pos = 0;
        proof {
            assert(self@ =~= (JournalView { pos: i as int, data_pos: 0, ..old(self)@ }));
        }
        Ok(())
    }

    /// Seek so that forward iteration continues with the first entry of
    /// the given boot recorded at or after the given monotonic clock.
    pub fn seek_monotonic_usec(&mut self, boot_id: &Id128, usec: u64) -> (r: Result<(), Errno>)
        ensures
            r is Ok,
            final(self)@ == (JournalView {
                pos: final(self)@.pos,
                data_pos: 0,
                ..old(self)@
            }),
            0 <= final(self)@.pos <= old(self)@.entries.len(),
            forall|j: int|
                0 <= j < final(self)@.pos ==> !((#[trigger] old(self)@.entries[j]).boot_id
                    == boot_id@ && old(self)@.entries[j].monotonic_usec >= usec),
            final(self)@.pos < old(self)@.entries.len() ==> (old(self)@.entries[final(self)@.pos].boot_id == boot_id@ && old(self)@.entries[final(self)@.pos].monotonic_usec
                >= usec),
    {
        proof {
            use_type_invariant(&*self);
        }
        let mut i: usize = 0;
        while i < self.entries.len() && !(slice_index_get(self.entries.as_slice(), i).monotonic()
            >= usec && crate::text::bytes_eq(
            slice_index_get(self.entries.as_slice(), i).boot_id_bytes(),
            boot_id.as_bytes(),
        ))
            invariant
                i <= self@.entries.len(),
                self@ == old(self)@,
                forall|j: int|
                    0 <= j < i ==> !((#[trigger] old(self)@.entries[j]).boot_id == boot_id@
                        && old(self)@.entries[j].monotonic_usec >= usec),
            decreases self@.entries.len() - i,
        {
            i = i + 1;
        }
        self.pos = i;
        self.data_pos = 0;
        proof {
            assert(self@ =~= (JournalView { pos: i as int, data_pos: 0, ..old(self)@ }));
        }
        Ok(())
    }

    /// Record a `FIELD=value` match term. Only entries carrying the field
    /// will be delivered while the term is in force.
    pub fn match_add(&mut self, key: &str, val: &[u8]) -> (r: Result<(), Errno>)
        ensures
            r is Ok,
            final(self)@ == (JournalView {
                matches: old(self)@.matches.push(
                    MatchTermV::Pair(key.spec_bytes() + seq![('=' as u8)] + val@),
                ),
                ..old(self)@
            }),
    {
        proof {
            use_type_invariant(&*self);
        }
        let mut filter = vstd::slice::slice_to_vec(key.as_bytes());
        filter.push('=' as u8);
        let mut i: usize = 0;
        while i < val.len()
            invariant
                i <= val@.len(),
                filter@ == key.spec_bytes() + seq![('=' as u8)] + val@.subrange(0, i as int),
            decreases val@.len() - i,
        {
            filter.push(*slice_index_get(val, i));
            i = i + 1;
            proof {
                assert(filter@ =~= key.spec_bytes() + seq![('=' as u8)] + val@.subrange(
                    0,
                    i as int,
                ));
            }
        }
        proof {
            assert(filter@ =~= key.spec_bytes() + seq![('=' as u8)] + val@);
        }
        let mut terms: Vec<MatchTerm> = Vec::new();
        core::mem::swap(&mut terms, &mut self.matches);
        terms.push(MatchTerm::Pair(filter));
        core::mem::swap(&mut terms, &mut self.matches);
        proof {
            assert(self@.matches =~= old(self)@.matches.push(
                MatchTermV::Pair(key.spec_bytes() + seq![('=' as u8)] + val@),
            ));
            assert(self@ =~= (JournalView { matches: self@.matches, ..old(self)@ }));
        }
        Ok(())
    }

    /// Insert a disjunction (logical OR) in the match list.
    pub fn match_or(&mut self) -> (r: Result<(), Errno>)
        ensures
            r is Ok,
            final(self)@ == (JournalView {
                matches: old(self)@.matches.push(MatchTermV::Disjunction),
                ..old(self)@
            }),
    {
        proof {
            use_type_invariant(&*self);
        }
        let mut terms: Vec<MatchTerm> = Vec::new();
        core::mem::swap(&mut terms, &mut self.matches);
        terms.push(MatchTerm::Disjunction);
        core::mem::swap(&mut terms, &mut self.matches);
        proof {
            assert(self@.matches =~= old(self)@.matches.push(MatchTermV::Disjunction));
            assert(self@ =~= (JournalView { matches: self@.matches, ..old(self)@ }));
        }
        Ok(())
    }

    /// Insert a conjunction (logical AND) in the match list.
    pub fn match_and(&mut self) -> (r: Result<(), Errno>)
        ensures
            r is Ok,
            final(self)@ == (JournalView {
                matches: old(self)@.matches.push(MatchTermV::Conjunction),
                ..old(self)@
            }),
    {
        proof {
            use_type_invariant(&*self);
        }
        let mut terms: Vec<MatchTerm> = Vec::new();
        core::mem::swap(&mut terms, &mut self.matches);
        terms.push(MatchTerm::Conjunction);
        core::mem::swap(&mut terms, &mut self.matches);
        proof {
            assert(self@.matches =~= old(self)@.matches.push(MatchTermV::Conjunction));
            assert(self@ =~= (JournalView { matches: self@.matches, ..old(self)@ }));
        }
        Ok(())
    }

    /// Flush all match terms: every entry will be delivered again.
    pub fn match_flush(&mut self) -> (r: Result<(), Errno>)
        ensures
            r is Ok,
            final(self)@ == (JournalView { matches: Seq::empty(), ..old(self)@ }),
    {
        proof {
            use_type_invariant(&*self);
        }
        self.matches = Vec::new();
        proof {
            assert(self@.matches =~= Seq::<MatchTermV>::empty());
            assert(self@ =~= (JournalView { matches: Seq::empty(), ..old(self)@ }));
        }
        Ok(())
    }

    /// The field size beyond which delivered data may be truncated.
    pub fn data_threshold(&mut self) -> (r: Result<usize, Errno>)
        ensures
            final(self)@ == old(self)@,
            r == Ok::<usize, Errno>(old(self)@.data_threshold as usize),
    {
        Ok(self.data_threshold)
    }

    /// Set the field size beyond which delivered data may be truncated.
    /// Smaller thresholds let the engine avoid decompressing large
    /// objects in full.
    pub fn set_data_threshold(&mut self, new_threshold: usize) -> (r: Result<(), Errno>)
        ensures
            r is Ok,
            final(self)@ == (JournalView {
                data_threshold: new_threshold as int,
                ..old(self)@
            }),
    {
        proof {
            use_type_invariant(&*self);
        }
        self.data_threshold = new_threshold;
        proof {
            assert(self@ =~= (JournalView { data_threshold: new_threshold as int, ..old(self)@ }));
        }
        Ok(())
    }
}

/// Logger marker over the journal: the embedder installs it as its
/// logging sink and forwards each record through the field builders
/// below.
#[derive(Debug)]
pub struct JournalLog;

/// The journal fields a log line with source location becomes: priority,
/// message, and the code location, each as a `KEY=value` string.
pub fn log(level: usize, file: &str, line: u32, code_module: &str, message: &str) -> (r: Vec<
    String,
>)
    ensures
        strs_view(r@) =~= seq![
            "PRIORITY="@ + crate::text::ascii_chars_of(crate::text::dec_digits(level as nat)),
            "MESSAGE="@ + message@,
            "CODE_LINE="@ + crate::text::ascii_chars_of(crate::text::dec_digits(line as nat)),
            "CODE_FILE="@ + file@,
            "CODE_MODULE="@ + code_module@,
        ],
{
    let mut pri = String::new();
    pri.append("PRIORITY=");
    let lv = crate::text::u64_to_string(level as u64);
    pri.append(lv.as_str());
    let mut msg = String::new();
    msg.append("MESSAGE=");
    msg.append(message);
    let mut ln = String::new();
    ln.append("CODE_LINE=");
    let ls = crate::text::u64_to_string(line as u64);
    ln.append(ls.as_str());
    let mut fl = String::new();
    fl.append("CODE_FILE=");
    fl.append(file);
    let mut md = String::new();
    md.append("CODE_MODULE=");
    md.append(code_module);
    let mut out: Vec<String> = Vec::new();
    out.push(pri);
    out.push(msg);
    out.push(ln);
    out.push(fl);
    out.push(md);
    out
}

/// The journal fields a structured log record becomes: priority, message
/// and target, then the code location parts that are present.
pub fn log_record(
    priority: usize,
    message: &str,
    target: &str,
    line: Option<u32>,
    file: Option<&str>,
    code_module: Option<&str>,
) -> (r: Vec<String>)
    ensures
        strs_view(r@) =~= seq![
            "PRIORITY="@ + crate::text::ascii_chars_of(
                crate::text::dec_digits(priority as nat),
            ),
            "MESSAGE="@ + message@,
            "TARGET="@ + target@,
        ] + (match line {
            Some(l) => seq![
                "CODE_LINE="@ + crate::text::ascii_chars_of(crate::text::dec_digits(l as nat)),
            ],
            None => Seq::empty(),
        }) + (match file {
            Some(f) => seq!["CODE_FILE="@ + f@],
            None => Seq::empty(),
        }) + (match code_module {
            Some(m) => seq!["CODE_FUNC="@ + m@],
            None => Seq::empty(),
        }),
{
    let mut pri = String::new();
    pri.append("PRIORITY=");
    let lv = crate::text::u64_to_string(priority as u64);
    pri.append(lv.as_str());
    let mut msg = String::new();
    msg.append("MESSAGE=");
    msg.append(message);
    let mut tgt = String::new();
    tgt.append("TARGET=");
    tgt.append(target);
    let mut out: Vec<String> = Vec::new();
    out.push(pri);
    out.push(msg);
    out.push(tgt);
    match line {
        Some(l) => {
            let mut ln = String::new();
            ln.append("CODE_LINE=");
            let ls = crate::text::u64_to_string(l as u64);
            ln.append(ls.as_str());
            out.push(ln);
        },
        None => {},
    }
    match file {
        Some(f) => {
            let mut fl = String::new();
            fl.append("CODE_FILE=");
            fl.append(f);
            out.push(fl);
        },
        None => {},
    }
    match code_module {
        Some(m) => {
            let mut md = String::new();
            md.append("CODE_FUNC=");
            md.append(m);
            out.push(md);
        },
        None => {},
    }
    out
}

} // verus!
