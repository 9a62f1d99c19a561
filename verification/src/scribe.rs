//! Writing recorded data to files.
//!
//! A single worker owns every output file. Writers send it messages: a writer made with
//! `with_file` appends everything it writes to one file; a writer made with `with_files` writes
//! each packet to a new file whose name is a pattern with `{}` replaced by the packet's index
//! (counting from 1). The worker decides what happens to the files and queues it as actions,
//! which the program carries out.
use vstd::prelude::*;
use std::marker::PhantomData;
use std::collections::{HashMap, HashSet};
use crate::text::{replace, decimal, chars_of, replace_chars, decimal_chars, string_from_chars};

verus! {

broadcast use vstd::std_specs::hash::group_hash_axioms;

/// Identifier that the worker gives to an open file or a registered pattern.
#[derive(Copy, Clone, Debug, PartialEq, Eq, Hash, Structural)]
pub struct Handle(pub usize);

impl Handle {
    /// The handle before the first one that is handed out.
    pub fn new() -> (r: Handle)
        ensures
            r.0 == 0,
    {
        Handle(0)
    }

    /// The handle after this one.
    pub fn next(self) -> (r: Handle)
        requires
            self.0 < usize::MAX,
        ensures
            r.0 == self.0 + 1,
    {
        Handle(self.0 + 1)
    }
}

/// Messages that writers send to the worker.
pub enum Message {
    /// Create a file with this name and keep it open.
    Open(String),
    /// Close an open file.
    Close(Handle),
    /// Append data to an open file.
    Write(Handle, Vec<u8>),
    /// Register a file-name pattern.
    Register(String),
    /// Forget a pattern.
    Unregister(Handle),
    /// Write a packet to the next file of a pattern.
    Packet(Handle, Vec<u8>),
    /// Skip packet indices of a pattern as if a packet had been written.
    Decoy(Handle),
    /// Set the index of the next packet of a pattern.
    SetIndex(Handle, usize),
}

/// What the worker does to the file system.
#[derive(Debug, PartialEq, Eq)]
pub enum ScribeAction {
    /// Create the named file and keep it open under the handle.
    Create(Handle, String),
    /// Append data to the file open under the handle.
    Append(Handle, Vec<u8>),
    /// Close the file open under the handle.
    Close(Handle),
    /// Create the named file holding the data.
    WriteFile(String, Vec<u8>),
}

/// Model of an action.
pub enum ActionView {
    Create(usize, Seq<char>),
    Append(usize, Seq<u8>),
    Close(usize),
    WriteFile(Seq<char>, Seq<u8>),
}

impl View for ScribeAction {
    type V = ActionView;

    open spec fn view(&self) -> ActionView {
        match self {
            ScribeAction::Create(h, s) => ActionView::Create(h.0, s@),
            ScribeAction::Append(h, d) => ActionView::Append(h.0, d@),
            ScribeAction::Close(h) => ActionView::Close(h.0),
            ScribeAction::WriteFile(s, d) => ActionView::WriteFile(s@, d@),
        }
    }
}

/// The name of the file that packet `index` of `pattern` goes to.
pub open spec fn packet_file(pattern: Seq<char>, index: nat) -> Seq<char> {
    replace(pattern, "{}"@, decimal(index))
}

/// The worker that owns the output files.
pub struct Worker {
    max_file: Handle,
    max_pattern: Handle,
    files: HashSet<usize>,
    patterns: HashMap<usize, (String, usize)>,
    actions: Vec<ScribeAction>,
}

/// Model of the worker.
pub struct WorkerView {
    /// The last file handle handed out.
    pub max_file: nat,
    /// The last pattern handle handed out.
    pub max_pattern: nat,
    /// The handles of the open files.
    pub files: Set<usize>,
    /// Each registered pattern with the index of its next packet.
    pub patterns: Map<usize, (Seq<char>, nat)>,
    /// The actions decided on and not yet carried out.
    pub actions: Seq<ActionView>,
}

/// The model of a pattern entry: the pattern and the index of its next packet.
pub open spec fn pattern_entry(e: (String, usize)) -> (Seq<char>, nat) {
    (e.0@, e.1 as nat)
}

impl View for Worker {
    type V = WorkerView;

    closed spec fn view(&self) -> WorkerView {
        WorkerView {
            max_file: self.max_file.0 as nat,
            max_pattern: self.max_pattern.0 as nat,
            files: self.files@,
            patterns: self.patterns@.map_values(|e: (String, usize)| pattern_entry(e)),
            actions: self.actions@.map_values(|a: ScribeAction| a@),
        }
    }
}

impl Worker {
    /// Well-formedness: every handle in use has been handed out.
    pub closed spec fn wf(&self) -> bool {
        &&& forall|k: usize| #[trigger] self.files@.contains(k) ==> 1 <= k <= self.max_file.0
        &&& forall|k: usize| #[trigger] self.patterns@.contains_key(k) ==> 1 <= k <= self.max_pattern.0
    }

    /// A worker with no files and no patterns.
    pub fn new() -> (r: Worker)
        ensures
            r.wf(),
            r@.max_file == 0,
            r@.max_pattern == 0,
            r@.files == Set::<usize>::empty(),
            r@.patterns == Map::<usize, (Seq<char>, nat)>::empty(),
            r@.actions == Seq::<ActionView>::empty(),
    {
        let r = Worker {
            max_file: Handle::new(),
            max_pattern: Handle::new(),
            files: HashSet::new(),
            patterns: HashMap::new(),
            actions: Vec::new(),
        };
        assert(r@.patterns =~= Map::<usize, (Seq<char>, nat)>::empty());
        assert(r@.actions =~= Seq::<ActionView>::empty());
        r
    }
}



/// Model of a message.
pub enum MessageView {
    Open(Seq<char>),
    Close(usize),
    Write(usize, Seq<u8>),
    Register(Seq<char>),
    Unregister(usize),
    Packet(usize, Seq<u8>),
    Decoy(usize),
    SetIndex(usize, usize),
}

impl View for Message {
    type V = MessageView;

    open spec fn view(&self) -> MessageView {
        match self {
            Message::Open(s) => MessageView::Open(s@),
            Message::Close(h) => MessageView::Close(h.0),
            Message::Write(h, d) => MessageView::Write(h.0, d@),
            Message::Register(s) => MessageView::Register(s@),
            Message::Unregister(h) => MessageView::Unregister(h.0),
            Message::Packet(h, d) => MessageView::Packet(h.0, d@),
            Message::Decoy(h) => MessageView::Decoy(h.0),
            Message::SetIndex(h, i) => MessageView::SetIndex(h.0, *i),
        }
    }
}

/// Whether the worker can handle a message: data goes only to open files and registered
/// patterns, and no counter runs past `usize::MAX`.
pub open spec fn accepts(w: WorkerView, m: MessageView) -> bool {
    match m {
        MessageView::Open(_) => w.max_file < usize::MAX,
        MessageView::Register(_) => w.max_pattern < usize::MAX,
        MessageView::Write(h, _) => w.files.contains(h),
        MessageView::Packet(h, _) => w.patterns.contains_key(h) && w.patterns[h].1 < usize::MAX,
        MessageView::Decoy(h) => w.patterns.contains_key(h) && w.patterns[h].1 + 2 <= usize::MAX,
        _ => true,
    }
}

/// The worker after handling a message.
pub open spec fn step(w: WorkerView, m: MessageView) -> WorkerView {
    match m {
        MessageView::Open(name) => WorkerView {
            max_file: w.max_file + 1,
            files: w.files.insert((w.max_file + 1) as usize),
            actions: w.actions.push(ActionView::Create((w.max_file + 1) as usize, name)),
            ..w
        },
        MessageView::Close(h) => if w.files.contains(h) {
            WorkerView { files: w.files.remove(h), actions: w.actions.push(ActionView::Close(h)), ..w }
        } else {
            w
        },
        MessageView::Write(h, d) => WorkerView { actions: w.actions.push(ActionView::Append(h, d)), ..w },
        MessageView::Register(p) => WorkerView {
            max_pattern: w.max_pattern + 1,
            patterns: w.patterns.insert((w.max_pattern + 1) as usize, (p, 1)),
            ..w
        },
        MessageView::Unregister(h) => WorkerView { patterns: w.patterns.remove(h), ..w },
        MessageView::Packet(h, d) => WorkerView {
            patterns: w.patterns.insert(h, (w.patterns[h].0, w.patterns[h].1 + 1)),
            actions: w.actions.push(ActionView::WriteFile(packet_file(w.patterns[h].0, w.patterns[h].1), d)),
            ..w
        },
        MessageView::Decoy(h) => WorkerView {
            patterns: w.patterns.insert(h, (w.patterns[h].0, w.patterns[h].1 + 2)),
            ..w
        },
        MessageView::SetIndex(h, i) => if w.patterns.contains_key(h) {
            WorkerView { patterns: w.patterns.insert(h, (w.patterns[h].0, i as nat)), ..w }
        } else {
            w
        },
    }
}

/// The handle that the worker answers a message with.
pub open spec fn reply(w: WorkerView, m: MessageView) -> Option<usize> {
    match m {
        MessageView::Open(_) => Some((w.max_file + 1) as usize),
        MessageView::Register(_) => Some((w.max_pattern + 1) as usize),
        _ => None,
    }
}

impl Worker {
    /// Sets the pattern and the next packet index registered under a handle.
    fn set_pattern(&mut self, h: usize, pattern: String, index: usize)
        requires
            old(self).wf(),
            old(self).patterns@.contains_key(h),
        ensures
            final(self).wf(),
            final(self)@ == (WorkerView {
                patterns: old(self)@.patterns.insert(h, (pattern@, index as nat)),
                ..old(self)@
            }),
    {
        let ghost w = self@;
        self.patterns.insert(h, (pattern, index));
        assert(self@.patterns =~= w.patterns.insert(h, (pattern@, index as nat)));
    }

    /// The file name for packet `index` of a pattern.
    fn packet_name(pattern: &String, index: usize) -> (r: String)
        ensures
            r@ == packet_file(pattern@, index as nat),
    {
        let p = chars_of(pattern.as_str());
        let from = chars_of("{}");
        proof {
            reveal_strlit("{}");
        }
        let n = replace_chars(&p, &from, &decimal_chars(index as u64));
        string_from_chars(&n)
    }

    /// Queues an action.
    fn queue(&mut self, a: ScribeAction)
        ensures
            final(self).max_file == old(self).max_file,
            final(self).max_pattern == old(self).max_pattern,
            final(self).files == old(self).files,
            final(self).patterns == old(self).patterns,
            final(self)@.actions == old(self)@.actions.push(a@),
    {
        let ghost acts = self@.actions;
        let ghost av = a@;
        self.actions.push(a);
        assert(self@.actions =~= acts.push(av));
    }

    /// Whether the worker can handle the message (see `accepts`).
    pub fn accepts(&self, m: &Message) -> (r: bool)
        requires
            self.wf(),
        ensures
            r == accepts(self@, m@),
    {
        match m {
            Message::Open(_) => self.max_file.0 < usize::MAX,
            Message::Register(_) => self.max_pattern.0 < usize::MAX,
            Message::Write(h, _) => self.files.contains(&h.0),
            Message::Packet(h, _) => match self.patterns.get(&h.0) {
                Some(e) => e.1 < usize::MAX,
                None => false,
            },
            Message::Decoy(h) => match self.patterns.get(&h.0) {
                Some(e) => e.1 <= usize::MAX - 2,
                None => false,
            },
            _ => true,
        }
    }

    /// Handles one message, queueing what it does to the files; answers `Open` and `Register`
    /// with the new handle.
    pub fn handle(&mut self, m: Message) -> (r: Option<Handle>)
        requires
            old(self).wf(),
            accepts(old(self)@, m@),
        ensures
            final(self).wf(),
            final(self)@ == step(old(self)@, m@),
            match reply(old(self)@, m@) {
                Some(h) => r == Some(Handle(h)),
                None => r is None,
            },
    {
        let ghost w = self@;
        match m {
            Message::Open(name) => {
                let h = self.max_file.next();
                self.max_file = h;
                self.files.insert(h.0);
                self.queue(ScribeAction::Create(h, name));
                Some(h)
            },
            Message::Close(h) => {
                if self.files.remove(&h.0) {
                    self.queue(ScribeAction::Close(h));
                } else {
                    assert(self@.files =~= w.files);
                }
                None
            },
            Message::Write(h, data) => {
                self.queue(ScribeAction::Append(h, data));
                None
            },
            Message::Register(pattern) => {
                let h = self.max_pattern.next();
                self.max_pattern = h;
                let ghost pv = pattern@;
                self.patterns.insert(h.0, (pattern, 1));
                assert(self@.patterns =~= w.patterns.insert(h.0, (pv, 1)));
                Some(h)
            },
            Message::Unregister(h) => {
                self.patterns.remove(&h.0);
                assert(self@.patterns =~= w.patterns.remove(h.0));
                None
            },
            Message::Packet(h, data) => {
                let (pattern, index) = match self.patterns.get(&h.0) {
                    Some(e) => (e.0.clone(), e.1),
                    None => {
                        return None;
                    },
                };
                let name = Worker::packet_name(&pattern, index);
                self.queue(ScribeAction::WriteFile(name, data));
                self.set_pattern(h.0, pattern, index + 1);
                None
            },
            Message::Decoy(h) => {
                let (pattern, index) = match self.patterns.get(&h.0) {
                    Some(e) => (e.0.clone(), e.1),
                    None => {
                        return None;
                    },
                };
                self.set_pattern(h.0, pattern, index + 2);
                None
            },
            Message::SetIndex(h, index) => {
                match self.patterns.get(&h.0) {
                    Some(e) => {
                        let pattern = e.0.clone();
                        self.set_pattern(h.0, pattern, index);
                    },
                    None => {
                        assert(self@ == w);
                    },
                }
                None
            },
        }
    }
}

impl Worker {
    /// Hands over the queued actions, in the order they were decided on.
    pub fn take_actions(&mut self) -> (r: Vec<ScribeAction>)
        requires
            old(self).wf(),
        ensures
            final(self).wf(),
            r@.map_values(|a: ScribeAction| a@) == old(self)@.actions,
            final(self)@ == (WorkerView { actions: Seq::<ActionView>::empty(), ..old(self)@ }),
    {
        let mut r: Vec<ScribeAction> = Vec::new();
        std::mem::swap(&mut r, &mut self.actions);
        assert(self@.actions =~= Seq::<ActionView>::empty());
        r
    }

    /// How many writes of data are queued and not yet handed over to be carried out.
    pub fn pending(&self) -> (r: usize)
        ensures
            r == data_writes(self@.actions),
    {
        let ghost acts = self@.actions;
        let mut n: usize = 0;
        let mut i: usize = 0;
        while i < self.actions.len()
            invariant
                i <= self.actions.len(),
                acts == self@.actions,
                n == data_writes(acts.take(i as int)),
                n <= i,
            decreases self.actions.len() - i,
        {
            assert(acts.take(i + 1).drop_last() =~= acts.take(i as int));
            assert(acts[i as int] == self.actions@[i as int]@);
            match &self.actions[i] {
                ScribeAction::Append(..) | ScribeAction::WriteFile(..) => {
                    n = n + 1;
                },
                _ => {},
            }
            i = i + 1;
        }
        assert(acts.take(i as int) =~= acts);
        n
    }
}

/// Whether an action writes data.
pub open spec fn writes_data(a: ActionView) -> bool {
    a is Append || a is WriteFile
}

/// How many of the actions write data.
pub open spec fn data_writes(acts: Seq<ActionView>) -> nat
    decreases acts.len(),
{
    if acts.len() == 0 {
        0
    } else {
        data_writes(acts.drop_last()) + if writes_data(acts.last()) { 1nat } else { 0nat }
    }
}

/// Each write of data that the worker handles adds one to the writes not yet carried out, and
/// no other message changes their number; handing the actions over leaves none.
pub proof fn law_pending_writes(w: WorkerView, m: MessageView)
    ensures
        data_writes(step(w, m).actions) == data_writes(w.actions) + if m is Write || m is Packet { 1nat } else { 0nat },
        data_writes(Seq::<ActionView>::empty()) == 0,
{
    match m {
        MessageView::Open(name) => {
            let a = ActionView::Create((w.max_file + 1) as usize, name);
            assert(w.actions.push(a).drop_last() =~= w.actions);
        },
        MessageView::Close(h) => {
            assert(w.actions.push(ActionView::Close(h)).drop_last() =~= w.actions);
        },
        MessageView::Write(h, d) => {
            assert(w.actions.push(ActionView::Append(h, d)).drop_last() =~= w.actions);
        },
        MessageView::Packet(h, d) => {
            let a = ActionView::WriteFile(packet_file(w.patterns[h].0, w.patterns[h].1), d);
            assert(w.actions.push(a).drop_last() =~= w.actions);
        },
        _ => {},
    }
}

/// A type whose values are written as their raw bytes.
pub trait Writable {
    /// The bytes that stand for the value.
    spec fn bytes(&self) -> Seq<u8>;

    /// The bytes that stand for the value, to write.
    fn to_bytes(&self) -> (r: Vec<u8>)
        ensures
            r@ == self.bytes();
}

/// Raw bytes are written as they are.
impl Writable for Vec<u8> {
    open spec fn bytes(&self) -> Seq<u8> {
        self@
    }

    fn to_bytes(&self) -> (r: Vec<u8>) {
        let r = self.clone();
        assert(r@ =~= self@);
        r
    }
}

/// Where a writer's data goes.
#[derive(Copy, Clone, Debug, PartialEq, Eq, Structural)]
enum Destination {
    /// Appended to one file.
    Name,
    /// Each packet to a new file named by a pattern.
    Pattern,
}

/// Helper for writing a sequence of packets into a file or files.
pub struct Writer<T: ?Sized> {
    handle: Handle,
    dst: Destination,
    _ghost: PhantomData<T>,
}

impl<T: ?Sized> Writer<T> {
    /// The handle that the worker gave this writer.
    pub closed spec fn handle_id(&self) -> usize {
        self.handle.0
    }

    /// Whether this writer writes each packet to a new file.
    pub closed spec fn to_pattern(&self) -> bool {
        self.dst == Destination::Pattern
    }

    /// A writer that creates the file `name` and appends what it writes to it.
    pub fn with_file(worker: &mut Worker, name: String) -> (r: Writer<T>)
        requires
            old(worker).wf(),
            old(worker)@.max_file < usize::MAX,
        ensures
            final(worker).wf(),
            final(worker)@ == step(old(worker)@, MessageView::Open(name@)),
            r.handle_id() == old(worker)@.max_file + 1,
            !r.to_pattern(),
    {
        let h = worker.handle(Message::Open(name)).unwrap();
        Writer { handle: h, dst: Destination::Name, _ghost: PhantomData }
    }

    /// A writer that writes each packet to a new file named by `pattern`, with `{}` replaced by
    /// the packet's index.
    pub fn with_files(worker: &mut Worker, pattern: String) -> (r: Writer<T>)
        requires
            old(worker).wf(),
            old(worker)@.max_pattern < usize::MAX,
        ensures
            final(worker).wf(),
            final(worker)@ == step(old(worker)@, MessageView::Register(pattern@)),
            r.handle_id() == old(worker)@.max_pattern + 1,
            r.to_pattern(),
    {
        let h = worker.handle(Message::Register(pattern)).unwrap();
        Writer { handle: h, dst: Destination::Pattern, _ghost: PhantomData }
    }

    /// Sets the index of the next packet (a writer to one file ignores this).
    pub fn set_index(&mut self, worker: &mut Worker, index: usize)
        requires
            old(worker).wf(),
        ensures
            final(worker).wf(),
            *final(self) == *old(self),
            old(self).to_pattern() ==> final(worker)@ == step(old(worker)@, MessageView::SetIndex(old(self).handle_id(), index)),
            !old(self).to_pattern() ==> final(worker)@ == old(worker)@,
    {
        if self.dst == Destination::Pattern {
            worker.handle(Message::SetIndex(self.handle, index));
        }
    }

    /// Skips packet indices as if a packet had been written (a writer to one file ignores this).
    pub fn decoy(&mut self, worker: &mut Worker)
        requires
            old(worker).wf(),
            old(self).to_pattern() ==> accepts(old(worker)@, MessageView::Decoy(old(self).handle_id())),
        ensures
            final(worker).wf(),
            *final(self) == *old(self),
            old(self).to_pattern() ==> final(worker)@ == step(old(worker)@, MessageView::Decoy(old(self).handle_id())),
            !old(self).to_pattern() ==> final(worker)@ == old(worker)@,
    {
        if self.dst == Destination::Pattern {
            worker.handle(Message::Decoy(self.handle));
        }
    }

    /// Writes raw bytes: appended to the file, or as the next packet of the pattern.
    pub fn write_bytes(&mut self, worker: &mut Worker, data: Vec<u8>)
        requires
            old(worker).wf(),
            !old(self).to_pattern() ==> accepts(old(worker)@, MessageView::Write(old(self).handle_id(), data@)),
            old(self).to_pattern() ==> accepts(old(worker)@, MessageView::Packet(old(self).handle_id(), data@)),
        ensures
            final(worker).wf(),
            *final(self) == *old(self),
            !old(self).to_pattern() ==> final(worker)@ == step(old(worker)@, MessageView::Write(old(self).handle_id(), data@)),
            old(self).to_pattern() ==> final(worker)@ == step(old(worker)@, MessageView::Packet(old(self).handle_id(), data@)),
    {
        if self.dst == Destination::Pattern {
            worker.handle(Message::Packet(self.handle, data));
        } else {
            worker.handle(Message::Write(self.handle, data));
        }
    }

    /// Finishes writing: the file is closed, or the pattern forgotten.
    pub fn close(self, worker: &mut Worker)
        requires
            old(worker).wf(),
        ensures
            final(worker).wf(),
            !self.to_pattern() ==> final(worker)@ == step(old(worker)@, MessageView::Close(self.handle_id())),
            self.to_pattern() ==> final(worker)@ == step(old(worker)@, MessageView::Unregister(self.handle_id())),
    {
        if self.dst == Destination::Pattern {
            worker.handle(Message::Unregister(self.handle));
        } else {
            worker.handle(Message::Close(self.handle));
        }
    }
}

impl<T: Writable + ?Sized> Writer<T> {
    /// Writes a value as its raw bytes.
    pub fn write(&mut self, worker: &mut Worker, data: &T)
        requires
            old(worker).wf(),
            !old(self).to_pattern() ==> old(worker)@.files.contains(old(self).handle_id()),
            old(self).to_pattern() ==> old(worker)@.patterns.contains_key(old(self).handle_id())
                && old(worker)@.patterns[old(self).handle_id()].1 < usize::MAX,
        ensures
            final(worker).wf(),
            *final(self) == *old(self),
            !old(self).to_pattern() ==> final(worker)@ == step(old(worker)@, MessageView::Write(old(self).handle_id(), data.bytes())),
            old(self).to_pattern() ==> final(worker)@ == step(old(worker)@, MessageView::Packet(old(self).handle_id(), data.bytes())),
    {
        let bytes = data.to_bytes();
        self.write_bytes(worker, bytes);
    }
}


/// The worker after handling a packet of pattern `h` for each data in turn.
pub open spec fn packets(w: WorkerView, h: usize, data: Seq<Seq<u8>>) -> WorkerView
    decreases data.len(),
{
    if data.len() == 0 {
        w
    } else {
        step(packets(w, h, data.drop_last()), MessageView::Packet(h, data.last()))
    }
}

/// Packets of a pattern go to consecutive files, starting from the pattern's next index, and
/// the index moves past them.
pub proof fn lemma_packet_numbering(w: WorkerView, h: usize, data: Seq<Seq<u8>>)
    requires
        w.patterns.contains_key(h),
    ensures
        packets(w, h, data).patterns == w.patterns.insert(h, (w.patterns[h].0, w.patterns[h].1 + data.len())),
        packets(w, h, data).actions == w.actions + Seq::new(
            data.len(),
            |k: int| ActionView::WriteFile(packet_file(w.patterns[h].0, (w.patterns[h].1 + k) as nat), data[k]),
        ),
        packets(w, h, data).files == w.files,
    decreases data.len(),
{
    if data.len() == 0 {
        assert(w.patterns.insert(h, (w.patterns[h].0, w.patterns[h].1)) =~= w.patterns);
        assert(w.actions + Seq::new(0, |k: int| ActionView::WriteFile(packet_file(w.patterns[h].0, (w.patterns[h].1 + k) as nat), data[k])) =~= w.actions);
    } else {
        lemma_packet_numbering(w, h, data.drop_last());
        let prev = packets(w, h, data.drop_last());
        assert(prev.patterns[h] == (w.patterns[h].0, (w.patterns[h].1 + data.len() - 1) as nat));
        assert(packets(w, h, data).patterns =~= w.patterns.insert(h, (w.patterns[h].0, w.patterns[h].1 + data.len())));
        assert(packets(w, h, data).actions =~= w.actions + Seq::new(
            data.len(),
            |k: int| ActionView::WriteFile(packet_file(w.patterns[h].0, (w.patterns[h].1 + k) as nat), data[k]),
        ));
    }
}

/// A newly registered pattern numbers its packets from 1.
pub proof fn lemma_register_numbers_from_one(w: WorkerView, pattern: Seq<char>)
    ensures
        step(w, MessageView::Register(pattern)).patterns[(w.max_pattern + 1) as usize] == (pattern, 1nat),
{
}

/// A pattern writer creates no file when it is registered, and its `k`-th packet (counting from
/// 1) goes to the file named by the pattern with `k` in place of `{}`, holding that packet's
/// data.
pub proof fn law_pattern_files(w: WorkerView, pattern: Seq<char>, data: Seq<Seq<u8>>)
    ensures
        step(w, MessageView::Register(pattern)).actions == w.actions,
        packets(step(w, MessageView::Register(pattern)), (w.max_pattern + 1) as usize, data).actions == w.actions
            + Seq::new(data.len(), |k: int| ActionView::WriteFile(packet_file(pattern, (k + 1) as nat), data[k])),
{
    let w1 = step(w, MessageView::Register(pattern));
    let h = (w.max_pattern + 1) as usize;
    lemma_packet_numbering(w1, h, data);
    assert(w1.actions + Seq::new(
        data.len(),
        |k: int| ActionView::WriteFile(packet_file(w1.patterns[h].0, (w1.patterns[h].1 + k) as nat), data[k]),
    ) =~= w.actions + Seq::new(data.len(), |k: int| ActionView::WriteFile(packet_file(pattern, (k + 1) as nat), data[k])));
}

/// After a pattern's next index is set to `n`, its packets go to the files numbered `n`,
/// `n + 1` and so on, each holding its packet's data.
pub proof fn law_set_index_files(w: WorkerView, h: usize, n: usize, data: Seq<Seq<u8>>)
    requires
        w.patterns.contains_key(h),
    ensures
        step(w, MessageView::SetIndex(h, n)).actions == w.actions,
        packets(step(w, MessageView::SetIndex(h, n)), h, data).actions == w.actions + Seq::new(
            data.len(),
            |k: int| ActionView::WriteFile(packet_file(w.patterns[h].0, (n + k) as nat), data[k]),
        ),
{
    let w1 = step(w, MessageView::SetIndex(h, n));
    lemma_packet_numbering(w1, h, data);
    assert(w1.actions + Seq::new(
        data.len(),
        |k: int| ActionView::WriteFile(packet_file(w1.patterns[h].0, (w1.patterns[h].1 + k) as nat), data[k]),
    ) =~= w.actions + Seq::new(
        data.len(),
        |k: int| ActionView::WriteFile(packet_file(w.patterns[h].0, (n + k) as nat), data[k]),
    ));
}

/// A decoy creates no file and skips two packet numbers: the pattern's next packets go to the
/// files numbered two past where they would have gone, each holding its packet's data.
pub proof fn law_decoy_skips(w: WorkerView, h: usize, data: Seq<Seq<u8>>)
    requires
        w.patterns.contains_key(h),
    ensures
        step(w, MessageView::Decoy(h)).actions == w.actions,
        packets(step(w, MessageView::Decoy(h)), h, data).actions == w.actions + Seq::new(
            data.len(),
            |k: int| ActionView::WriteFile(packet_file(w.patterns[h].0, (w.patterns[h].1 + 2 + k) as nat), data[k]),
        ),
{
    let w1 = step(w, MessageView::Decoy(h));
    lemma_packet_numbering(w1, h, data);
    assert(w1.actions + Seq::new(
        data.len(),
        |k: int| ActionView::WriteFile(packet_file(w1.patterns[h].0, (w1.patterns[h].1 + k) as nat), data[k]),
    ) =~= w.actions + Seq::new(
        data.len(),
        |k: int| ActionView::WriteFile(packet_file(w.patterns[h].0, (w.patterns[h].1 + 2 + k) as nat), data[k]),
    ));
}

} // verus!
