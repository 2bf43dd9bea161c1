//! Identities shared by every component, and the two fixed-size sets built
//! over them.

use vstd::prelude::*;

verus! {

/// Cluster-wide number of a server.
pub type ServerID = u64;

/// Kind of peer this node makes itself known to before it starts working.
#[derive(Clone, Copy, Debug, PartialEq, Eq, Hash, Structural)]
pub enum ServerType {
    Storage,
    Handler,
}

impl ServerType {
    pub open spec fn spec_bit(self) -> usize {
        match self {
            ServerType::Storage => 1,
            ServerType::Handler => 2,
        }
    }

    /// The mask with only this type's bit set.
    pub fn bit(self) -> (b: usize)
        ensures
            b == self.spec_bit(),
    {
        match self {
            ServerType::Storage => 1,
            ServerType::Handler => 2,
        }
    }
}

/// One of the node's two long-lived threads.
#[derive(Clone, Copy, Debug, PartialEq, Eq, Hash, Structural)]
pub enum ThreadSource {
    IpcListener,
    Handler,
}

impl ThreadSource {
    pub open spec fn spec_bit(self) -> usize {
        match self {
            ThreadSource::IpcListener => 1,
            ThreadSource::Handler => 2,
        }
    }

    /// The mask with only this thread's bit set.
    pub fn bit(self) -> (b: usize)
        ensures
            b == self.spec_bit(),
    {
        match self {
            ThreadSource::IpcListener => 1,
            ThreadSource::Handler => 2,
        }
    }

    pub open spec fn text(self) -> Seq<char> {
        match self {
            ThreadSource::IpcListener => "IPC Listener"@,
            ThreadSource::Handler => "Handler"@,
        }
    }

    /// The thread's name as it appears in messages.
    pub fn to_string(&self) -> (s: String)
        ensures
            s@ == self.text(),
    {
        match self {
            ThreadSource::IpcListener => "IPC Listener".to_owned(),
            ThreadSource::Handler => "Handler".to_owned(),
        }
    }
}

/// Identity of one connection: a slot and the generation number that tells
/// successive users of the slot apart.
#[derive(Clone, Copy, Debug, PartialEq, Eq, Hash, Structural)]
pub struct ConnectionID {
    pub slot_index: usize,
    pub unique_id: usize,
}

impl ConnectionID {
    pub fn new(slot_index: usize, unique_id: usize) -> (id: ConnectionID)
        ensures
            id.slot_index == slot_index,
            id.unique_id == unique_id,
    {
        ConnectionID { slot_index, unique_id }
    }
}

/// What a look into a thread's inbox gave.
#[derive(Clone, Debug, PartialEq, Eq)]
pub enum Received<T> {
    Command(T),
    /// Nothing was there (only where the thread did not wait).
    Empty,
    /// Nobody is left who could put anything in.
    Disconnected,
}

/// How a thread looks into its inbox.
#[derive(Clone, Copy, Debug, PartialEq, Eq, Structural)]
pub enum ReceiveMode {
    /// Wait until something is there.
    Block,
    /// Take what is there and go on.
    Poll,
}

/// How a meeting of the two threads ends for the one that waited.
#[derive(Clone, Copy, Debug, PartialEq, Eq, Structural)]
pub enum Meeting {
    /// The other thread has said its word.
    Met,
    /// The other thread has given up or is gone: there is nothing more to
    /// wait for.
    Alone,
}

/// No server type is a member.
pub open spec fn no_server_type(types: Set<ServerType>) -> bool {
    !types.contains(ServerType::Storage) && !types.contains(ServerType::Handler)
}

/// Every thread is a member.
pub open spec fn every_thread(threads: Set<ThreadSource>) -> bool {
    threads.contains(ThreadSource::IpcListener) && threads.contains(ThreadSource::Handler)
}

proof fn lemma_two_bit_masks(bits: usize)
    by (bit_vector)
    ensures
        bits & !3usize == 0 ==> (bits == 0 || bits == 1 || bits == 2 || bits == 3),
        (bits & !1usize) & 1usize == 0,
        (bits & !2usize) & 2usize == 0,
        (bits & !1usize) & 2usize == bits & 2usize,
        (bits & !2usize) & 1usize == bits & 1usize,
        (bits | 1usize) & 1usize == 1,
        (bits | 2usize) & 2usize == 2,
        (bits | 1usize) & 2usize == bits & 2usize,
        (bits | 2usize) & 1usize == bits & 1usize,
        bits & !3usize == 0 ==> (bits & !1usize) & !3usize == 0,
        bits & !3usize == 0 ==> (bits & !2usize) & !3usize == 0,
        bits & !3usize == 0 ==> (bits | 1usize) & !3usize == 0,
        bits & !3usize == 0 ==> (bits | 2usize) & !3usize == 0,
        bits & 1usize == 0 || bits & 1usize == 1,
        bits & 2usize == 0 || bits & 2usize == 2,
        0usize & !3usize == 0,
        3usize & !3usize == 0,
        3usize & 1usize == 1,
        3usize & 2usize == 2,
        0usize & 1usize == 0,
        0usize & 2usize == 0,
        (bits & !3usize == 0 && bits & 1usize == 0 && bits & 2usize == 0) ==> bits == 0,
        (bits & !3usize == 0 && bits & 1usize == 1 && bits & 2usize == 2) ==> bits == 3,
{
}

/// A set of server types, one bit per type.
#[derive(Clone, Copy, Debug, PartialEq, Eq, Hash, Structural)]
pub struct ServerTypeSet {
    bits: usize,
}

impl View for ServerTypeSet {
    type V = Set<ServerType>;

    closed spec fn view(&self) -> Set<ServerType> {
        Set::new(|t: ServerType| self.bits & t.spec_bit() != 0)
    }
}

impl ServerTypeSet {
    #[verifier::type_invariant]
    spec fn in_range(self) -> bool {
        self.bits & !3usize == 0
    }

    /// The set without members.
    pub fn empty() -> (s: ServerTypeSet)
        ensures
            s@ == Set::<ServerType>::empty(),
    {
        proof {
            lemma_two_bit_masks(0);
        }
        let s = ServerTypeSet { bits: 0 };
        s
    }

    /// The set of every server type.
    pub fn all() -> (s: ServerTypeSet)
        ensures
            s@ == Set::<ServerType>::full(),
    {
        proof {
            lemma_two_bit_masks(3);
        }
        let s = ServerTypeSet { bits: 3 };
        s
    }

    pub fn contains(&self, server_type: ServerType) -> (b: bool)
        ensures
            b == self@.contains(server_type),
    {
        self.bits & server_type.bit() != 0
    }

    pub fn insert(self, server_type: ServerType) -> (s: ServerTypeSet)
        ensures
            s@ == self@.insert(server_type),
    {
        proof {
            use_type_invariant(&self);
            lemma_two_bit_masks(self.bits);
        }
        let s = ServerTypeSet { bits: self.bits | server_type.bit() };
        s
    }

    pub fn remove(self, server_type: ServerType) -> (s: ServerTypeSet)
        ensures
            s@ == self@.remove(server_type),
    {
        proof {
            use_type_invariant(&self);
            lemma_two_bit_masks(self.bits);
        }
        let s = ServerTypeSet { bits: self.bits & !server_type.bit() };
        s
    }

    pub fn is_empty(&self) -> (b: bool)
        ensures
            b == no_server_type(self@),
    {
        proof {
            use_type_invariant(self);
            lemma_two_bit_masks(self.bits);
        }
        self.bits == 0
    }

    /// The members as a bit mask: bit 0 for storages, bit 1 for handlers.
    pub fn bits(&self) -> (bits: usize)
        ensures
            bits <= 3,
            (bits & 1 != 0) == self@.contains(ServerType::Storage),
            (bits & 2 != 0) == self@.contains(ServerType::Handler),
    {
        proof {
            use_type_invariant(self);
            lemma_two_bit_masks(self.bits);
        }
        self.bits
    }
}

/// A set of threads, one bit per thread.
#[derive(Clone, Copy, Debug, PartialEq, Eq, Hash, Structural)]
pub struct ThreadSet {
    bits: usize,
}

impl View for ThreadSet {
    type V = Set<ThreadSource>;

    closed spec fn view(&self) -> Set<ThreadSource> {
        Set::new(|t: ThreadSource| self.bits & t.spec_bit() != 0)
    }
}

impl ThreadSet {
    #[verifier::type_invariant]
    spec fn in_range(self) -> bool {
        self.bits & !3usize == 0
    }

    /// The set without members.
    pub fn empty() -> (s: ThreadSet)
        ensures
            s@ == Set::<ThreadSource>::empty(),
    {
        proof {
            lemma_two_bit_masks(0);
        }
        let s = ThreadSet { bits: 0 };
        s
    }

    pub fn contains(&self, thread: ThreadSource) -> (b: bool)
        ensures
            b == self@.contains(thread),
    {
        self.bits & thread.bit() != 0
    }

    pub fn insert(self, thread: ThreadSource) -> (s: ThreadSet)
        ensures
            s@ == self@.insert(thread),
    {
        proof {
            use_type_invariant(&self);
            lemma_two_bit_masks(self.bits);
        }
        let s = ThreadSet { bits: self.bits | thread.bit() };
        s
    }

    /// Whether every thread is a member.
    pub fn is_full(&self) -> (b: bool)
        ensures
            b == every_thread(self@),
    {
        proof {
            use_type_invariant(self);
            lemma_two_bit_masks(self.bits);
        }
        self.bits == 3
    }
}

} // verus!
