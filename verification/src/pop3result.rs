//! What the replies of a server are decoded into.

use std::collections::HashMap;
use vstd::hash_map::StringHashMap;
use vstd::prelude::*;

verus! {

/// One line of a scan listing: a message and its size in octets.
#[derive(Debug, Clone, Copy, PartialEq, Eq, Structural)]
pub struct EmailMetadata {
    pub msg_id: u32,
    pub msg_size: u32,
}

/// The statistics of a mailbox.
#[derive(Debug, Clone, Copy, PartialEq, Eq, Structural)]
pub struct POP3Stat {
    /// The size of the mailbox in octets.
    pub mbox_size: u32,
    /// The number of messages in the mailbox.
    pub num_mails: u32,
}

/// A scan listing: the messages of a mailbox in the order in which the
/// server listed them.
#[derive(Debug, Clone, PartialEq, Eq)]
pub struct POP3List {
    pub mailbox: Vec<EmailMetadata>,
}

/// The text of a retrieved message.
#[derive(Debug, Clone, PartialEq, Eq)]
pub struct POP3Retr {
    pub msg_data: String,
}

/// A unique-id listing, to be read in both directions.
pub struct POP3Uidl {
    /// From a message number to the unique-id of that message.
    pub mailbox: HashMap<u32, String>,
    /// From a unique-id to the number of the message that has it. This is
    /// the standard hash map keyed by `String`, in the wrapper under which
    /// its keys are known by their text.
    pub reverse_map: StringHashMap<u32>,
}

impl View for POP3List {
    type V = Seq<EmailMetadata>;

    open spec fn view(&self) -> Seq<EmailMetadata> {
        self.mailbox@
    }
}

impl View for POP3Retr {
    type V = Seq<char>;

    open spec fn view(&self) -> Seq<char> {
        self.msg_data@
    }
}

impl View for POP3Uidl {
    type V = Map<u32, Seq<char>>;

    /// The listing as a map from message numbers to unique-ids.
    open spec fn view(&self) -> Map<u32, Seq<char>> {
        self.mailbox@.map_values(|uid: String| uid@)
    }
}

/// `back` reads `forth` in the other direction: it holds exactly the pairs
/// of `forth`, turned round.
pub open spec fn inverse_of(back: Map<Seq<char>, u32>, forth: Map<u32, Seq<char>>) -> bool {
    &&& forall|n: u32| #[trigger]
        forth.contains_key(n) ==> back.contains_key(forth[n]) && back[forth[n]] == n
    &&& forall|uid: Seq<char>| #[trigger]
        back.contains_key(uid) ==> forth.contains_key(back[uid]) && forth[back[uid]] == uid
}

impl POP3Uidl {
    /// The two maps agree: each is the other turned round. It follows that
    /// no two messages share a unique-id.
    pub open spec fn wf(&self) -> bool {
        inverse_of(self.reverse_map@, self@)
    }

    /// The unique-id of a message, if the listing holds the message.
    pub fn uid_of(&self, msg_id: u32) -> (r: Option<&String>)
        ensures
            match r {
                Some(uid) => self@.contains_key(msg_id) && self@[msg_id] == uid@,
                None => !self@.contains_key(msg_id),
            },
    {
        broadcast use vstd::std_specs::hash::group_hash_axioms;

        let r = self.mailbox.get(&msg_id);
        proof {
            if self.mailbox@.contains_key(msg_id) {
                assert(self@[msg_id] == self.mailbox@[msg_id]@);
            }
        }
        r
    }

    /// The number of the message that has a unique-id, if the listing holds
    /// the unique-id.
    pub fn msg_id_of(&self, uid: &str) -> (r: Option<u32>)
        ensures
            match r {
                Some(n) => self.reverse_map@.contains_key(uid@) && self.reverse_map@[uid@] == n,
                None => !self.reverse_map@.contains_key(uid@),
            },
            self.wf() ==> match r {
                Some(n) => self@.contains_key(n) && self@[n] == uid@,
                None => forall|n: u32| self@.contains_key(n) ==> self@[n] != uid@,
            },
    {
        match self.reverse_map.get(uid) {
            Some(n) => Some(*n),
            None => None,
        }
    }
}

} // verus!
