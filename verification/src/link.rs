//! Message addressing: the two-part identifier that locates a message on
//! the transport, and the link pair that ties a message to its sequencing
//! anchor.

use vstd::prelude::*;

use crate::error::StreamsError;

verus! {

/// Length in bytes of a channel instance identifier.
pub const APPINST_SIZE: usize = 40;

/// Length in bytes of a per-message identifier.
pub const MSGID_SIZE: usize = 12;

/// The mathematical content of an `Address`: the two identifier byte
/// sequences.
pub ghost struct AddressView {
    pub appinst: Seq<u8>,
    pub msgid: Seq<u8>,
}

impl AddressView {
    /// Both identifiers have their fixed lengths.
    pub open spec fn wf(self) -> bool {
        self.appinst.len() == APPINST_SIZE && self.msgid.len() == MSGID_SIZE
    }
}

/// The transport key under which a message is stored: the channel instance
/// identifier plus the per-message identifier. Equality is structural over
/// the pair.
pub struct Address {
    /// Channel instance identifier, immutable once the channel exists.
    pub appinst: Vec<u8>,
    /// Identifier of one message within the channel.
    pub msgid: Vec<u8>,
}

impl View for Address {
    type V = AddressView;

    open spec fn view(&self) -> AddressView {
        AddressView { appinst: self.appinst@, msgid: self.msgid@ }
    }
}

impl Address {
    /// Both identifiers have their fixed lengths.
    pub open spec fn wf(self) -> bool {
        self@.wf()
    }

    /// Build an address from its two identifiers.
    pub fn new(appinst: Vec<u8>, msgid: Vec<u8>) -> (r: Address)
        requires
            appinst@.len() == APPINST_SIZE,
            msgid@.len() == MSGID_SIZE,
        ensures
            r.wf(),
            r@.appinst == appinst@,
            r@.msgid == msgid@,
    {
        Address { appinst, msgid }
    }
}

impl Clone for Address {
    /// An address equal to this one, independently owned.
    fn clone(&self) -> (r: Self)
        ensures
            r@ == self@,
    {
        Address { appinst: clone_bytes(&self.appinst), msgid: clone_bytes(&self.msgid) }
    }
}

/// The pair (primary message address, optional sequencing address). The
/// sequencing slot is filled only in branching mode, where sequencing
/// metadata lives in a separate linked message.
pub struct MessageLinks {
    /// Address of the message itself.
    pub msg_link: Address,
    /// Address of the separate sequencing message, when one exists.
    pub seq_link: Option<Address>,
}

impl MessageLinks {
    /// Pair a message address with an optional sequencing address.
    pub fn new(msg_link: Address, seq_link: Option<Address>) -> (r: MessageLinks)
        ensures
            r.msg_link == msg_link,
            r.seq_link == seq_link,
    {
        MessageLinks { msg_link, seq_link }
    }

    /// Resolve the sequencing anchor. Single-branch channels reuse the
    /// primary address whether or not a distinct sequencing address was
    /// set; branching channels require the distinct address, and its
    /// absence is a caller error surfaced as `MissingSequencingLink`.
    pub fn into_seq_link(self, branching: bool) -> (r: Result<Address, StreamsError>)
        ensures
            !branching ==> r is Ok && r->Ok_0 == self.msg_link,
            branching && self.seq_link is Some ==> r is Ok && r->Ok_0 == self.seq_link->0,
            branching && self.seq_link is None ==> r is Err && r->Err_0
                == StreamsError::MissingSequencingLink,
    {
        if !branching {
            Ok(self.msg_link)
        } else {
            match self.seq_link {
                Some(s) => Ok(s),
                None => Err(StreamsError::MissingSequencingLink),
            }
        }
    }
}

/// A byte buffer equal to `v`, independently owned.
pub(crate) fn clone_bytes(v: &Vec<u8>) -> (r: Vec<u8>)
    ensures
        r@ == v@,
{
    let n = v.len();
    let mut r: Vec<u8> = Vec::new();
    let mut i: usize = 0;
    while i < n
        invariant
            i <= n,
            n == v@.len(),
            r@.len() == i,
            forall|j: int| 0 <= j < i ==> r@[j] == v@[j],
        decreases n - i,
    {
        r.push(v[i]);
        i += 1;
    }
    proof {
        assert(r@ =~= v@);
    }
    r
}

/// Whether two byte buffers hold the same bytes.
pub(crate) fn bytes_eq(a: &Vec<u8>, b: &Vec<u8>) -> (r: bool)
    ensures
        r == (a@ == b@),
{
    if a.len() != b.len() {
        return false;
    }
    let n = a.len();
    let mut i: usize = 0;
    while i < n
        invariant
            i <= n,
            n == a@.len(),
            n == b@.len(),
            forall|j: int| 0 <= j < i ==> a@[j] == b@[j],
        decreases n - i,
    {
        if a[i] != b[i] {
            return false;
        }
        i += 1;
    }
    proof {
        assert(a@ =~= b@);
    }
    true
}

} // verus!
