//! Per-publisher sequencing state: a cursor records where a publisher
//! stands in its own message sequence, and a table maps each known
//! publisher's public key to its current cursor.

use vstd::prelude::*;

use crate::link::{bytes_eq, clone_bytes, Address, AddressView};

verus! {

/// The mathematical content of a `Cursor`.
pub ghost struct CursorView {
    pub link: AddressView,
    pub seq_no: u64,
}

/// A publisher's position in its own message sequence: the address of its
/// latest message and the sequence number that message carries.
pub struct Cursor {
    /// Address of the publisher's latest message.
    pub link: Address,
    /// Sequence number of that message.
    pub seq_no: u64,
}

impl View for Cursor {
    type V = CursorView;

    open spec fn view(&self) -> CursorView {
        CursorView { link: self.link@, seq_no: self.seq_no }
    }
}

impl Cursor {
    /// Record a position from an address and a sequence number.
    pub fn new(link: Address, seq_no: u64) -> (r: Cursor)
        ensures
            r@.link == link@,
            r@.seq_no == seq_no,
    {
        Cursor { link, seq_no }
    }

    /// Move to the next position: replace the address and increment the
    /// sequence number.
    pub fn advance(&mut self, new_link: Address)
        requires
            old(self).seq_no < u64::MAX,
        ensures
            final(self)@.link == new_link@,
            final(self)@.seq_no == old(self)@.seq_no + 1,
    {
        self.link = new_link;
        self.seq_no = self.seq_no + 1;
    }
}

impl Clone for Cursor {
    /// A cursor equal to this one, independently owned.
    fn clone(&self) -> (r: Self)
        ensures
            r@ == self@,
    {
        Cursor { link: self.link.clone(), seq_no: self.seq_no }
    }
}

/// First-match lookup over an entry list: the cursor recorded under key
/// `k`, if any.
pub open spec fn lookup(s: Seq<(Vec<u8>, Cursor)>, k: Seq<u8>) -> Option<CursorView>
    decreases s.len(),
{
    if s.len() == 0 {
        None
    } else if s[0].0@ == k {
        Some(s[0].1@)
    } else {
        lookup(s.drop_first(), k)
    }
}

/// A lookup walks past every entry whose key differs from `k`.
proof fn lemma_lookup_skip(s: Seq<(Vec<u8>, Cursor)>, k: Seq<u8>, i: nat)
    requires
        i <= s.len(),
        forall|j: int| 0 <= j < i ==> (#[trigger] s[j]).0@ != k,
    ensures
        lookup(s, k) == lookup(s.skip(i as int), k),
    decreases i,
{
    if i == 0 {
        assert(s.skip(0) =~= s);
    } else {
        assert(s[0].0@ != k);
        assert forall|j: int| 0 <= j < i - 1 implies (#[trigger] s.drop_first()[j]).0@ != k by {
            assert(s[j + 1].0@ != k);
        }
        lemma_lookup_skip(s.drop_first(), k, (i - 1) as nat);
        assert(s.drop_first().skip(i - 1) =~= s.skip(i as int));
    }
}

/// Lookups agree on two entry lists that can differ only in entries whose
/// key, on both sides, is not the one looked up.
proof fn lemma_lookup_agree(s0: Seq<(Vec<u8>, Cursor)>, s1: Seq<(Vec<u8>, Cursor)>, k: Seq<u8>)
    requires
        s0.len() == s1.len(),
        forall|j: int|
            0 <= j < s0.len() ==> (#[trigger] s0[j]) == (#[trigger] s1[j]) || (s0[j].0@ != k
                && s1[j].0@ != k),
    ensures
        lookup(s0, k) == lookup(s1, k),
    decreases s0.len(),
{
    if s0.len() > 0 {
        assert forall|j: int|
            0 <= j < s0.drop_first().len() implies (#[trigger] s0.drop_first()[j]) == (
        #[trigger] s1.drop_first()[j]) || (s0.drop_first()[j].0@ != k && s1.drop_first()[j].0@
            != k) by {
            assert(s0[j + 1] == s1[j + 1] || (s0[j + 1].0@ != k && s1[j + 1].0@ != k));
        }
        lemma_lookup_agree(s0.drop_first(), s1.drop_first(), k);
    }
}

/// Appending an entry under a different key leaves a lookup unchanged.
proof fn lemma_lookup_push(s: Seq<(Vec<u8>, Cursor)>, e: (Vec<u8>, Cursor), k: Seq<u8>)
    requires
        e.0@ != k,
    ensures
        lookup(s.push(e), k) == lookup(s, k),
    decreases s.len(),
{
    if s.len() == 0 {
        assert(s.push(e)[0] == e);
        assert(s.push(e).drop_first() =~= Seq::<(Vec<u8>, Cursor)>::empty());
        assert(lookup(Seq::<(Vec<u8>, Cursor)>::empty(), k) is None);
    } else {
        assert(s.push(e)[0] == s[0]);
        assert(s.push(e).drop_first() =~= s.drop_first().push(e));
        lemma_lookup_push(s.drop_first(), e, k);
    }
}

/// The next-message-id table: one cursor per known publisher public key.
/// Keys are unique; entries are updated in place and the table never
/// shrinks within a session.
pub struct CursorTable {
    entries: Vec<(Vec<u8>, Cursor)>,
}

impl CursorTable {
    /// The entry list, as the contracts see it.
    pub closed spec fn entries(self) -> Seq<(Vec<u8>, Cursor)> {
        self.entries@
    }

    /// The cursor recorded for public key `k`, if any.
    pub open spec fn cursor_for(self, k: Seq<u8>) -> Option<CursorView> {
        lookup(self.entries(), k)
    }

    /// Invariant: no public key occurs twice.
    pub open spec fn wf(self) -> bool {
        forall|i: int, j: int|
            0 <= i < j < self.entries().len() ==> (#[trigger] self.entries()[i]).0@ != (
            #[trigger] self.entries()[j]).0@
    }

    /// An empty table: no publisher is known yet.
    pub fn new() -> (r: CursorTable)
        ensures
            r.wf(),
            r.entries().len() == 0,
    {
        CursorTable { entries: Vec::new() }
    }

    /// How many publishers the table knows.
    pub fn len(&self) -> (r: usize)
        ensures
            r == self.entries().len(),
    {
        self.entries.len()
    }

    /// Position of the first entry for `pk`, if the table has one.
    fn find(&self, pk: &Vec<u8>) -> (r: Option<usize>)
        ensures
            r is Some ==> r->0 < self.entries().len() && self.entries()[r->0 as int].0@ == pk@
                && forall|j: int| 0 <= j < r->0 ==> (#[trigger] self.entries()[j]).0@ != pk@,
            r is None ==> forall|j: int|
                0 <= j < self.entries().len() ==> (#[trigger] self.entries()[j]).0@ != pk@,
    {
        let n = self.entries.len();
        let mut i: usize = 0;
        while i < n
            invariant
                i <= n,
                n == self.entries@.len(),
                forall|j: int| 0 <= j < i ==> (#[trigger] self.entries@[j]).0@ != pk@,
            decreases n - i,
        {
            if bytes_eq(&self.entries[i].0, pk) {
                return Some(i);
            }
            i += 1;
        }
        None
    }

    /// The cursor recorded for `pk`, as an owned copy.
    pub fn get(&self, pk: &Vec<u8>) -> (r: Option<Cursor>)
        ensures
            (r is Some) == (self.cursor_for(pk@) is Some),
            r is Some ==> r->0@ == self.cursor_for(pk@)->0,
    {
        match self.find(pk) {
            Some(i) => {
                proof {
                    lemma_lookup_skip(self.entries@, pk@, i as nat);
                    assert(self.entries@.skip(i as int)[0] == self.entries@[i as int]);
                }
                Some(self.entries[i].1.clone())
            },
            None => {
                proof {
                    lemma_lookup_skip(self.entries@, pk@, self.entries@.len());
                    assert(self.entries@.skip(self.entries@.len() as int) =~= Seq::<(
                        Vec<u8>,
                        Cursor,
                    )>::empty());
                }
                None
            },
        }
    }

    /// Record `c` under `pk`: update the existing entry in place, or add
    /// a newly discovered publisher. Every other publisher's cursor is
    /// untouched, and the table never loses an entry.
    pub fn insert(&mut self, pk: Vec<u8>, c: Cursor)
        requires
            old(self).wf(),
        ensures
            final(self).wf(),
            final(self).cursor_for(pk@) == Some(c@),
            forall|k: Seq<u8>| k != pk@ ==> final(self).cursor_for(k) == old(self).cursor_for(k),
            old(self).cursor_for(pk@) is Some ==> final(self).entries().len() == old(
                self,
            ).entries().len(),
            old(self).cursor_for(pk@) is None ==> final(self).entries().len() == old(
                self,
            ).entries().len() + 1,
    {
        let ghost s0 = self.entries@;
        match self.find(&pk) {
            Some(i) => {
                proof {
                    lemma_lookup_skip(s0, pk@, i as nat);
                    assert(s0.skip(i as int)[0] == s0[i as int]);
                }
                self.entries.set(i, (pk, c));
                proof {
                    let s1 = self.entries@;
                    let ghost pkv = s1[i as int].0@;
                    lemma_lookup_skip(s1, pkv, i as nat);
                    assert(s1.skip(i as int)[0] == s1[i as int]);
                    assert(lookup(s1, pkv) == Some(c@));
                    assert forall|k: Seq<u8>| k != pkv implies lookup(s1, k) == lookup(s0, k) by {
                        lemma_lookup_agree(s0, s1, k);
                    }
                }
            },
            None => {
                proof {
                    lemma_lookup_skip(s0, pk@, s0.len());
                    assert(s0.skip(s0.len() as int) =~= Seq::<(Vec<u8>, Cursor)>::empty());
                    assert(lookup(s0, pk@) is None);
                }
                self.entries.push((pk, c));
                proof {
                    let s1 = self.entries@;
                    let ghost pkv = s1[s1.len() - 1].0@;
                    lemma_lookup_skip(s1, pkv, (s1.len() - 1) as nat);
                    assert(s1.skip(s1.len() - 1)[0] == s1[s1.len() - 1]);
                    assert(lookup(s1, pkv) == Some(c@));
                    assert forall|k: Seq<u8>| k != pkv implies lookup(s1, k) == lookup(s0, k) by {
                        assert(s1 =~= s0.push(s1[s1.len() - 1]));
                        lemma_lookup_push(s0, s1[s1.len() - 1], k);
                    }
                }
            },
        }
    }
}

impl CursorTable {
    /// Advance the cursor of `pk` to the address of its newest message,
    /// stepping the sequence number. Reports whether it advanced: an
    /// unknown publisher, or one whose sequence number has no successor,
    /// leaves the table unchanged. Two successful advances for one key can
    /// therefore never end on the same sequence number.
    pub fn advance(&mut self, pk: Vec<u8>, new_link: Address) -> (advanced: bool)
        requires
            old(self).wf(),
        ensures
            final(self).wf(),
            advanced == (old(self).cursor_for(pk@) is Some && old(self).cursor_for(pk@)->0.seq_no
                < u64::MAX),
            advanced ==> final(self).cursor_for(pk@) == Some(
                (CursorView {
                    link: new_link@,
                    seq_no: (old(self).cursor_for(pk@)->0.seq_no + 1) as u64,
                }),
            ),
            !advanced ==> *final(self) == *old(self),
            forall|k: Seq<u8>| k != pk@ ==> final(self).cursor_for(k) == old(self).cursor_for(k),
            final(self).entries().len() == old(self).entries().len(),
    {
        match self.get(&pk) {
            Some(mut c) => {
                if c.seq_no < u64::MAX {
                    c.advance(new_link);
                    self.insert(pk, c);
                    true
                } else {
                    false
                }
            },
            None => false,
        }
    }
}

/// A pair list seen through the views of its parts.
pub open spec fn pairs_view(q: Seq<(Vec<u8>, Cursor)>) -> Seq<(Seq<u8>, CursorView)> {
    q.map_values(|p: (Vec<u8>, Cursor)| (p.0@, p.1@))
}

/// The snapshot `next_message_ids` returns: for each known publisher that
/// has a recorded cursor, in the order the caller lists them, the pair of
/// its public key and that cursor.
pub open spec fn snapshot_spec(known: Seq<Vec<u8>>, s: Seq<(Vec<u8>, Cursor)>) -> Seq<
    (Seq<u8>, CursorView),
>
    decreases known.len(),
{
    if known.len() == 0 {
        Seq::empty()
    } else {
        let rest = snapshot_spec(known.drop_first(), s);
        if lookup(s, known[0]@) is Some {
            seq![(known[0]@, lookup(s, known[0]@)->0)] + rest
        } else {
            rest
        }
    }
}

/// Rebuild the "next message ids" snapshot for every known publisher with
/// a recorded cursor. The result is an output snapshot, not a live view:
/// later cursor movement leaves it unchanged.
pub fn next_message_ids(known: &Vec<Vec<u8>>, table: &CursorTable) -> (r: Vec<(Vec<u8>, Cursor)>)
    ensures
        pairs_view(r@) == snapshot_spec(known@, table.entries()),
{
    let n = known.len();
    let mut r: Vec<(Vec<u8>, Cursor)> = Vec::new();
    proof {
        assert(known@.skip(0) =~= known@);
        assert(pairs_view(r@) + snapshot_spec(known@, table.entries()) =~= snapshot_spec(
            known@,
            table.entries(),
        ));
    }
    let mut i: usize = 0;
    while i < n
        invariant
            i <= n,
            n == known@.len(),
            pairs_view(r@) + snapshot_spec(known@.skip(i as int), table.entries())
                == snapshot_spec(known@, table.entries()),
        decreases n - i,
    {
        let ghost r_before = r@;
        match table.get(&known[i]) {
            Some(c) => {
                r.push((clone_bytes(&known[i]), c));
                proof {
                    assert(pairs_view(r@) =~= pairs_view(r_before) + seq![
                        (known@[i as int]@, lookup(table.entries(), known@[i as int]@)->0),
                    ]);
                }
            },
            None => {},
        }
        proof {
            assert(known@.skip(i as int)[0] == known@[i as int]);
            assert(known@.skip(i as int).drop_first() =~= known@.skip(i + 1));
            assert(pairs_view(r_before) + (seq![
                (known@[i as int]@, lookup(table.entries(), known@[i as int]@)->0),
            ] + snapshot_spec(known@.skip(i + 1), table.entries())) =~= (pairs_view(r_before)
                + seq![(known@[i as int]@, lookup(table.entries(), known@[i as int]@)->0)])
                + snapshot_spec(known@.skip(i + 1), table.entries()));
        }
        i += 1;
    }
    proof {
        assert(known@.skip(n as int) =~= Seq::<Vec<u8>>::empty());
        assert(pairs_view(r@) + Seq::<(Seq<u8>, CursorView)>::empty() =~= pairs_view(r@));
    }
    r
}

} // verus!
