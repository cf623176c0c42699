//! Notes and their addressing in the backing key-value store.
//!
//! A note belongs to exactly one user. In the store, a note lives under a key
//! built from the owner's username and the note's numeric id; the key scheme
//! is injective, so one user's notes can never be returned for another user's
//! lookup.

use vstd::prelude::*;
use vstd::string::StringExecFns;
use crate::decimal::dec_digits;
use crate::decimal::lemma_dec_digits_are_digits;
use crate::decimal::lemma_dec_digits_injective;
use crate::decimal::lemma_dec_digits_nonempty;
use crate::decimal::push_dec;

verus! {

/// One note: a numeric id (creation order, unique per user) and a markup body.
#[derive(Debug, Clone, PartialEq, Eq)]
pub struct Note {
    pub id: u64,
    pub body: String,
}

/// The store key under which a note of `username` with number `id` lives:
/// `note:<id>:<username>`. The id's digits contain no `:`, so the key
/// determines both parts (see `lemma_note_key_injective`).
pub open spec fn spec_note_key(username: Seq<char>, id: u64) -> Seq<char> {
    "note:"@ + dec_digits(id as nat) + ":"@ + username
}

/// Build the store key for one note of one user.
pub fn note_key(username: &str, id: u64) -> (k: String)
    ensures
        k@ == spec_note_key(username@, id),
{
    let mut k = "note:".to_owned();
    push_dec(id, &mut k);
    k.append(":");
    k.append(username);
    proof {
        assert("note:"@ + dec_digits(id as nat) + ":"@ + username@ =~= k@);
    }
    k
}

/// Note keys are injective: equal keys come from the same user and the same
/// note number. This is what guarantees that a lookup scoped to one username
/// can never hit a note of a different user.
pub proof fn lemma_note_key_injective(u1: Seq<char>, i1: u64, u2: Seq<char>, i2: u64)
    requires
        spec_note_key(u1, i1) == spec_note_key(u2, i2),
    ensures
        u1 == u2,
        i1 == i2,
{
    let d1 = dec_digits(i1 as nat);
    let d2 = dec_digits(i2 as nat);
    let k1 = spec_note_key(u1, i1);
    let k2 = spec_note_key(u2, i2);
    let p: int = "note:"@.len() as int;
    lemma_dec_digits_nonempty(i1 as nat);
    lemma_dec_digits_nonempty(i2 as nat);
    lemma_dec_digits_are_digits(i1 as nat);
    lemma_dec_digits_are_digits(i2 as nat);
    reveal_strlit("note:");
    reveal_strlit(":");
    // The shorter digit run cannot end where the other still has a digit: at
    // the end of the shorter run the key holds ':', which is not a digit.
    if d1.len() < d2.len() {
        assert(k1[p + d1.len()] == ':');
        assert(k2[p + d1.len()] == d2[d1.len() as int]);
        assert(false);
    } else if d2.len() < d1.len() {
        assert(k2[p + d2.len()] == ':');
        assert(k1[p + d2.len()] == d1[d2.len() as int]);
        assert(false);
    }
    assert(d1 =~= d2) by {
        assert forall|j: int| 0 <= j < d1.len() implies #[trigger] d1[j] == d2[j] by {
            assert(d1[j] == k1[p + j]);
            assert(d2[j] == k2[p + j]);
        }
    }
    lemma_dec_digits_injective(i1 as nat, i2 as nat);
    assert(u1 =~= u2) by {
        assert(k1.len() == p + d1.len() + 1 + u1.len());
        assert(k2.len() == p + d2.len() + 1 + u2.len());
        assert(u1.len() == u2.len());
        assert forall|j: int| 0 <= j < u1.len() implies #[trigger] u1[j] == u2[j] by {
            assert(u1[j] == k1[p + d1.len() + 1 + j]);
            assert(u2[j] == k2[p + d2.len() + 1 + j]);
        }
    }
}

/// Why a note operation could not be carried out: the addressed note does not
/// exist for this user.
#[derive(Clone, Copy, Debug, PartialEq, Eq, Structural)]
pub enum NoteError {
    NotFound,
}

/// Find the position of the note with this id, if any.
fn find_note(notes: &Vec<Note>, id: u64) -> (r: Option<usize>)
    ensures
        match r {
            Some(i) => i < notes@.len() && notes@[i as int].id == id,
            None => forall|j: int| 0 <= j < notes@.len() ==> notes@[j].id != id,
        },
{
    let mut i: usize = 0;
    while i < notes.len()
        invariant
            i <= notes@.len(),
            forall|j: int| 0 <= j < i ==> notes@[j].id != id,
        decreases notes@.len() - i,
    {
        if notes[i].id == id {
            return Some(i);
        }
        i = i + 1;
    }
    None
}

/// The note collection of one user, ordered by creation. The caller must have
/// established this username through a successful verification; no
/// re-verification happens here.
#[derive(Debug, Clone, PartialEq, Eq)]
pub struct UserNotes {
    pub username: String,
    pub notes: Vec<Note>,
    pub next_id: u64,
}

impl UserNotes {
    /// Note ids are strictly increasing in stored order — so listing is
    /// deterministic and ids are unique — and every id is below the next one
    /// to be issued.
    pub open spec fn wf(self) -> bool {
        &&& forall|i: int, j: int|
            #![trigger self.notes@[i], self.notes@[j]]
            0 <= i < j < self.notes@.len() ==> self.notes@[i].id < self.notes@[j].id
        &&& forall|i: int| 0 <= i < self.notes@.len() ==> #[trigger] self.notes@[i].id
            < self.next_id
    }

    /// An empty collection for a (verified) username.
    pub fn new(username: String) -> (s: UserNotes)
        ensures
            s.wf(),
            s.username@ == username@,
            s.notes@.len() == 0,
            s.next_id == 0,
    {
        UserNotes { username, notes: Vec::new(), next_id: 0 }
    }

    /// The user's notes, in creation order.
    pub fn list(&self) -> (r: &Vec<Note>)
        ensures
            r@ == self.notes@,
    {
        &self.notes
    }

    /// Create a note: it gets the next id, keeps the order strictly
    /// increasing, and is returned together with the store key it must be
    /// written under.
    pub fn create(&mut self, body: String) -> (r: (Note, String))
        requires
            old(self).wf(),
            old(self).next_id < u64::MAX,
        ensures
            final(self).wf(),
            final(self).username@ == old(self).username@,
            final(self).next_id == old(self).next_id + 1,
            final(self).notes@.len() == old(self).notes@.len() + 1,
            forall|i: int|
                0 <= i < old(self).notes@.len() ==> final(self).notes@[i] == old(self).notes@[i],
            final(self).notes@.last().id == old(self).next_id,
            final(self).notes@.last().body@ == body@,
            r.0.id == old(self).next_id,
            r.0.body@ == body@,
            r.1@ == spec_note_key(old(self).username@, old(self).next_id),
    {
        let id = self.next_id;
        let stored = Note { id, body: body.clone() };
        let key = note_key(self.username.as_str(), id);
        self.notes.push(stored);
        self.next_id = self.next_id + 1;
        proof {
            assert forall|i: int, j: int|
                #![trigger self.notes@[i], self.notes@[j]]
                0 <= i < j < self.notes@.len() implies self.notes@[i].id < self.notes@[j].id by {
                if j < self.notes@.len() - 1 {
                    assert(old(self).notes@[i].id < old(self).notes@[j].id);
                } else {
                    assert(self.notes@[i].id == old(self).notes@[i].id);
                }
            }
        }
        (Note { id, body }, key)
    }

    /// Replace the body of the note with this id. On success the returned
    /// store key says where the new body must be written; a missing id
    /// changes nothing and reports `NotFound`.
    pub fn update(&mut self, id: u64, body: String) -> (r: Result<String, NoteError>)
        requires
            old(self).wf(),
        ensures
            final(self).wf(),
            final(self).username@ == old(self).username@,
            final(self).next_id == old(self).next_id,
            final(self).notes@.len() == old(self).notes@.len(),
            r is Ok <==> (exists|i: int|
                0 <= i < old(self).notes@.len() && old(self).notes@[i].id == id),
            forall|j: int|
                0 <= j < old(self).notes@.len() && old(self).notes@[j].id != id ==> final(self).notes@[j] == old(self).notes@[j],
            forall|j: int|
                0 <= j < old(self).notes@.len() && old(self).notes@[j].id == id ==> final(self).notes@[j].id == id && final(self).notes@[j].body@ == body@,
            r matches Ok(k) ==> k@ == spec_note_key(old(self).username@, id),
            r is Err ==> final(self).notes@ == old(self).notes@ && r matches Err(
                NoteError::NotFound,
            ),
    {
        match find_note(&self.notes, id) {
            Some(i) => {
                let fresh = Note { id, body };
                let ghost gfresh = fresh;
                self.notes.remove(i);
                self.notes.insert(i, fresh);
                proof {
                    assert(self.notes@ =~= old(self).notes@.update(i as int, gfresh));
                }
                Ok(note_key(self.username.as_str(), id))
            },
            None => Err(NoteError::NotFound),
        }
    }

    /// Remove the note with this id. On success the returned store key says
    /// which record must be deleted; a missing id changes nothing and reports
    /// `NotFound`.
    pub fn delete(&mut self, id: u64) -> (r: Result<String, NoteError>)
        requires
            old(self).wf(),
        ensures
            final(self).wf(),
            final(self).username@ == old(self).username@,
            final(self).next_id == old(self).next_id,
            r is Ok <==> (exists|i: int|
                0 <= i < old(self).notes@.len() && old(self).notes@[i].id == id),
            r is Ok ==> (exists|i: int|
                0 <= i < old(self).notes@.len() && old(self).notes@[i].id == id && final(self).notes@ == old(self).notes@.remove(i)),
            r matches Ok(k) ==> k@ == spec_note_key(old(self).username@, id),
            r is Err ==> final(self).notes@ == old(self).notes@ && r matches Err(
                NoteError::NotFound,
            ),
    {
        match find_note(&self.notes, id) {
            Some(i) => {
                self.notes.remove(i);
                proof {
                    assert(old(self).notes@[i as int].id == id && self.notes@ == old(
                        self,
                    ).notes@.remove(i as int));
                    assert forall|a: int, b: int|
                        #![trigger self.notes@[a], self.notes@[b]]
                        0 <= a < b < self.notes@.len() implies self.notes@[a].id
                        < self.notes@[b].id by {
                        let a0 = if a < i as int { a } else { a + 1 };
                        let b0 = if b < i as int { b } else { b + 1 };
                        assert(self.notes@[a] == old(self).notes@[a0]);
                        assert(self.notes@[b] == old(self).notes@[b0]);
                    }
                    assert forall|a: int| 0 <= a < self.notes@.len() implies #[trigger] self.notes@[a].id
                        < self.next_id by {
                        let a0 = if a < i as int { a } else { a + 1 };
                        assert(self.notes@[a] == old(self).notes@[a0]);
                    }
                }
                Ok(note_key(self.username.as_str(), id))
            },
            None => Err(NoteError::NotFound),
        }
    }
}

} // verus!
