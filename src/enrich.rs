use vstd::prelude::*;

use crate::error::TelecheckerError;
use crate::phone::{parses_as_phone_number, validate};
use crate::user::UserData;

verus! {

/// One entry of a contact-import request: the number, and its position in
/// the batch, which the service hands back as a correlation id.
#[derive(Debug, Clone, PartialEq, Eq)]
pub struct ImportEntry {
    pub client_id: i64,
    pub phone: String,
}

/// The address of a resolved user, as the contact-deletion call takes it.
#[derive(Debug, Clone, Copy, PartialEq, Eq)]
pub struct InputUser {
    pub user_id: i64,
    pub access_hash: i64,
}

/// A batch can be imported when every entry is a phone number and every
/// position fits a correlation id.
pub open spec fn batch_is_importable(numbers: Seq<String>) -> bool {
    &&& numbers.len() <= i64::MAX + 1
    &&& forall|i: int| 0 <= i < numbers.len() ==> parses_as_phone_number(#[trigger] numbers[i]@)
}

/// `entries` is the import request for `numbers`: one entry per number, in
/// order, keyed by position.
pub open spec fn entries_for(entries: Seq<ImportEntry>, numbers: Seq<String>) -> bool {
    &&& entries.len() == numbers.len()
    &&& forall|i: int|
        0 <= i < entries.len() ==> #[trigger] entries[i].client_id == i && entries[i].phone@
            == numbers[i]@
}

/// The users that the service resolved, in the order it returned them; an
/// unresolved placeholder contributes nothing.
pub open spec fn resolved(imported: Seq<Option<UserData>>) -> Seq<UserData>
    decreases imported.len(),
{
    if imported.len() == 0 {
        Seq::empty()
    } else {
        let rest = resolved(imported.drop_last());
        match imported.last() {
            Some(u) => rest.push(u),
            None => rest,
        }
    }
}

/// The deletion addresses of `users`: one for each user with an access hash,
/// in order.
pub open spec fn addresses(users: Seq<UserData>) -> Seq<InputUser>
    decreases users.len(),
{
    if users.len() == 0 {
        Seq::empty()
    } else {
        let rest = addresses(users.drop_last());
        match users.last().access_hash {
            Some(h) => rest.push(InputUser { user_id: users.last().id, access_hash: h }),
            None => rest,
        }
    }
}

/// Builds the contact-import request for a batch of phone numbers. Any entry
/// that is not a phone number fails the whole batch.
pub fn import_entries(numbers: &Vec<String>) -> (r: Result<Vec<ImportEntry>, TelecheckerError>)
    ensures
        r is Ok <==> batch_is_importable(numbers@),
        r is Ok ==> entries_for(r->Ok_0@, numbers@),
        r is Err ==> r->Err_0 == TelecheckerError::MalformedBatch,
{
    let mut entries: Vec<ImportEntry> = Vec::new();
    let mut i: usize = 0;
    while i < numbers.len()
        invariant
            i <= numbers.len(),
            entries_for(entries@, numbers@.take(i as int)),
            forall|j: int| 0 <= j < i ==> parses_as_phone_number(#[trigger] numbers@[j]@),
            i <= i64::MAX + 1,
        decreases numbers.len() - i,
    {
        if i as u128 > i64::MAX as u128 {
            return Err(TelecheckerError::MalformedBatch);
        }
        if validate(numbers[i].as_str()).is_err() {
            return Err(TelecheckerError::MalformedBatch);
        }
        entries.push(ImportEntry { client_id: i as i64, phone: numbers[i].clone() });
        i = i + 1;
    }
    assert(numbers@.take(numbers.len() as int) =~= numbers@);
    Ok(entries)
}

/// Keeps the users that the service resolved and drops the unresolved
/// placeholders, preserving order.
pub fn resolved_users(imported: Vec<Option<UserData>>) -> (r: Vec<UserData>)
    ensures
        r@ == resolved(imported@),
{
    let ghost all = imported@;
    let mut users: Vec<UserData> = Vec::new();
    for item in it: imported.into_iter()
        invariant
            it.seq() == all,
            users@ == resolved(all.take(it.index() as int)),
    {
        proof {
            assert(all.take(it.index() + 1).drop_last() =~= all.take(it.index() as int));
        }
        match item {
            Some(u) => users.push(u),
            None => {},
        }
    }
    assert(all.take(all.len() as int) =~= all);
    users
}

/// The addresses to hand to the contact-deletion call: every user that
/// carries an access hash.
pub fn deletion_targets(users: &Vec<UserData>) -> (r: Vec<InputUser>)
    ensures
        r@ == addresses(users@),
{
    let mut targets: Vec<InputUser> = Vec::new();
    let mut i: usize = 0;
    while i < users.len()
        invariant
            i <= users.len(),
            targets@ == addresses(users@.take(i as int)),
        decreases users.len() - i,
    {
        proof {
            assert(users@.take(i + 1).drop_last() =~= users@.take(i as int));
        }
        match users[i].access_hash {
            Some(h) => targets.push(InputUser { user_id: users[i].id, access_hash: h }),
            None => {},
        }
        i = i + 1;
    }
    assert(users@.take(users.len() as int) =~= users@);
    targets
}

} // verus!

verus! {

/// Where a batch stands in the add / fetch / remove cycle.
#[derive(Debug, Clone, Copy, PartialEq, Eq, Structural)]
pub enum EnrichPhase {
    /// No batch in flight.
    Idle,
    /// The import request was handed out; its answer is awaited.
    Importing,
    /// The records are built; the removal of the added contacts is awaited.
    Deleting,
}

/// What the caller does next with the directory service.
#[derive(Debug, Clone, PartialEq, Eq)]
pub enum EnrichAction {
    /// Import these contacts and report the answer to `imported`.
    Import(Vec<ImportEntry>),
    /// Delete these contacts and report the answer to `deleted`.
    Delete(Vec<InputUser>),
    /// The batch is done: its records, and the failure of the clean-up call
    /// if there was one (the records stand either way).
    Finish(Vec<UserData>, Option<TelecheckerError>),
    /// The batch failed; nothing is returned for it.
    Fail(TelecheckerError),
}

/// Drives one batch at a time through import, record building and the
/// optional removal of the contacts that the import added.
pub struct BatchEnricher {
    remove_contacts: bool,
    phase: EnrichPhase,
    pending: Option<Vec<UserData>>,
}

impl Default for BatchEnricher {
    /// An idle enricher that removes the contacts it adds.
    fn default() -> (r: Self)
        ensures
            r.wf(),
            r.phase_of() == EnrichPhase::Idle,
            r.removes_contacts(),
    {
        BatchEnricher::new(true)
    }
}

impl BatchEnricher {
    /// Whether imported contacts are removed again after the lookup.
    pub closed spec fn removes_contacts(&self) -> bool {
        self.remove_contacts
    }

    /// The cycle's phase.
    pub closed spec fn phase_of(&self) -> EnrichPhase {
        self.phase
    }

    /// The records held back while the clean-up call is in flight.
    pub closed spec fn pending_of(&self) -> Option<Vec<UserData>> {
        self.pending
    }

    /// Records are held back exactly while the clean-up call is awaited.
    pub closed spec fn wf(&self) -> bool {
        (self.phase == EnrichPhase::Deleting) == (self.pending is Some)
    }

    /// An idle enricher.
    pub fn new(remove_contacts: bool) -> (r: BatchEnricher)
        ensures
            r.wf(),
            r.phase_of() == EnrichPhase::Idle,
            r.removes_contacts() == remove_contacts,
    {
        BatchEnricher { remove_contacts, phase: EnrichPhase::Idle, pending: None }
    }

    /// Whether imported contacts are removed again after the lookup.
    pub fn remove_contacts(&self) -> (r: bool)
        ensures
            r == self.removes_contacts(),
    {
        self.remove_contacts
    }

    /// The current phase.
    pub fn phase(&self) -> (r: EnrichPhase)
        ensures
            r == self.phase_of(),
    {
        self.phase
    }

    /// Takes a new batch. A batch with any entry that is not a phone number
    /// fails at once, and no import is asked for.
    pub fn start(&mut self, numbers: &Vec<String>) -> (r: EnrichAction)
        requires
            old(self).wf(),
        ensures
            final(self).wf(),
            final(self).removes_contacts() == old(self).removes_contacts(),
            old(self).phase_of() != EnrichPhase::Idle ==> r == EnrichAction::Fail(
                TelecheckerError::UnexpectedEvent,
            ) && *final(self) == *old(self),
            old(self).phase_of() == EnrichPhase::Idle && !batch_is_importable(numbers@) ==> r
                == EnrichAction::Fail(TelecheckerError::MalformedBatch) && final(self).phase_of()
                == EnrichPhase::Idle,
            old(self).phase_of() == EnrichPhase::Idle && batch_is_importable(numbers@) ==> (r matches EnrichAction::Import(entries) && entries_for(entries@, numbers@))
                && final(self).phase_of() == EnrichPhase::Importing,
    {
        if self.phase != EnrichPhase::Idle {
            return EnrichAction::Fail(TelecheckerError::UnexpectedEvent);
        }
        match import_entries(numbers) {
            Ok(entries) => {
                self.phase = EnrichPhase::Importing;
                EnrichAction::Import(entries)
            },
            Err(e) => EnrichAction::Fail(e),
        }
    }

    /// Takes the service's answer to the import: the resolved users, or its
    /// failure message. Unresolved placeholders are dropped. When contacts are
    /// to be removed and some record carries an access hash, the records wait
    /// for the clean-up call; else the batch finishes here.
    pub fn imported(&mut self, outcome: Result<Vec<Option<UserData>>, String>) -> (r:
        EnrichAction)
        requires
            old(self).wf(),
        ensures
            final(self).wf(),
            final(self).removes_contacts() == old(self).removes_contacts(),
            old(self).phase_of() != EnrichPhase::Importing ==> r == EnrichAction::Fail(
                TelecheckerError::UnexpectedEvent,
            ) && *final(self) == *old(self),
            old(self).phase_of() == EnrichPhase::Importing && outcome is Err ==> r
                == EnrichAction::Fail(TelecheckerError::ServiceFailed(outcome->Err_0))
                && final(self).phase_of() == EnrichPhase::Idle,
            old(self).phase_of() == EnrichPhase::Importing && outcome is Ok ==> {
                let users = resolved(outcome->Ok_0@);
                if old(self).removes_contacts() && addresses(users).len() > 0 {
                    &&& r matches EnrichAction::Delete(targets) && targets@ == addresses(users)
                    &&& final(self).phase_of() == EnrichPhase::Deleting
                    &&& final(self).pending_of()->Some_0@ == users
                } else {
                    &&& r matches EnrichAction::Finish(records, warning) && records@ == users
                        && warning is None
                    &&& final(self).phase_of() == EnrichPhase::Idle
                }
            },
    {
        if self.phase != EnrichPhase::Importing {
            return EnrichAction::Fail(TelecheckerError::UnexpectedEvent);
        }
        self.phase = EnrichPhase::Idle;
        match outcome {
            Err(message) => EnrichAction::Fail(TelecheckerError::ServiceFailed(message)),
            Ok(imported) => {
                let users = resolved_users(imported);
                if self.remove_contacts {
                    let targets = deletion_targets(&users);
                    if targets.len() > 0 {
                        self.phase = EnrichPhase::Deleting;
                        self.pending = Some(users);
                        return EnrichAction::Delete(targets);
                    }
                }
                EnrichAction::Finish(users, None)
            },
        }
    }

    /// Takes the service's answer to the clean-up call and hands out the
    /// records. A failed clean-up is reported beside them and takes nothing
    /// back.
    pub fn deleted(&mut self, outcome: Result<(), String>) -> (r: EnrichAction)
        requires
            old(self).wf(),
        ensures
            final(self).wf(),
            final(self).removes_contacts() == old(self).removes_contacts(),
            old(self).phase_of() != EnrichPhase::Deleting ==> r == EnrichAction::Fail(
                TelecheckerError::UnexpectedEvent,
            ) && *final(self) == *old(self),
            old(self).phase_of() == EnrichPhase::Deleting ==> {
                &&& r matches EnrichAction::Finish(records, warning) && records
                    == old(self).pending_of()->Some_0 && (match outcome {
                    Ok(()) => warning is None,
                    Err(m) => warning == Some(TelecheckerError::DeletionFailed(m)),
                })
                &&& final(self).phase_of() == EnrichPhase::Idle
            },
    {
        if self.phase != EnrichPhase::Deleting {
            return EnrichAction::Fail(TelecheckerError::UnexpectedEvent);
        }
        self.phase = EnrichPhase::Idle;
        let records = match self.pending.take() {
            Some(users) => users,
            None => Vec::new(),
        };
        let warning = match outcome {
            Ok(()) => None,
            Err(m) => Some(TelecheckerError::DeletionFailed(m)),
        };
        EnrichAction::Finish(records, warning)
    }
}

} // verus!

verus! {

/// The ids of `users`.
pub open spec fn ids_of(users: Seq<UserData>) -> Set<i64> {
    Set::new(|id: i64| exists|i: int| 0 <= i < users.len() && #[trigger] users[i].id == id)
}

/// The ids that a deletion call on `targets` removes.
pub open spec fn target_ids(targets: Seq<InputUser>) -> Set<i64> {
    Set::new(|id: i64| exists|j: int| 0 <= j < targets.len() && #[trigger] targets[j].user_id == id)
}

/// A service's contact list after one cycle that added `users` and then
/// removed their deletion addresses.
pub open spec fn contacts_after_cycle(before: Set<i64>, users: Seq<UserData>) -> Set<i64> {
    before.union(ids_of(users)).difference(target_ids(addresses(users)))
}

/// A batch with one entry that is not a phone number cannot be imported, so
/// `start` fails it with `MalformedBatch` and asks for no import.
pub proof fn lemma_invalid_entry_rejects_batch(numbers: Seq<String>, k: int)
    requires
        0 <= k < numbers.len(),
        !parses_as_phone_number(numbers[k]@),
    ensures
        !batch_is_importable(numbers),
{
}

/// The deletion addresses are exactly the users that carry an access hash:
/// each address belongs to such a user, and each such user has its address.
pub proof fn lemma_addresses_are_the_addressable_users(users: Seq<UserData>)
    ensures
        forall|j: int|
            0 <= j < addresses(users).len() ==> exists|i: int|
                0 <= i < users.len() && users[i].id == (#[trigger] addresses(users)[j]).user_id
                    && users[i].access_hash == Some(addresses(users)[j].access_hash),
        forall|i: int|
            0 <= i < users.len() && (#[trigger] users[i]).access_hash is Some ==> exists|j: int|
                0 <= j < addresses(users).len() && addresses(users)[j] == (InputUser {
                    user_id: users[i].id,
                    access_hash: users[i].access_hash->Some_0,
                }),
    decreases users.len(),
{
    if users.len() > 0 {
        let init = users.drop_last();
        lemma_addresses_are_the_addressable_users(init);
        let rest = addresses(init);
        assert forall|j: int| 0 <= j < addresses(users).len() implies exists|i: int|
            0 <= i < users.len() && users[i].id == (#[trigger] addresses(users)[j]).user_id
                && users[i].access_hash == Some(addresses(users)[j].access_hash) by {
            if j < rest.len() {
                let i = choose|i: int|
                    0 <= i < init.len() && init[i].id == (#[trigger] rest[j]).user_id
                        && init[i].access_hash == Some(rest[j].access_hash);
                assert(users[i] == init[i]);
            } else {
                assert(users[users.len() - 1] == users.last());
            }
        }
        assert forall|i: int|
            0 <= i < users.len() && (#[trigger] users[i]).access_hash is Some implies exists|j: int|
                0 <= j < addresses(users).len() && addresses(users)[j] == InputUser {
                    user_id: users[i].id,
                    access_hash: users[i].access_hash->Some_0,
                } by {
            if i < init.len() {
                assert(init[i] == users[i]);
                let j = choose|j: int|
                    0 <= j < rest.len() && rest[j] == InputUser {
                        user_id: init[i].id,
                        access_hash: init[i].access_hash->Some_0,
                    };
                assert(addresses(users)[j] == rest[j]);
            } else {
                assert(addresses(users)[rest.len() as int] == InputUser {
                    user_id: users[i].id,
                    access_hash: users[i].access_hash->Some_0,
                });
            }
        }
    }
}

/// When the service resolves every entry, there is one record per entry, in
/// order: the lookup loses no resolved user.
pub proof fn lemma_every_resolved_entry_yields_a_record(imported: Seq<Option<UserData>>)
    requires
        forall|i: int| 0 <= i < imported.len() ==> ((#[trigger] imported[i]) is Some),
    ensures
        resolved(imported).len() == imported.len(),
        forall|i: int|
            0 <= i < imported.len() ==> #[trigger] resolved(imported)[i] == imported[i]->Some_0,
    decreases imported.len(),
{
    if imported.len() > 0 {
        let init = imported.drop_last();
        assert forall|i: int| 0 <= i < init.len() implies (#[trigger] init[i]) is Some by {
            assert(init[i] == imported[i]);
        }
        lemma_every_resolved_entry_yields_a_record(init);
        assert(imported[imported.len() - 1] is Some);
        assert forall|i: int| 0 <= i < imported.len() implies #[trigger] resolved(imported)[i]
            == imported[i]->Some_0 by {
            if i < init.len() {
                assert(init[i] == imported[i]);
            }
        }
    }
}

/// A cycle with clean-up on users that all carry an access hash leaves none
/// of them in the contact list, and running the same cycle again changes
/// nothing: no contact relationship is left behind either time.
pub proof fn lemma_cycle_leaves_no_contact(before: Set<i64>, users: Seq<UserData>)
    requires
        forall|i: int| 0 <= i < users.len() ==> ((#[trigger] users[i]).access_hash is Some),
    ensures
        forall|id: i64| #[trigger] ids_of(users).contains(id) ==> !contacts_after_cycle(before, users).contains(id),
        contacts_after_cycle(contacts_after_cycle(before, users), users) == contacts_after_cycle(
            before,
            users,
        ),
{
    lemma_addresses_are_the_addressable_users(users);
    let targets = addresses(users);
    assert forall|id: i64| #[trigger] ids_of(users).contains(id) implies target_ids(targets).contains(id) by {
        let i = choose|i: int| 0 <= i < users.len() && #[trigger] users[i].id == id;
        assert(users[i].access_hash is Some);
        let j = choose|j: int|
            0 <= j < targets.len() && targets[j] == InputUser {
                user_id: users[i].id,
                access_hash: users[i].access_hash->Some_0,
            };
        assert(targets[j].user_id == id);
    }
    let after = contacts_after_cycle(before, users);
    assert(contacts_after_cycle(after, users) =~= after);
}

} // verus!
