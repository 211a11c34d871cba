//! Share registry: the store of share links, each with the envelope it
//! points to.
//!
//! A link is created together with its envelope, read on every retrieval,
//! and removed, together with its envelope, by a sweep once its expiration
//! instant has passed. Per link the life cycle is `Active`, then `Expired`,
//! then `Purged`; only time and the sweep move it along.

use crate::envelope::Envelope;
use crate::ids::fresh_id;
use crate::password;
use crate::time::Timestamp;
use vstd::prelude::*;

verus! {

/// An expiring, password-gated pointer to a stored envelope.
#[derive(Debug)]
pub struct ShareLink {
    pub share_id: u128,
    pub file_id: u128,
    pub recipient_id: u128,
    pub access_password_hash: String,
    pub expiration_date: Timestamp,
    pub created_at: Timestamp,
}

/// An envelope as it is stored: the cryptographic bundle and what was known
/// of the file at upload time.
#[derive(Debug)]
pub struct StoredEnvelope {
    pub file_id: u128,
    pub owner_id: u128,
    pub recipient_id: u128,
    pub file_name: String,
    pub file_size: u64,
    pub envelope: Envelope,
    pub created_at: Timestamp,
}

/// A share link and the envelope it points to; the two are stored and
/// removed together.
#[derive(Debug)]
pub struct Entry {
    pub link: ShareLink,
    pub envelope: StoredEnvelope,
}

/// Where a share link stands in its life cycle.
#[derive(Clone, Copy, Debug, PartialEq, Eq, Structural)]
pub enum LinkState {
    /// Stored, and the expiration instant not yet reached.
    Active,
    /// Stored, and the expiration instant reached.
    Expired,
    /// Not stored: removed by a sweep, or never created.
    Purged,
}

/// Why nothing was stored.
#[derive(Clone, Copy, Debug, PartialEq, Eq, Structural)]
pub enum CreateError {
    /// The password could not be hashed.
    Hashing,
    /// The store refused the pair: an identifier is already taken, or the
    /// link does not point to the envelope it came with.
    Storage,
}

impl LinkState {
    /// Position in the life cycle: a state never gives way to one of lower
    /// rank.
    pub open spec fn rank(self) -> nat {
        match self {
            LinkState::Active => 0,
            LinkState::Expired => 1,
            LinkState::Purged => 2,
        }
    }
}

impl ShareLink {
    /// Whether the link's expiration instant has been reached at `now`.
    pub open spec fn expired_at(self, now: Timestamp) -> bool {
        now.reached(self.expiration_date)
    }

    /// Whether the link's expiration instant has been reached at `now`.
    pub fn is_expired(&self, now: Timestamp) -> (yes: bool)
        ensures
            yes == self.expired_at(now),
    {
        now.has_reached(&self.expiration_date)
    }

    /// Whether `identity` is the party the link was made for. Nobody else
    /// may redeem it, its creator included.
    pub open spec fn made_for(self, identity: u128) -> bool {
        self.recipient_id == identity
    }

    /// Whether `identity` is the party the link was made for.
    pub fn is_made_for(&self, identity: u128) -> (yes: bool)
        ensures
            yes == self.made_for(identity),
    {
        self.recipient_id == identity
    }
}

impl Entry {
    /// Whether the link points to the envelope and both name one recipient.
    pub open spec fn paired(self) -> bool {
        self.link.file_id == self.envelope.file_id && self.link.recipient_id
            == self.envelope.recipient_id
    }

    /// Whether a sweep at `now` keeps the entry.
    pub open spec fn survives(self, now: Timestamp) -> bool {
        !self.link.expired_at(now)
    }
}

/// Whether some entry has the share identifier `share_id`.
pub open spec fn has_share(entries: Seq<Entry>, share_id: u128) -> bool {
    exists|i: int| 0 <= i < entries.len() && (#[trigger] entries[i]).link.share_id == share_id
}

/// Whether some entry has the file identifier `file_id`.
pub open spec fn has_file(entries: Seq<Entry>, file_id: u128) -> bool {
    exists|i: int| 0 <= i < entries.len() && (#[trigger] entries[i]).envelope.file_id == file_id
}

/// The first entry with the share identifier `share_id`, if any.
pub open spec fn find_share(entries: Seq<Entry>, share_id: u128) -> Option<Entry>
    decreases entries.len(),
{
    if entries.len() == 0 {
        None
    } else if entries[0].link.share_id == share_id {
        Some(entries[0])
    } else {
        find_share(entries.subrange(1, entries.len() as int), share_id)
    }
}

/// The first entry with the file identifier `file_id`, if any.
pub open spec fn find_file(entries: Seq<Entry>, file_id: u128) -> Option<Entry>
    decreases entries.len(),
{
    if entries.len() == 0 {
        None
    } else if entries[0].envelope.file_id == file_id {
        Some(entries[0])
    } else {
        find_file(entries.subrange(1, entries.len() as int), file_id)
    }
}

/// The invariant of the store: every link points to the envelope stored
/// with it, and no share or file identifier occurs twice.
pub open spec fn consistent(entries: Seq<Entry>) -> bool {
    &&& forall|i: int| 0 <= i < entries.len() ==> (#[trigger] entries[i]).paired()
    &&& forall|i: int, j: int|
        0 <= i < j < entries.len() ==> (#[trigger] entries[i]).link.share_id != (
        #[trigger] entries[j]).link.share_id
    &&& forall|i: int, j: int|
        0 <= i < j < entries.len() ==> (#[trigger] entries[i]).envelope.file_id != (
        #[trigger] entries[j]).envelope.file_id
}

/// The predicate of the entries that a sweep at `now` keeps.
pub open spec fn surviving(now: Timestamp) -> spec_fn(Entry) -> bool {
    |entry: Entry| entry.survives(now)
}

/// What a sweep at `now` leaves of `entries`: those whose expiration instant
/// lies after `now`, in their order.
pub open spec fn swept(entries: Seq<Entry>, now: Timestamp) -> Seq<Entry> {
    entries.filter(surviving(now))
}

/// How many entries a sweep at `now` removes.
pub open spec fn purge_count(entries: Seq<Entry>, now: Timestamp) -> nat {
    (entries.len() - swept(entries, now).len()) as nat
}

/// The state at `now` of the link `share_id` in a store that holds
/// `entries`.
pub open spec fn state_in(entries: Seq<Entry>, share_id: u128, now: Timestamp) -> LinkState {
    match find_share(entries, share_id) {
        None => LinkState::Purged,
        Some(entry) => if entry.link.expired_at(now) {
            LinkState::Expired
        } else {
            LinkState::Active
        },
    }
}

/// What `lookup` returns on a store that holds `entries`.
pub open spec fn looked_up(entries: Seq<Entry>, share_id: u128, requesting_identity: u128)
    -> Option<ShareLink> {
    match find_share(entries, share_id) {
        Some(entry) if entry.link.made_for(requesting_identity) => Some(entry.link),
        _ => None,
    }
}

/// `find_share` finds an entry exactly where one has the identifier, and
/// what it finds has the identifier and is among the entries.
pub proof fn lemma_find_share(entries: Seq<Entry>, share_id: u128)
    ensures
        find_share(entries, share_id) is Some <==> has_share(entries, share_id),
        find_share(entries, share_id) matches Some(entry) ==> entry.link.share_id == share_id
            && entries.contains(entry),
    decreases entries.len(),
{
    if entries.len() == 0 {
    } else if entries[0].link.share_id == share_id {
    } else {
        let rest = entries.subrange(1, entries.len() as int);
        lemma_find_share(rest, share_id);
        if has_share(rest, share_id) {
            let i = choose|i: int| 0 <= i < rest.len() && (#[trigger] rest[i]).link.share_id
                == share_id;
            assert(entries[i + 1] == rest[i]);
        }
        if has_share(entries, share_id) {
            let i = choose|i: int| 0 <= i < entries.len() && (#[trigger] entries[i]).link.share_id
                == share_id;
            assert(rest[i - 1] == entries[i]);
        }
        if let Some(entry) = find_share(rest, share_id) {
            let i = choose|i: int| 0 <= i < rest.len() && rest[i] == entry;
            assert(entries[i + 1] == rest[i]);
        }
    }
}

/// `find_file` finds an entry exactly where one has the identifier, and what
/// it finds has the identifier and is among the entries.
pub proof fn lemma_find_file(entries: Seq<Entry>, file_id: u128)
    ensures
        find_file(entries, file_id) is Some <==> has_file(entries, file_id),
        find_file(entries, file_id) matches Some(entry) ==> entry.envelope.file_id == file_id
            && entries.contains(entry),
    decreases entries.len(),
{
    if entries.len() == 0 {
    } else if entries[0].envelope.file_id == file_id {
    } else {
        let rest = entries.subrange(1, entries.len() as int);
        lemma_find_file(rest, file_id);
        if has_file(rest, file_id) {
            let i = choose|i: int| 0 <= i < rest.len() && (#[trigger] rest[i]).envelope.file_id
                == file_id;
            assert(entries[i + 1] == rest[i]);
        }
        if has_file(entries, file_id) {
            let i = choose|i: int| 0 <= i < entries.len() && (
            #[trigger] entries[i]).envelope.file_id == file_id;
            assert(rest[i - 1] == entries[i]);
        }
        if let Some(entry) = find_file(rest, file_id) {
            let i = choose|i: int| 0 <= i < rest.len() && rest[i] == entry;
            assert(entries[i + 1] == rest[i]);
        }
    }
}

/// Where no share identifier occurs twice, `find_share` finds each entry
/// under its own identifier.
pub proof fn lemma_find_share_at(entries: Seq<Entry>, i: int)
    requires
        consistent(entries),
        0 <= i < entries.len(),
    ensures
        find_share(entries, entries[i].link.share_id) == Some(entries[i]),
    decreases entries.len(),
{
    if i > 0 {
        let rest = entries.subrange(1, entries.len() as int);
        assert(forall|k: int| 0 <= k < rest.len() ==> rest[k] == entries[k + 1]);
        lemma_find_share_at(rest, i - 1);
    }
}

/// Authorization of a lookup: a link is handed out only under its own
/// identifier and only to the party it was made for.
pub proof fn lemma_lookup_is_for_the_recipient(
    entries: Seq<Entry>,
    share_id: u128,
    requesting_identity: u128,
)
    ensures
        looked_up(entries, share_id, requesting_identity) matches Some(link) ==> link.share_id
            == share_id && link.recipient_id == requesting_identity,
        has_share(entries, share_id) && looked_up(entries, share_id, requesting_identity) is None
            ==> find_share(entries, share_id)->0.link.recipient_id != requesting_identity,
{
    lemma_find_share(entries, share_id);
}

/// A pair that is stored is found: after an entry with an unused share
/// identifier is added, that identifier leads to the new entry, and every
/// other identifier leads where it led before.
pub proof fn lemma_find_share_after_insert(entries: Seq<Entry>, entry: Entry, share_id: u128)
    requires
        !has_share(entries, entry.link.share_id),
    ensures
        find_share(entries.push(entry), share_id) == if share_id == entry.link.share_id {
            Some(entry)
        } else {
            find_share(entries, share_id)
        },
    decreases entries.len(),
{
    let extended = entries.push(entry);
    let tail = extended.subrange(1, extended.len() as int);
    if entries.len() == 0 {
        assert(tail =~= Seq::<Entry>::empty() && find_share(tail, share_id) is None);
    } else {
        let rest = entries.subrange(1, entries.len() as int);
        assert(tail =~= rest.push(entry) && extended[0] == entries[0]);
        if has_share(rest, entry.link.share_id) {
            let i = choose|i: int|
                0 <= i < rest.len() && (#[trigger] rest[i]).link.share_id == entry.link.share_id;
            assert(entries[i + 1] == rest[i]);
        }
        assert(entries[0].link.share_id != entry.link.share_id);
        lemma_find_share_after_insert(rest, entry, share_id);
    }
}

/// A sweep keeps every entry where all of them survive.
pub proof fn lemma_swept_keeps_survivors(entries: Seq<Entry>, now: Timestamp)
    requires
        forall|i: int| 0 <= i < entries.len() ==> (#[trigger] entries[i]).survives(now),
    ensures
        swept(entries, now) == entries,
    decreases entries.len(),
{
    reveal(Seq::filter);
    if entries.len() > 0 {
        lemma_swept_keeps_survivors(entries.drop_last(), now);
        assert(entries.drop_last().push(entries.last()) =~= entries);
    }
}

/// What a sweep leaves are entries of the store, each of which survives, in
/// the order they had; so it leaves a consistent store consistent.
pub proof fn lemma_swept_is_consistent(entries: Seq<Entry>, now: Timestamp)
    requires
        consistent(entries),
    ensures
        consistent(swept(entries, now)),
        forall|i: int|
            0 <= i < swept(entries, now).len() ==> (#[trigger] swept(entries, now)[i]).survives(
                now,
            ),
        forall|i: int|
            0 <= i < swept(entries, now).len() ==> entries.contains(
                #[trigger] swept(entries, now)[i],
            ),
        swept(entries, now).len() <= entries.len(),
    decreases entries.len(),
{
    reveal(Seq::filter);
    if entries.len() > 0 {
        let front = entries.drop_last();
        let last = entries.last();
        lemma_swept_is_consistent(front, now);
        let kept = swept(front, now);
        assert forall|i: int| 0 <= i < kept.len() implies entries.contains(#[trigger] kept[i]) by {
            let k = choose|k: int| 0 <= k < front.len() && front[k] == kept[i];
            assert(entries[k] == kept[i]);
        }
        if last.survives(now) {
            let all = kept.push(last);
            assert(swept(entries, now) == all);
            assert forall|i: int| 0 <= i < kept.len() implies (#[trigger] kept[i]).link.share_id
                != last.link.share_id && kept[i].envelope.file_id != last.envelope.file_id by {
                let k = choose|k: int| 0 <= k < front.len() && front[k] == kept[i];
                assert(entries[k] == kept[i]);
            }
            assert(entries[entries.len() - 1] == last);
            assert(consistent(all));
        }
    }
}

/// Sweep idempotence: a second sweep at the same instant finds a store that
/// the first has already cleared. It removes nothing and leaves the store as
/// it was.
pub proof fn lemma_sweep_is_idempotent(entries: Seq<Entry>, now: Timestamp)
    ensures
        swept(swept(entries, now), now) == swept(entries, now),
        purge_count(swept(entries, now), now) == 0,
{
    let once = swept(entries, now);
    assert forall|i: int| 0 <= i < once.len() implies (#[trigger] once[i]).survives(now) by {
        entries.lemma_filter_pred(surviving(now), i);
    }
    lemma_swept_keeps_survivors(once, now);
}

/// A sweep never removes more at an instant than at a later one: after a
/// sweep at `later`, a sweep at an `earlier` instant finds nothing to remove.
pub proof fn lemma_sweep_after_later_sweep(entries: Seq<Entry>, earlier: Timestamp, later: Timestamp)
    requires
        earlier.micros <= later.micros,
    ensures
        swept(swept(entries, later), earlier) == swept(entries, later),
{
    let once = swept(entries, later);
    assert forall|i: int| 0 <= i < once.len() implies (#[trigger] once[i]).survives(earlier) by {
        entries.lemma_filter_pred(surviving(later), i);
    }
    lemma_swept_keeps_survivors(once, earlier);
}

/// A sweep finds the same entry under an identifier as was there before, if
/// that entry survives, and none if it does not.
pub proof fn lemma_find_share_in_swept(entries: Seq<Entry>, share_id: u128, now: Timestamp)
    requires
        consistent(entries),
    ensures
        find_share(swept(entries, now), share_id) == match find_share(entries, share_id) {
            Some(entry) if entry.survives(now) => Some(entry),
            _ => None,
        },
{
    let after = swept(entries, now);
    lemma_swept_is_consistent(entries, now);
    lemma_find_share(entries, share_id);
    lemma_find_share(after, share_id);
    match find_share(after, share_id) {
        Some(found) => {
            let k = choose|k: int| 0 <= k < after.len() && after[k] == found;
            assert(found.survives(now));
            let i = choose|i: int| 0 <= i < entries.len() && entries[i] == after[k];
            lemma_find_share_at(entries, i);
        },
        None => {
            if let Some(entry) = find_share(entries, share_id) {
                if entry.survives(now) {
                    let i = choose|i: int| 0 <= i < entries.len() && entries[i] == entry;
                    entries.lemma_filter_contains(surviving(now), i);
                    let k = choose|k: int| 0 <= k < after.len() && after[k] == entry;
                    assert(after[k].link.share_id == share_id);
                    assert(has_share(after, share_id));
                }
            }
        },
    }
}

/// The life cycle under a sweep: an active link stays active, an expired one
/// is purged, and a purged one stays purged.
pub proof fn lemma_sweep_moves_expired_to_purged(
    entries: Seq<Entry>,
    share_id: u128,
    now: Timestamp,
)
    requires
        consistent(entries),
    ensures
        state_in(swept(entries, now), share_id, now) == match state_in(entries, share_id, now) {
            LinkState::Active => LinkState::Active,
            LinkState::Expired => LinkState::Purged,
            LinkState::Purged => LinkState::Purged,
        },
{
    lemma_find_share_in_swept(entries, share_id, now);
}

/// The life cycle under time: as the clock advances over an unchanged store,
/// a link's state never moves back. An expired link does not become active
/// again.
pub proof fn lemma_time_moves_states_forward(
    entries: Seq<Entry>,
    share_id: u128,
    earlier: Timestamp,
    later: Timestamp,
)
    requires
        earlier.micros <= later.micros,
    ensures
        state_in(entries, share_id, earlier).rank() <= state_in(entries, share_id, later).rank(),
{
}

/// The life cycle under time and sweeps together: whatever the instant of a
/// sweep, it never moves a link's state back.
pub proof fn lemma_sweep_moves_states_forward(
    entries: Seq<Entry>,
    share_id: u128,
    swept_at: Timestamp,
    now: Timestamp,
)
    requires
        consistent(entries),
    ensures
        state_in(entries, share_id, now).rank() <= state_in(
            swept(entries, swept_at),
            share_id,
            now,
        ).rank(),
{
    lemma_find_share_in_swept(entries, share_id, swept_at);
}

/// The store of share links and their envelopes.
pub struct ShareRegistry {
    entries: Vec<Entry>,
}

impl View for ShareRegistry {
    type V = Seq<Entry>;

    closed spec fn view(&self) -> Seq<Entry> {
        self.entries@
    }
}

impl ShareRegistry {
    /// Whether the store satisfies its invariant.
    pub open spec fn wf(&self) -> bool {
        consistent(self@)
    }

    /// An empty store.
    pub fn new() -> (registry: Self)
        ensures
            registry.wf(),
            registry@ == Seq::<Entry>::empty(),
    {
        ShareRegistry { entries: Vec::new() }
    }

    /// How many links are stored.
    pub fn len(&self) -> (count: usize)
        ensures
            count == self@.len(),
    {
        self.entries.len()
    }

    fn position_of_share(&self, share_id: u128) -> (position: Option<usize>)
        ensures
            match position {
                Some(i) => i < self@.len() && find_share(self@, share_id) == Some(self@[i as int]),
                None => find_share(self@, share_id) is None,
            },
    {
        let mut i: usize = 0;
        proof {
            assert(self.entries@.subrange(0, self.entries@.len() as int) =~= self.entries@);
        }
        while i < self.entries.len()
            invariant
                i <= self.entries@.len(),
                find_share(self.entries@, share_id) == find_share(
                    self.entries@.subrange(i as int, self.entries@.len() as int),
                    share_id,
                ),
            decreases self.entries@.len() - i,
        {
            if self.entries[i].link.share_id == share_id {
                return Some(i);
            }
            proof {
                let here = self.entries@.subrange(i as int, self.entries@.len() as int);
                assert(here.subrange(1, here.len() as int) =~= self.entries@.subrange(
                    i + 1,
                    self.entries@.len() as int,
                ));
            }
            i += 1;
        }
        proof {
            assert(self.entries@.subrange(i as int, self.entries@.len() as int).len() == 0);
        }
        None
    }

    fn position_of_file(&self, file_id: u128) -> (position: Option<usize>)
        ensures
            match position {
                Some(i) => i < self@.len() && find_file(self@, file_id) == Some(self@[i as int]),
                None => find_file(self@, file_id) is None,
            },
    {
        let mut i: usize = 0;
        proof {
            assert(self.entries@.subrange(0, self.entries@.len() as int) =~= self.entries@);
        }
        while i < self.entries.len()
            invariant
                i <= self.entries@.len(),
                find_file(self.entries@, file_id) == find_file(
                    self.entries@.subrange(i as int, self.entries@.len() as int),
                    file_id,
                ),
            decreases self.entries@.len() - i,
        {
            if self.entries[i].envelope.file_id == file_id {
                return Some(i);
            }
            proof {
                let here = self.entries@.subrange(i as int, self.entries@.len() as int);
                assert(here.subrange(1, here.len() as int) =~= self.entries@.subrange(
                    i + 1,
                    self.entries@.len() as int,
                ));
            }
            i += 1;
        }
        proof {
            assert(self.entries@.subrange(i as int, self.entries@.len() as int).len() == 0);
        }
        None
    }

    /// Stores a link together with its envelope, both or neither.
    ///
    /// Refused with `Storage`, and the store left as it was, exactly where
    /// the link does not point to the envelope or one of the two
    /// identifiers is already taken. Otherwise the pair is added after the
    /// entries already there.
    pub fn insert(&mut self, link: ShareLink, envelope: StoredEnvelope) -> (result: Result<
        (),
        CreateError,
    >)
        requires
            old(self).wf(),
        ensures
            final(self).wf(),
            result is Ok <==> (Entry { link, envelope }).paired() && !has_share(
                old(self)@,
                link.share_id,
            ) && !has_file(old(self)@, envelope.file_id),
            result is Ok ==> final(self)@ == old(self)@.push(Entry { link, envelope }),
            result matches Err(e) ==> e == CreateError::Storage && final(self)@ == old(self)@,
    {
        proof {
            lemma_find_share(self@, link.share_id);
            lemma_find_file(self@, envelope.file_id);
        }
        if link.file_id != envelope.file_id || link.recipient_id != envelope.recipient_id {
            return Err(CreateError::Storage);
        }
        if self.position_of_share(link.share_id).is_some() {
            return Err(CreateError::Storage);
        }
        if self.position_of_file(envelope.file_id).is_some() {
            return Err(CreateError::Storage);
        }
        self.entries.push(Entry { link, envelope });
        Ok(())
    }

    /// Creates a share link for a newly sealed envelope and stores the two
    /// together.
    ///
    /// The password is stored only as a salted hash. The identifiers of the
    /// file and of the link are drawn at random. On success the new link's
    /// identifier is returned and the pair stands after the entries already
    /// there; on failure the store is as it was.
    pub fn create(
        &mut self,
        owner_id: u128,
        recipient_id: u128,
        file_name: String,
        file_size: u64,
        envelope: Envelope,
        password: &str,
        expiration_date: Timestamp,
        now: Timestamp,
    ) -> (result: Result<u128, CreateError>)
        requires
            old(self).wf(),
        ensures
            final(self).wf(),
            // The outcome is that of `create_with` for what the hasher
            // returned and the two identifiers that were drawn; a hash that
            // was returned matches the password.
            exists|hashed: Option<String>, file_id: u128, share_id: u128|
                (hashed matches Some(hash) ==> password::accepts(password@, hash@)) && (
                result,
                final(self)@,
            ) == #[trigger] creation(
                old(self)@,
                owner_id,
                recipient_id,
                file_name,
                file_size,
                envelope,
                hashed,
                expiration_date,
                now,
                file_id,
                share_id,
            ),
            result is Err ==> final(self)@ == old(self)@,
            // The hasher fails exactly on a password too long for it.
            result == Err::<u128, CreateError>(CreateError::Hashing) <==> !password::hashable(
                password@,
            ),
            // Only an identifier that is already taken makes the store
            // refuse, so an empty store never does.
            result == Err::<u128, CreateError>(CreateError::Storage) ==> old(self)@.len() > 0,
            result matches Ok(share_id) ==> {
                let entry = final(self)@.last();
                &&& final(self)@ == old(self)@.push(entry)
                &&& !has_share(old(self)@, share_id)
                &&& !has_file(old(self)@, entry.envelope.file_id)
                &&& entry.paired()
                &&& entry.link.share_id == share_id
                &&& entry.link.recipient_id == recipient_id
                &&& entry.link.expiration_date == expiration_date
                &&& entry.link.created_at == now
                &&& password::accepts(password@, entry.link.access_password_hash@)
                &&& entry.envelope.owner_id == owner_id
                &&& entry.envelope.file_name == file_name
                &&& entry.envelope.file_size == file_size
                &&& entry.envelope.envelope == envelope
                &&& entry.envelope.created_at == now
            },
    {
        let hashed = match password::hash(password) {
            Ok(hash) => Some(hash),
            Err(_) => None,
        };
        let file_id = fresh_id();
        let share_id = fresh_id();
        let result = self.create_with(
            owner_id,
            recipient_id,
            file_name,
            file_size,
            envelope,
            hashed,
            expiration_date,
            now,
            file_id,
            share_id,
        );
        proof {
            assert((result, self@) == creation(
                old(self)@,
                owner_id,
                recipient_id,
                file_name,
                file_size,
                envelope,
                hashed,
                expiration_date,
                now,
                file_id,
                share_id,
            ));
        }
        result
    }

    /// Stores the pair that a creation makes of a hashing outcome and two
    /// drawn identifiers.
    ///
    /// Without a hash nothing is stored and the failure is `Hashing`. With
    /// one, the pair is refused with `Storage` exactly where the share or the
    /// file identifier is already taken; otherwise it is added after the
    /// entries already there and the share identifier is returned.
    pub fn create_with(
        &mut self,
        owner_id: u128,
        recipient_id: u128,
        file_name: String,
        file_size: u64,
        envelope: Envelope,
        hashed: Option<String>,
        expiration_date: Timestamp,
        now: Timestamp,
        file_id: u128,
        share_id: u128,
    ) -> (result: Result<u128, CreateError>)
        requires
            old(self).wf(),
        ensures
            final(self).wf(),
            (result, final(self)@) == creation(
                old(self)@,
                owner_id,
                recipient_id,
                file_name,
                file_size,
                envelope,
                hashed,
                expiration_date,
                now,
                file_id,
                share_id,
            ),
    {
        let access_password_hash = match hashed {
            Some(hash) => hash,
            None => {
                return Err(CreateError::Hashing);
            },
        };
        let link = ShareLink {
            share_id,
            file_id,
            recipient_id,
            access_password_hash,
            expiration_date,
            created_at: now,
        };
        let stored = StoredEnvelope {
            file_id,
            owner_id,
            recipient_id,
            file_name,
            file_size,
            envelope,
            created_at: now,
        };
        match self.insert(link, stored) {
            Ok(()) => Ok(share_id),
            Err(e) => Err(e),
        }
    }

    /// The link `share_id`, for the party it was made for.
    ///
    /// `None` where no such link is stored, and where `requesting_identity`
    /// is not the link's recipient: to anyone else the link does not exist.
    /// The password plays no part here.
    pub fn lookup(&self, share_id: u128, requesting_identity: u128) -> (found: Option<&ShareLink>)
        ensures
            match found {
                Some(link) => looked_up(self@, share_id, requesting_identity) == Some(*link),
                None => looked_up(self@, share_id, requesting_identity) is None,
            },
    {
        match self.position_of_share(share_id) {
            None => None,
            Some(i) => {
                let entry = &self.entries[i];
                if entry.link.is_made_for(requesting_identity) {
                    Some(&entry.link)
                } else {
                    None
                }
            },
        }
    }

    /// The stored envelope `file_id`, if any.
    pub fn envelope(&self, file_id: u128) -> (found: Option<&StoredEnvelope>)
        ensures
            match found {
                Some(stored) => find_file(self@, file_id) matches Some(entry) && entry.envelope
                    == *stored,
                None => find_file(self@, file_id) is None,
            },
    {
        match self.position_of_file(file_id) {
            None => None,
            Some(i) => Some(&self.entries[i].envelope),
        }
    }

    /// The state of the link `share_id` at `now`.
    pub fn state(&self, share_id: u128, now: Timestamp) -> (state: LinkState)
        ensures
            state == state_in(self@, share_id, now),
    {
        match self.position_of_share(share_id) {
            None => LinkState::Purged,
            Some(i) => if self.entries[i].link.is_expired(now) {
                LinkState::Expired
            } else {
                LinkState::Active
            },
        }
    }

    /// Removes every link whose expiration instant is `now` or earlier,
    /// together with its envelope, and tells how many went.
    pub fn sweep(&mut self, now: Timestamp) -> (count_purged: usize)
        requires
            old(self).wf(),
        ensures
            final(self).wf(),
            final(self)@ == swept(old(self)@, now),
            count_purged == purge_count(old(self)@, now),
    {
        let total = self.entries.len();
        let mut count_purged: usize = 0;
        let mut i: usize = 0;
        proof {
            lemma_swept_is_consistent(self@, now);
        }
        while i < self.entries.len()
            invariant
                i <= self.entries@.len(),
                total == old(self).entries@.len(),
                count_purged + self.entries@.len() == total,
                swept(self.entries@, now) == swept(old(self).entries@, now),
                forall|j: int| 0 <= j < i ==> (#[trigger] self.entries@[j]).survives(now),
            decreases self.entries@.len() - i,
        {
            if self.entries[i].link.is_expired(now) {
                let ghost before = self.entries@;
                count_purged += 1;
                let _ = self.entries.remove(i);
                proof {
                    lemma_swept_without(before, i as int, now);
                }
            } else {
                i += 1;
            }
        }
        proof {
            lemma_swept_keeps_survivors(self.entries@, now);
        }
        count_purged
    }
}

/// The pair that a creation stores: the link with the hash of the password,
/// and the envelope with what was known of the file, both under the drawn
/// identifiers and made at `now`.
pub open spec fn new_entry(
    owner_id: u128,
    recipient_id: u128,
    file_name: String,
    file_size: u64,
    envelope: Envelope,
    access_password_hash: String,
    expiration_date: Timestamp,
    now: Timestamp,
    file_id: u128,
    share_id: u128,
) -> Entry {
    Entry {
        link: ShareLink {
            share_id,
            file_id,
            recipient_id,
            access_password_hash,
            expiration_date,
            created_at: now,
        },
        envelope: StoredEnvelope {
            file_id,
            owner_id,
            recipient_id,
            file_name,
            file_size,
            envelope,
            created_at: now,
        },
    }
}

/// What a creation returns and what it leaves of a store that holds
/// `entries`, given the hash that the hasher returned, if any, and the two
/// identifiers that were drawn.
pub open spec fn creation(
    entries: Seq<Entry>,
    owner_id: u128,
    recipient_id: u128,
    file_name: String,
    file_size: u64,
    envelope: Envelope,
    hashed: Option<String>,
    expiration_date: Timestamp,
    now: Timestamp,
    file_id: u128,
    share_id: u128,
) -> (Result<u128, CreateError>, Seq<Entry>) {
    match hashed {
        None => (Err(CreateError::Hashing), entries),
        Some(access_password_hash) => if has_share(entries, share_id) || has_file(
            entries,
            file_id,
        ) {
            (Err(CreateError::Storage), entries)
        } else {
            (
                Ok(share_id),
                entries.push(
                    new_entry(
                        owner_id,
                        recipient_id,
                        file_name,
                        file_size,
                        envelope,
                        access_password_hash,
                        expiration_date,
                        now,
                        file_id,
                        share_id,
                    ),
                ),
            )
        },
    }
}

/// Taking out an entry that does not survive changes nothing of what a sweep
/// leaves.
pub proof fn lemma_swept_without(entries: Seq<Entry>, i: int, now: Timestamp)
    requires
        0 <= i < entries.len(),
        !entries[i].survives(now),
    ensures
        swept(entries.remove(i), now) == swept(entries, now),
{
    let front = entries.subrange(0, i);
    let one = entries.subrange(i, i + 1);
    let back = entries.subrange(i + 1, entries.len() as int);
    let keep = surviving(now);
    assert(entries =~= front + one + back);
    assert(entries.remove(i) =~= front + back);
    Seq::filter_distributes_over_add(front + one, back, keep);
    Seq::filter_distributes_over_add(front, one, keep);
    Seq::filter_distributes_over_add(front, back, keep);
    assert(one.filter(keep) =~= Seq::<Entry>::empty()) by {
        reveal_with_fuel(Seq::filter, 2);
        assert(one.drop_last() =~= Seq::<Entry>::empty());
    }
    assert(front.filter(keep) + one.filter(keep) =~= front.filter(keep));
}

} // verus!
