use vstd::prelude::*;

use crate::model::{
    client_from_new, letter_from_new, same_client, trade_from_new, Client, ClientList, NewClient,
    NewLetter, NewTrade, SuitabilityLetter, Trade,
};

use crate::migration::{latest_version_of, Registry, Store};

verus! {

/// The entities of the store.
#[derive(Clone, Copy, Debug, PartialEq, Eq, Structural)]
pub enum Entity {
    Clients,
    Trades,
    SuitabilityLetters,
}

/// The integrity rule a write broke.
#[derive(Clone, Copy, Debug, PartialEq, Eq, Structural)]
pub enum Constraint {
    /// The identifier is already taken.
    PrimaryKey,
    /// The referenced client does not exist.
    ForeignKey,
}

/// Why a data operation was refused. A refused write changes nothing.
#[derive(Clone, Copy, Debug, PartialEq, Eq, Structural)]
pub enum StoreError {
    IntegrityViolation { entity: Entity, constraint: Constraint },
    NotFound { entity: Entity },
    /// No identifier is left for a new row.
    IdsExhausted { entity: Entity },
}

/// A stored client with its creation and last-update timestamps.
#[derive(Debug)]
pub struct ClientRow {
    pub client: Client,
    pub created_at: String,
    pub updated_at: String,
}

pub open spec fn has_client(rows: Seq<ClientRow>, id: Seq<char>) -> bool {
    exists|i: int| 0 <= i < rows.len() && rows[i].client.id@ == id
}

/// The client, trade and suitability-letter tables of a migrated store.
#[derive(Debug)]
pub struct Database {
    pub clients: Vec<ClientRow>,
    pub trades: Vec<Trade>,
    pub letters: Vec<SuitabilityLetter>,
    /// Identifier the next trade receives.
    pub next_trade_id: u64,
    /// Identifier the next letter receives.
    pub next_letter_id: u64,
}

impl Database {
    /// Client identifiers are unique, every trade and letter names an existing
    /// client, and row identifiers increase and stay below the next one.
    pub open spec fn wf(&self) -> bool {
        &&& forall|a: int, b: int|
            0 <= a < b < self.clients@.len() ==> self.clients@[a].client.id@
                != self.clients@[b].client.id@
        &&& forall|k: int|
            0 <= k < self.trades@.len() ==> has_client(self.clients@, (#[trigger] self.trades@[k]).client_id@)
        &&& forall|k: int|
            0 <= k < self.letters@.len() ==> has_client(self.clients@, (#[trigger] self.letters@[k]).client_id@)
        &&& forall|a: int, b: int|
            0 <= a < b < self.trades@.len() ==> self.trades@[a].id < self.trades@[b].id
        &&& forall|k: int| 0 <= k < self.trades@.len() ==> (#[trigger] self.trades@[k]).id < self.next_trade_id
        &&& forall|a: int, b: int|
            0 <= a < b < self.letters@.len() ==> self.letters@[a].id < self.letters@[b].id
        &&& forall|k: int| 0 <= k < self.letters@.len() ==> (#[trigger] self.letters@[k]).id < self.next_letter_id
    }

    /// An empty store; the first trade and the first letter get identifier 1.
    pub fn new() -> (r: Database)
        ensures
            r.wf(),
            r.clients@.len() == 0,
            r.trades@.len() == 0,
            r.letters@.len() == 0,
            r.next_trade_id == 1,
            r.next_letter_id == 1,
    {
        Database {
            clients: Vec::new(),
            trades: Vec::new(),
            letters: Vec::new(),
            next_trade_id: 1,
            next_letter_id: 1,
        }
    }

    /// An empty data layer over `store`, which is only handed out once the
    /// store has reached the latest version of `registry`.
    pub fn for_store(store: &Store, registry: &Registry) -> (r: Option<Database>)
        ensures
            r is Some <==> store.version == latest_version_of(registry@),
            r matches Some(d) ==> d.wf() && d.clients@.len() == 0 && d.trades@.len() == 0
                && d.letters@.len() == 0 && d.next_trade_id == 1 && d.next_letter_id == 1,
    {
        if store.version == registry.latest_version() {
            Some(Database::new())
        } else {
            None
        }
    }

    /// The trade whose identifier is `id`, if one exists.
    pub fn get_trade(&self, id: u64) -> (r: Option<&Trade>)
        ensures
            match r {
                Some(t) => exists|k: int| 0 <= k < self.trades@.len() && self.trades@[k] == *t && t.id == id,
                None => forall|k: int| 0 <= k < self.trades@.len() ==> (#[trigger] self.trades@[k]).id != id,
            },
    {
        let mut k: usize = 0;
        while k < self.trades.len()
            invariant
                k <= self.trades.len(),
                forall|j: int| 0 <= j < k ==> (#[trigger] self.trades@[j]).id != id,
            decreases self.trades.len() - k,
        {
            if self.trades[k].id == id {
                return Some(&self.trades[k]);
            }
            k = k + 1;
        }
        None
    }

    /// The suitability letter whose identifier is `id`, if one exists.
    pub fn get_letter(&self, id: u64) -> (r: Option<&SuitabilityLetter>)
        ensures
            match r {
                Some(l) => exists|k: int| 0 <= k < self.letters@.len() && self.letters@[k] == *l && l.id == id,
                None => forall|k: int| 0 <= k < self.letters@.len() ==> (#[trigger] self.letters@[k]).id != id,
            },
    {
        let mut k: usize = 0;
        while k < self.letters.len()
            invariant
                k <= self.letters.len(),
                forall|j: int| 0 <= j < k ==> (#[trigger] self.letters@[j]).id != id,
            decreases self.letters.len() - k,
        {
            if self.letters[k].id == id {
                return Some(&self.letters[k]);
            }
            k = k + 1;
        }
        None
    }

    /// Identifiers of the trades of client `client_id`, in insertion order.
    pub fn trades_of_client(&self, client_id: &String) -> (r: Vec<u64>)
        ensures
            r@ == self.trades@.filter(|t: Trade| t.client_id@ == client_id@).map_values(|t: Trade| t.id),
    {
        let ghost keep = |t: Trade| t.client_id@ == client_id@;
        let mut r: Vec<u64> = Vec::new();
        let mut k: usize = 0;
        while k < self.trades.len()
            invariant
                k <= self.trades.len(),
                keep == (|t: Trade| t.client_id@ == client_id@),
                r@ == self.trades@.subrange(0, k as int).filter(keep).map_values(|t: Trade| t.id),
            decreases self.trades.len() - k,
        {
            let ghost pre = self.trades@.subrange(0, k as int);
            proof {
                assert(self.trades@.subrange(0, k as int + 1) =~= pre.push(self.trades@[k as int]));
                pre.lemma_filter_push(self.trades@[k as int], keep);
            }
            if self.trades[k].client_id == *client_id {
                r.push(self.trades[k].id);
                assert(r@ =~= pre.push(self.trades@[k as int]).filter(keep).map_values(|t: Trade| t.id));
            }
            k = k + 1;
        }
        assert(self.trades@.subrange(0, k as int) =~= self.trades@);
        r
    }

    /// Position of the client whose identifier is `id`.
    pub fn find_client(&self, id: &String) -> (r: Option<usize>)
        requires
            self.wf(),
        ensures
            match r {
                Some(i) => i < self.clients@.len() && self.clients@[i as int].client.id@ == id@,
                None => !has_client(self.clients@, id@),
            },
    {
        let mut i: usize = 0;
        while i < self.clients.len()
            invariant
                i <= self.clients.len(),
                forall|k: int| 0 <= k < i ==> self.clients@[k].client.id@ != id@,
            decreases self.clients.len() - i,
        {
            if self.clients[i].client.id == *id {
                return Some(i);
            }
            i = i + 1;
        }
        None
    }

    /// Number of stored clients.
    pub fn client_count(&self) -> (r: usize)
        ensures
            r == self.clients@.len(),
    {
        self.clients.len()
    }

    /// Number of stored trades.
    pub fn trade_count(&self) -> (r: usize)
        ensures
            r == self.trades@.len(),
    {
        self.trades.len()
    }

    /// Number of stored letters.
    pub fn letter_count(&self) -> (r: usize)
        ensures
            r == self.letters@.len(),
    {
        self.letters.len()
    }

    /// The client whose identifier is `id`, if one exists.
    pub fn get_client(&self, id: &String) -> (r: Option<&Client>)
        requires
            self.wf(),
        ensures
            match r {
                Some(c) => exists|i: int|
                    0 <= i < self.clients@.len() && self.clients@[i].client == *c && c.id@ == id@,
                None => !has_client(self.clients@, id@),
            },
    {
        match self.find_client(id) {
            Some(i) => Some(&self.clients[i].client),
            None => None,
        }
    }

    /// Stores a new client, created and updated at `now`, with documented
    /// defaults in the fields `n` leaves out. Refused when the identifier is
    /// taken; the record already stored under it is kept as it was.
    pub fn insert_client(&mut self, n: NewClient, now: String) -> (r: Result<(), StoreError>)
        requires
            old(self).wf(),
        ensures
            final(self).wf(),
            final(self).trades@ == old(self).trades@,
            final(self).letters@ == old(self).letters@,
            final(self).next_trade_id == old(self).next_trade_id,
            final(self).next_letter_id == old(self).next_letter_id,
            has_client(old(self).clients@, n.id@) <==> r is Err,
            r is Err ==> r == Err::<(), StoreError>(
                StoreError::IntegrityViolation {
                    entity: Entity::Clients,
                    constraint: Constraint::PrimaryKey,
                },
            ) && final(self).clients@ == old(self).clients@,
            r is Ok ==> {
                &&& final(self).clients@.len() == old(self).clients@.len() + 1
                &&& final(self).clients@.drop_last() == old(self).clients@
                &&& client_from_new(final(self).clients@.last().client, n)
                &&& final(self).clients@.last().created_at@ == now@
                &&& final(self).clients@.last().updated_at@ == now@
            },
    {
        if self.find_client(&n.id).is_some() {
            return Err(
                StoreError::IntegrityViolation {
                    entity: Entity::Clients,
                    constraint: Constraint::PrimaryKey,
                },
            );
        }
        let ghost before = self.clients@;
        let ghost nid = n.id@;
        let client = Client::from_new(n);
        let row = ClientRow { client, created_at: now.clone(), updated_at: now };
        self.clients.push(row);
        proof {
            assert(self.clients@.drop_last() =~= before);
            assert forall|k: int| 0 <= k < self.trades@.len() implies has_client(
                self.clients@,
                (#[trigger] self.trades@[k]).client_id@,
            ) by {
                let i = choose|i: int| 0 <= i < before.len() && before[i].client.id@ == self.trades@[k].client_id@;
                assert(self.clients@[i] == before[i]);
            }
            assert forall|k: int| 0 <= k < self.letters@.len() implies has_client(
                self.clients@,
                (#[trigger] self.letters@[k]).client_id@,
            ) by {
                let i = choose|i: int| 0 <= i < before.len() && before[i].client.id@ == self.letters@[k].client_id@;
                assert(self.clients@[i] == before[i]);
            }
            assert forall|a: int, b: int| 0 <= a < b < self.clients@.len() implies self.clients@[a].client.id@
                != self.clients@[b].client.id@ by {
                if b == before.len() {
                    assert(self.clients@[a] == before[a]);
                    assert(before[a].client.id@ != nid);
                } else {
                    assert(self.clients@[a] == before[a]);
                    assert(self.clients@[b] == before[b]);
                }
            }
        }
        Ok(())
    }

    /// Replaces the stored fields of the client whose identifier is `c.id`,
    /// keeping its creation time and setting its update time to `now`.
    pub fn update_client(&mut self, c: Client, now: String) -> (r: Result<(), StoreError>)
        requires
            old(self).wf(),
        ensures
            final(self).wf(),
            final(self).trades@ == old(self).trades@,
            final(self).letters@ == old(self).letters@,
            final(self).next_trade_id == old(self).next_trade_id,
            final(self).next_letter_id == old(self).next_letter_id,
            !has_client(old(self).clients@, c.id@) <==> r is Err,
            r is Err ==> r == Err::<(), StoreError>(StoreError::NotFound { entity: Entity::Clients })
                && final(self).clients@ == old(self).clients@,
            r is Ok ==> exists|i: int|
                {
                    &&& 0 <= i < old(self).clients@.len()
                    &&& old(self).clients@[i].client.id@ == c.id@
                    &&& final(self).clients@ == old(self).clients@.update(i, final(self).clients@[i])
                    &&& final(self).clients@[i].client == c
                    &&& final(self).clients@[i].created_at == old(self).clients@[i].created_at
                    &&& final(self).clients@[i].updated_at@ == now@
                },
    {
        match self.find_client(&c.id) {
            None => Err(StoreError::NotFound { entity: Entity::Clients }),
            Some(i) => {
                let ghost before = self.clients@;
                let created_at = self.clients[i].created_at.clone();
                let row = ClientRow { client: c, created_at, updated_at: now };
                self.clients.set(i, row);
                proof {
                    assert(self.clients@ == before.update(i as int, self.clients@[i as int]));
                    assert forall|j: int| 0 <= j < self.clients@.len() implies (#[trigger] self.clients@[j]).client.id@
                        == before[j].client.id@ by {}
                    assert forall|k: int| 0 <= k < self.trades@.len() implies has_client(
                        self.clients@,
                        (#[trigger] self.trades@[k]).client_id@,
                    ) by {
                        let x = choose|x: int| 0 <= x < before.len() && before[x].client.id@ == self.trades@[k].client_id@;
                        assert(self.clients@[x].client.id@ == before[x].client.id@);
                    }
                    assert forall|k: int| 0 <= k < self.letters@.len() implies has_client(
                        self.clients@,
                        (#[trigger] self.letters@[k]).client_id@,
                    ) by {
                        let x = choose|x: int| 0 <= x < before.len() && before[x].client.id@ == self.letters@[k].client_id@;
                        assert(self.clients@[x].client.id@ == before[x].client.id@);
                    }
                    assert forall|a: int, b: int| 0 <= a < b < self.clients@.len() implies self.clients@[a].client.id@
                        != self.clients@[b].client.id@ by {
                        assert(self.clients@[a].client.id@ == before[a].client.id@);
                        assert(self.clients@[b].client.id@ == before[b].client.id@);
                    }
                }
                Ok(())
            },
        }
    }

    /// Up to `limit` clients starting at position `offset`, in insertion
    /// order, and the number of all stored clients.
    pub fn list_clients(&self, offset: usize, limit: usize) -> (r: ClientList)
        ensures
            r.total == self.clients@.len(),
            r.items@.len() == page_len(self.clients@.len() as int, offset as int, limit as int),
            forall|k: int|
                0 <= k < r.items@.len() ==> same_client(
                    #[trigger] r.items@[k],
                    self.clients@[offset + k].client,
                ),
    {
        let n = self.clients.len();
        let start = if offset < n {
            offset
        } else {
            n
        };
        let end = if limit < n - start {
            start + limit
        } else {
            n
        };
        let mut items: Vec<Client> = Vec::new();
        let mut i: usize = start;
        while i < end
            invariant
                start <= i <= end <= n,
                n == self.clients@.len(),
                start == offset || start == n,
                items@.len() == i - start,
                forall|k: int|
                    0 <= k < items@.len() ==> same_client(
                        #[trigger] items@[k],
                        self.clients@[start + k].client,
                    ),
            decreases end - i,
        {
            items.push(self.clients[i].client.copy());
            i = i + 1;
        }
        ClientList { items, total: n }
    }

    /// Records a trade for an existing client, created at `now`, with
    /// documented defaults in the fields `n` leaves out; returns its
    /// identifier. Refused, with nothing changed, when the client does not
    /// exist or no identifier is left.
    pub fn insert_trade(&mut self, n: NewTrade, now: String) -> (r: Result<u64, StoreError>)
        requires
            old(self).wf(),
        ensures
            final(self).wf(),
            final(self).clients@ == old(self).clients@,
            final(self).letters@ == old(self).letters@,
            final(self).next_letter_id == old(self).next_letter_id,
            !has_client(old(self).clients@, n.client_id@) ==> r == Err::<u64, StoreError>(
                StoreError::IntegrityViolation {
                    entity: Entity::Trades,
                    constraint: Constraint::ForeignKey,
                },
            ),
            has_client(old(self).clients@, n.client_id@) && old(self).next_trade_id == u64::MAX
                ==> r == Err::<u64, StoreError>(StoreError::IdsExhausted { entity: Entity::Trades }),
            r is Err ==> final(self).trades@ == old(self).trades@ && final(self).next_trade_id
                == old(self).next_trade_id,
            r is Ok <==> has_client(old(self).clients@, n.client_id@) && old(self).next_trade_id
                < u64::MAX,
            r is Ok ==> {
                &&& r->Ok_0 == old(self).next_trade_id
                &&& final(self).next_trade_id == old(self).next_trade_id + 1
                &&& final(self).trades@.len() == old(self).trades@.len() + 1
                &&& final(self).trades@.drop_last() == old(self).trades@
                &&& trade_from_new(final(self).trades@.last(), n, r->Ok_0, now@)
            },
    {
        match self.find_client(&n.client_id) {
            None => {
                return Err(
                    StoreError::IntegrityViolation {
                        entity: Entity::Trades,
                        constraint: Constraint::ForeignKey,
                    },
                );
            },
            Some(ci) => {
                if self.next_trade_id == u64::MAX {
                    return Err(StoreError::IdsExhausted { entity: Entity::Trades });
                }
                let id = self.next_trade_id;
                let ghost before = self.trades@;
                let t = Trade::from_new(n, id, now);
                self.trades.push(t);
                self.next_trade_id = id + 1;
                proof {
                    assert(self.trades@.drop_last() =~= before);
                    assert(self.clients@[ci as int].client.id@ == self.trades@.last().client_id@);
                    assert forall|k: int| 0 <= k < self.trades@.len() implies has_client(
                        self.clients@,
                        (#[trigger] self.trades@[k]).client_id@,
                    ) by {
                        if k < before.len() {
                            assert(self.trades@[k] == before[k]);
                        }
                    }
                    assert forall|a: int, b: int| 0 <= a < b < self.trades@.len() implies self.trades@[a].id
                        < self.trades@[b].id by {
                        assert(self.trades@[a] == before[a]);
                        if b < before.len() {
                            assert(self.trades@[b] == before[b]);
                        }
                    }
                    assert forall|k: int| 0 <= k < self.trades@.len() implies (#[trigger] self.trades@[k]).id
                        < self.next_trade_id by {
                        if k < before.len() {
                            assert(self.trades@[k] == before[k]);
                        }
                    }
                }
                Ok(id)
            },
        }
    }

    /// Records a suitability letter for an existing client, created and
    /// updated at `now`, with status "draft" unless `n` gives one; returns its
    /// identifier. Refused, with nothing changed, when the client does not
    /// exist or no identifier is left.
    pub fn insert_letter(&mut self, n: NewLetter, now: String) -> (r: Result<u64, StoreError>)
        requires
            old(self).wf(),
        ensures
            final(self).wf(),
            final(self).clients@ == old(self).clients@,
            final(self).trades@ == old(self).trades@,
            final(self).next_trade_id == old(self).next_trade_id,
            !has_client(old(self).clients@, n.client_id@) ==> r == Err::<u64, StoreError>(
                StoreError::IntegrityViolation {
                    entity: Entity::SuitabilityLetters,
                    constraint: Constraint::ForeignKey,
                },
            ),
            has_client(old(self).clients@, n.client_id@) && old(self).next_letter_id == u64::MAX
                ==> r == Err::<u64, StoreError>(
                StoreError::IdsExhausted { entity: Entity::SuitabilityLetters },
            ),
            r is Err ==> final(self).letters@ == old(self).letters@ && final(self).next_letter_id
                == old(self).next_letter_id,
            r is Ok <==> has_client(old(self).clients@, n.client_id@) && old(self).next_letter_id
                < u64::MAX,
            r is Ok ==> {
                &&& r->Ok_0 == old(self).next_letter_id
                &&& final(self).next_letter_id == old(self).next_letter_id + 1
                &&& final(self).letters@.len() == old(self).letters@.len() + 1
                &&& final(self).letters@.drop_last() == old(self).letters@
                &&& letter_from_new(final(self).letters@.last(), n, r->Ok_0, now@)
            },
    {
        match self.find_client(&n.client_id) {
            None => {
                return Err(
                    StoreError::IntegrityViolation {
                        entity: Entity::SuitabilityLetters,
                        constraint: Constraint::ForeignKey,
                    },
                );
            },
            Some(ci) => {
                if self.next_letter_id == u64::MAX {
                    return Err(StoreError::IdsExhausted { entity: Entity::SuitabilityLetters });
                }
                let id = self.next_letter_id;
                let ghost before = self.letters@;
                let l = SuitabilityLetter::from_new(n, id, now);
                self.letters.push(l);
                self.next_letter_id = id + 1;
                proof {
                    assert(self.letters@.drop_last() =~= before);
                    assert(self.clients@[ci as int].client.id@ == self.letters@.last().client_id@);
                    assert forall|k: int| 0 <= k < self.letters@.len() implies has_client(
                        self.clients@,
                        (#[trigger] self.letters@[k]).client_id@,
                    ) by {
                        if k < before.len() {
                            assert(self.letters@[k] == before[k]);
                        }
                    }
                    assert forall|a: int, b: int| 0 <= a < b < self.letters@.len() implies self.letters@[a].id
                        < self.letters@[b].id by {
                        assert(self.letters@[a] == before[a]);
                        if b < before.len() {
                            assert(self.letters@[b] == before[b]);
                        }
                    }
                    assert forall|k: int| 0 <= k < self.letters@.len() implies (#[trigger] self.letters@[k]).id
                        < self.next_letter_id by {
                        if k < before.len() {
                            assert(self.letters@[k] == before[k]);
                        }
                    }
                }
                Ok(id)
            },
        }
    }
}

/// Size of the window of at most `limit` rows starting at `offset` in a table
/// of `n` rows.
pub open spec fn page_len(n: int, offset: int, limit: int) -> int {
    if offset >= n {
        0
    } else if limit < n - offset {
        limit
    } else {
        n - offset
    }
}

} // verus!
