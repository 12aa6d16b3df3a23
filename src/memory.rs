use crate::services::{StoreModel, SecretStore};
use crate::types::{
    ApplicationParameter, KeyHandle, Counter, Key, ApplicationKey, AttestationCertificate, IoError,
};
use vstd::prelude::*;

verus! {

/// The keys that a log of registrations leaves: a later entry for the same
/// (application, handle) replaces an earlier one.
pub open spec fn key_map(log: Seq<ApplicationKey>) -> Map<(Seq<u8>, Seq<u8>), Key>
    decreases log.len(),
{
    if log.len() == 0 {
        Map::empty()
    } else {
        key_map(log.drop_last()).insert(
            (log.last().application@, log.last().handle@),
            log.last().key,
        )
    }
}

/// The counters that a table of (application, last value) entries holds; a
/// later entry for the same application replaces an earlier one.
pub open spec fn counter_map(table: Seq<(ApplicationParameter, Counter)>) -> Map<Seq<u8>, Counter>
    decreases table.len(),
{
    if table.len() == 0 {
        Map::empty()
    } else {
        counter_map(table.drop_last()).insert(table.last().0@, table.last().1)
    }
}

proof fn lemma_key_found(log: Seq<ApplicationKey>, i: int, id: (Seq<u8>, Seq<u8>))
    requires
        0 <= i < log.len(),
        (log[i].application@, log[i].handle@) == id,
        forall|j: int| i < j < log.len() ==> (log[j].application@, log[j].handle@) != id,
    ensures
        key_map(log).contains_key(id),
        key_map(log)[id] == log[i].key,
    decreases log.len(),
{
    if i < log.len() - 1 {
        lemma_key_found(log.drop_last(), i, id);
    }
}

proof fn lemma_key_absent(log: Seq<ApplicationKey>, id: (Seq<u8>, Seq<u8>))
    requires
        forall|j: int| 0 <= j < log.len() ==> (log[j].application@, log[j].handle@) != id,
    ensures
        !key_map(log).contains_key(id),
    decreases log.len(),
{
    if log.len() > 0 {
        lemma_key_absent(log.drop_last(), id);
    }
}

proof fn lemma_counter_found(table: Seq<(ApplicationParameter, Counter)>, i: int, a: Seq<u8>)
    requires
        0 <= i < table.len(),
        table[i].0@ == a,
        forall|j: int| i < j < table.len() ==> table[j].0@ != a,
    ensures
        counter_map(table).contains_key(a),
        counter_map(table)[a] == table[i].1,
    decreases table.len(),
{
    if i < table.len() - 1 {
        lemma_counter_found(table.drop_last(), i, a);
    }
}

proof fn lemma_counter_absent(table: Seq<(ApplicationParameter, Counter)>, a: Seq<u8>)
    requires
        forall|j: int| 0 <= j < table.len() ==> table[j].0@ != a,
    ensures
        !counter_map(table).contains_key(a),
    decreases table.len(),
{
    if table.len() > 0 {
        lemma_counter_absent(table.drop_last(), a);
    }
}

proof fn lemma_counter_update(
    table: Seq<(ApplicationParameter, Counter)>,
    i: int,
    entry: (ApplicationParameter, Counter),
)
    requires
        0 <= i < table.len(),
        table[i].0@ == entry.0@,
        forall|j: int| i < j < table.len() ==> table[j].0@ != entry.0@,
    ensures
        counter_map(table.update(i, entry)) == counter_map(table).insert(entry.0@, entry.1),
    decreases table.len(),
{
    let t2 = table.update(i, entry);
    if i == table.len() - 1 {
        assert(t2.drop_last() == table.drop_last());
        assert(counter_map(t2) =~= counter_map(table).insert(entry.0@, entry.1));
    } else {
        assert(t2.drop_last() == table.drop_last().update(i, entry));
        lemma_counter_update(table.drop_last(), i, entry);
        assert(counter_map(t2) =~= counter_map(table).insert(entry.0@, entry.1));
    }
}

/// Whether two 32-byte strings are equal.
fn same_bytes(a: &[u8; 32], b: &[u8; 32]) -> (r: bool)
    ensures
        r == (a@ == b@),
{
    let mut i: usize = 0;
    while i < 32
        invariant
            i <= 32,
            a@.len() == 32,
            b@.len() == 32,
            forall|j: int| 0 <= j < i ==> a@[j] == b@[j],
        decreases 32 - i,
    {
        if a[i] != b[i] {
            return false;
        }
        i = i + 1;
    }
    assert(a@ =~= b@);
    true
}

/// A secret store that lives in memory. It keeps every credential of an
/// application, each under its own handle.
/// Entries are held in vectors and found by comparing their bytes, so that
/// every lookup is proved against the store's model.
pub struct InMemoryStorage {
    application_keys: Vec<ApplicationKey>,
    attestation_certificate: Option<AttestationCertificate>,
    counters: Vec<(ApplicationParameter, Counter)>,
}

impl InMemoryStorage {
    /// An empty store: no keys, no counters, no attestation certificate.
    pub fn new() -> (r: InMemoryStorage)
        ensures
            r.model().keys.is_empty(),
            r.model().counters.is_empty(),
            r.model().attestation is None,
            r.reliable(),
    {
        let r = InMemoryStorage {
            application_keys: Vec::new(),
            attestation_certificate: None,
            counters: Vec::new(),
        };
        assert(r.model().keys =~= Map::empty());
        assert(r.model().counters =~= Map::empty());
        r
    }

    /// The index of the last entry of the application's counter, if any.
    fn find_counter(&self, application: &ApplicationParameter) -> (r: Option<usize>)
        ensures
            r is Some ==> ({
                let i = r->Some_0 as int;
                &&& 0 <= i < self.counters@.len()
                &&& self.counters@[i].0@ == application@
                &&& forall|j: int| i < j < self.counters@.len() ==> self.counters@[j].0@ != application@
            }),
            r is None ==> forall|j: int|
                0 <= j < self.counters@.len() ==> self.counters@[j].0@ != application@,
    {
        let mut i: usize = self.counters.len();
        while i > 0
            invariant
                i <= self.counters@.len(),
                forall|j: int| i <= j < self.counters@.len() ==> self.counters@[j].0@ != application@,
            decreases i,
        {
            i = i - 1;
            if same_bytes(&self.counters[i].0.0, &application.0) {
                return Some(i);
            }
        }
        None
    }
}

impl SecretStore for InMemoryStorage {
    closed spec fn model(&self) -> StoreModel {
        StoreModel {
            keys: key_map(self.application_keys@),
            counters: counter_map(self.counters@),
            attestation: self.attestation_certificate,
        }
    }

    open spec fn reliable(&self) -> bool {
        true
    }

    open spec fn storage_error(&self) -> IoError {
        IoError::Storage
    }

    fn add_application_key(&mut self, key: &ApplicationKey) -> (r: Result<(), IoError>) {
        let ghost before = self.application_keys@;
        self.application_keys.push(key.clone());
        assert(self.application_keys@.drop_last() == before);
        Ok(())
    }

    fn get_attestation_certificate(&self) -> (r: Result<Option<AttestationCertificate>, IoError>) {
        match &self.attestation_certificate {
            Some(c) => Ok(Some(c.clone())),
            None => Ok(None),
        }
    }

    fn get_then_increment_counter(&mut self, application: &ApplicationParameter) -> (r: Result<
        Counter,
        IoError,
    >) {
        match self.find_counter(application) {
            Some(i) => {
                let last = self.counters[i].1;
                if last == u32::MAX {
                    proof {
                        lemma_counter_found(self.counters@, i as int, application@);
                    }
                    return Err(IoError::CounterExhausted);
                }
                let value = last + 1;
                proof {
                    lemma_counter_found(self.counters@, i as int, application@);
                    lemma_counter_update(self.counters@, i as int, (*application, value));
                }
                self.counters.set(i, (*application, value));
                Ok(value)
            },
            None => {
                let ghost before = self.counters@;
                proof {
                    lemma_counter_absent(before, application@);
                }
                self.counters.push((*application, 0));
                assert(self.counters@.drop_last() == before);
                Ok(0)
            },
        }
    }

    fn retrieve_application_key(
        &self,
        application: &ApplicationParameter,
        handle: &KeyHandle,
    ) -> (r: Result<Option<ApplicationKey>, IoError>) {
        let mut i: usize = self.application_keys.len();
        while i > 0
            invariant
                i <= self.application_keys@.len(),
                forall|j: int|
                    i <= j < self.application_keys@.len() ==> (
                    self.application_keys@[j].application@,
                    self.application_keys@[j].handle@,
                ) != (application@, handle@),
            decreases i,
        {
            i = i - 1;
            let entry = &self.application_keys[i];
            if same_bytes(&entry.application.0, &application.0) && same_bytes(
                &entry.handle.0,
                &handle.0,
            ) {
                proof {
                    lemma_key_found(self.application_keys@, i as int, (application@, handle@));
                }
                return Ok(Some(entry.clone()));
            }
        }
        proof {
            lemma_key_absent(self.application_keys@, (application@, handle@));
        }
        Ok(None)
    }

    fn set_attestation_certificate(&mut self, certificate: &AttestationCertificate) -> (r: Result<
        (),
        IoError,
    >) {
        self.attestation_certificate = Some(certificate.clone());
        Ok(())
    }
}

} // verus!
