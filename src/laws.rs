use crate::engine::built;
use crate::services::{StoreModel, next_counter, handle_valid, with_key, counted};
use crate::types::{ApplicationKey, AttestationCertificate};
use vstd::prelude::*;

verus! {

/// The store after the keys of `keys` are registered, in order.
pub open spec fn registered(m: StoreModel, keys: Seq<ApplicationKey>) -> StoreModel
    decreases keys.len(),
{
    if keys.len() == 0 {
        m
    } else {
        with_key(registered(m, keys.drop_last()), keys.last())
    }
}

/// The store after `n` ceremonies for `application` have taken their counter values.
pub open spec fn counted_times(m: StoreModel, application: Seq<u8>, n: nat) -> StoreModel
    decreases n,
{
    if n == 0 {
        m
    } else {
        counted(counted_times(m, application, (n - 1) as nat), application)
    }
}

/// A handle that registration stored for an application selects its key, and
/// keeps doing so through later registrations and authentications. The
/// challenge of the registration plays no part in this.
pub proof fn lemma_registered_handle_stays_valid(
    m: StoreModel,
    key: ApplicationKey,
    later: ApplicationKey,
    counted_application: Seq<u8>,
)
    ensures
        handle_valid(with_key(m, key), key.application@, key.handle@),
        with_key(m, key).keys[(key.application@, key.handle@)] == key.key,
        handle_valid(m, key.application@, key.handle@) ==> handle_valid(
            with_key(m, later),
            key.application@,
            key.handle@,
        ),
        handle_valid(m, key.application@, key.handle@) ==> handle_valid(
            counted(m, counted_application),
            key.application@,
            key.handle@,
        ),
{
}

/// A handle that no registration under an application returned, and that was
/// not valid for it before, is not valid for it after those registrations:
/// a handle registered for another application does not resolve.
pub proof fn lemma_unregistered_handle_invalid(
    m: StoreModel,
    keys: Seq<ApplicationKey>,
    application: Seq<u8>,
    handle: Seq<u8>,
)
    requires
        !handle_valid(m, application, handle),
        forall|i: int|
            0 <= i < keys.len() ==> !(keys[i].application@ == application && keys[i].handle@
                == handle),
    ensures
        !handle_valid(registered(m, keys), application, handle),
    decreases keys.len(),
{
    if keys.len() > 0 {
        lemma_unregistered_handle_invalid(m, keys.drop_last(), application, handle);
    }
}

/// For an application never counted, the ceremonies that take counter values
/// get 0, 1, 2, ... in order.
pub proof fn lemma_counter_sequence(m: StoreModel, application: Seq<u8>, n: nat)
    requires
        !m.counters.contains_key(application),
        n <= u32::MAX,
    ensures
        next_counter(counted_times(m, application, n).counters, application) == n,
    decreases n,
{
    if n > 0 {
        lemma_counter_sequence(m, application, (n - 1) as nat);
    }
}

/// Building the engine a second time, on a store whose certificate slot is as
/// the first successful build left it, succeeds when the store is reliable and
/// yields the certificate of the first build.
pub proof fn lemma_attestation_reused(
    before_first: StoreModel,
    after_first: StoreModel,
    first: AttestationCertificate,
    before_second: StoreModel,
    after_second: StoreModel,
    second: AttestationCertificate,
    second_ok: bool,
    reliable: bool,
)
    requires
        built(before_first, reliable, true, first, after_first),
        before_second.attestation == after_first.attestation,
        built(before_second, reliable, second_ok, second, after_second),
        reliable,
    ensures
        second_ok,
        second == first,
        after_second.attestation == Some(first),
{
}

} // verus!
