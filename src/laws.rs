//! What holds of every run of the directory, proved over its state model.
use vstd::prelude::*;

use crate::allocator::IdAllocator;
use crate::error::RegistryError;
use crate::registry::{signer, AccountId, Event, ModuleState, Origin, Registry};

verus! {

/// Both operations that change the directory keep it well formed.
pub proof fn lemma_operations_preserve_wf(
    s: ModuleState,
    origin: Origin,
    validator: AccountId,
    uid: u64,
)
    requires
        s.wf(),
    ensures
        s.after_new_registry(origin, validator).0.wf(),
        s.after_finish_mint(origin, uid).0.wf(),
{
}

/// A uid returned by `new_registry` is above every uid already recorded, so a
/// new registry never overwrites an old one, and the new registry starts with
/// asset nonce 0.
pub proof fn lemma_new_uid_is_fresh(s: ModuleState, origin: Origin, validator: AccountId)
    requires
        s.wf(),
    ensures
        s.after_new_registry(origin, validator).1 matches Ok(uid) ==> {
            &&& forall|old_uid: u64| #[trigger]
                s.registries.contains_key(old_uid) ==> old_uid < uid
            &&& !s.registries.contains_key(uid)
            &&& s.after_new_registry(origin, validator).0.registries[uid] == (Registry {
                validator,
                asset_nonce: IdAllocator { next: 0 },
            })
        },
{
}

/// Of two successive successful calls of `new_registry`, the second returns
/// the larger uid: uids are distinct and increase in order of creation.
pub proof fn lemma_successive_uids_increase(
    s: ModuleState,
    origin1: Origin,
    validator1: AccountId,
    origin2: Origin,
    validator2: AccountId,
)
    requires
        s.wf(),
    ensures
        ({
            let (s1, r1) = s.after_new_registry(origin1, validator1);
            let (s2, r2) = s1.after_new_registry(origin2, validator2);
            match (r1, r2) {
                (Ok(uid1), Ok(uid2)) => uid1 < uid2,
                _ => true,
            }
        }),
{
}

/// A signed caller who is not the validator recorded for `uid` cannot finish
/// a mint there: the call fails with `Authorization` and changes nothing, the
/// asset nonce included.
pub proof fn lemma_only_validator_finishes(s: ModuleState, caller: AccountId, uid: u64)
    requires
        s.validator_of(uid) matches Some(v) && v != caller,
    ensures
        s.after_finish_mint(Origin::Signed(caller), uid) == (s, Err::<u64, RegistryError>(
            RegistryError::Authorization,
        )),
{
}

/// A successful `finish_mint` returns the registry's asset nonce and
/// increases it by exactly one; the validator, every other registry and the
/// uid counter stay as they were. A failed one changes nothing.
pub proof fn lemma_finish_mint_advances_nonce(s: ModuleState, origin: Origin, uid: u64)
    ensures
        ({
            let (s1, r) = s.after_finish_mint(origin, uid);
            match r {
                Ok(asset_id) => {
                    &&& s.registries.contains_key(uid)
                    &&& asset_id == s.registries[uid].asset_nonce.next
                    &&& s1.registries.contains_key(uid)
                    &&& s1.registries[uid].asset_nonce.next == asset_id + 1
                    &&& s1.registries[uid].validator == s.registries[uid].validator
                    &&& s1.next_uid == s.next_uid
                    &&& s1.registries.dom() == s.registries.dom()
                    &&& forall|other: u64| #[trigger]
                        s.registries.contains_key(other) && other != uid ==> s1.registries[other]
                            == s.registries[other]
                },
                Err(_) => s1 == s,
            }
        }),
{
}

/// `new_registry` by a signed caller fails with `Overflow` exactly when the
/// uid counter stands at the largest `u64`, and `finish_mint` by the
/// registry's validator exactly when that registry's asset nonce does; a
/// failed call leaves every counter as it was.
pub proof fn lemma_overflow_exactly_at_max(
    s: ModuleState,
    creator: AccountId,
    validator: AccountId,
    uid: u64,
)
    ensures
        (s.after_new_registry(Origin::Signed(creator), validator).1 == Err::<u64, RegistryError>(
            RegistryError::Overflow,
        )) <==> s.next_uid == u64::MAX,
        s.after_new_registry(Origin::Signed(creator), validator).1 is Err ==> s.after_new_registry(
            Origin::Signed(creator),
            validator,
        ).0 == s,
        s.validator_of(uid) == Some(validator) ==> ((s.after_finish_mint(
            Origin::Signed(validator),
            uid,
        ).1 == Err::<u64, RegistryError>(RegistryError::Overflow)) <==> s.registries[uid].asset_nonce.next
            == u64::MAX),
        s.after_finish_mint(Origin::Signed(validator), uid).1 is Err ==> s.after_finish_mint(
            Origin::Signed(validator),
            uid,
        ).0 == s,
{
}

/// Each successful operation appends exactly one event, which records what
/// it did; a failed one appends none.
pub proof fn lemma_one_event_per_success(
    s: ModuleState,
    origin: Origin,
    validator: AccountId,
    uid: u64,
)
    ensures
        ({
            let (s1, r) = s.after_new_registry(origin, validator);
            match r {
                Ok(new_uid) => s1.events == s.events.push(
                    Event::NewRegistry { creator: signer(origin)->Some_0, uid: new_uid },
                ),
                Err(_) => s1.events == s.events,
            }
        }),
        ({
            let (s1, r) = s.after_finish_mint(origin, uid);
            match r {
                Ok(asset_id) => s1.events == s.events.push(Event::MintNft { uid, asset_id }),
                Err(_) => s1.events == s.events,
            }
        }),
{
}

} // verus!
