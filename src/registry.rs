//! The registry directory and the two-phase mint handshake.
//!
//! A registry is created with a validator identity. Minting goes through
//! that validator: `mint` resolves it and describes the call to make, and the
//! validator, once satisfied, calls `finish_mint`, which alone allocates an
//! asset identifier.
use std::collections::HashMap;
use vstd::prelude::*;

use crate::allocator::{allocation, IdAllocator};
use crate::error::RegistryError;

verus! {

broadcast use vstd::std_specs::hash::group_hash_axioms;

/// An identity that signs calls and that can be recorded as a validator.
#[derive(Clone, Copy, Debug, PartialEq, Eq, Structural, Hash)]
pub struct AccountId(pub u64);

/// Where a call comes from: a signed identity, the privileged root, or no
/// one at all.
#[derive(Clone, Copy, Debug, PartialEq, Eq, Structural)]
pub enum Origin {
    Signed(AccountId),
    Root,
    Unsigned,
}

/// The identity that signed `origin`, if any.
pub open spec fn signer(origin: Origin) -> Option<AccountId> {
    match origin {
        Origin::Signed(who) => Some(who),
        _ => None,
    }
}

/// Returns the identity that signed `origin`, or `Authentication` when the
/// call is not signed.
pub fn ensure_signed(origin: Origin) -> (r: Result<AccountId, RegistryError>)
    ensures
        match signer(origin) {
            Some(who) => r == Ok::<AccountId, RegistryError>(who),
            None => r == Err::<AccountId, RegistryError>(RegistryError::Authentication),
        },
{
    match origin {
        Origin::Signed(who) => Ok(who),
        _ => Err(RegistryError::Authentication),
    }
}

/// One registry: its validator, fixed at creation, and the counter from
/// which its asset identifiers are drawn.
#[derive(Clone, Copy, Debug, PartialEq, Eq, Structural)]
pub struct Registry {
    pub validator: AccountId,
    pub asset_nonce: IdAllocator,
}

/// A notification of a successful change of state.
#[derive(Clone, Copy, Debug, PartialEq, Eq, Structural)]
pub enum Event {
    /// `creator` created the registry `uid`.
    NewRegistry { creator: AccountId, uid: u64 },
    /// The validator of registry `uid` finalised the mint of `asset_id`.
    MintNft { uid: u64, asset_id: u64 },
}

/// The call that a mint delegates to the registry's validator.
#[derive(Debug, PartialEq, Eq)]
pub struct ValidatorCall {
    /// Who asked for the mint; the call is made on their behalf.
    pub caller: AccountId,
    /// The validator recorded for the registry.
    pub target: AccountId,
    /// The bytes handed to the validator.
    pub payload: Vec<u8>,
    /// The amount transferred along with the call.
    pub value: u128,
    /// The most gas the validator may use.
    pub gas_limit: u64,
}

/// The state of the directory: the next registry uid, the registries by uid,
/// and every event emitted so far, oldest first.
pub ghost struct ModuleState {
    pub next_uid: u64,
    pub registries: Map<u64, Registry>,
    pub events: Seq<Event>,
}

impl ModuleState {
    /// The state before any registry exists.
    pub open spec fn initial() -> ModuleState {
        ModuleState { next_uid: 0, registries: Map::empty(), events: Seq::empty() }
    }

    /// Every recorded uid was handed out by the counter, so the counter
    /// stands above all of them.
    pub open spec fn wf(self) -> bool {
        forall|uid: u64| #[trigger] self.registries.contains_key(uid) ==> uid < self.next_uid
    }

    /// The validator recorded for `uid`, if a registry exists there.
    pub open spec fn validator_of(self, uid: u64) -> Option<AccountId> {
        if self.registries.contains_key(uid) {
            Some(self.registries[uid].validator)
        } else {
            None
        }
    }

    /// What `new_registry` does: the state after it and its result.
    pub open spec fn after_new_registry(self, origin: Origin, validator: AccountId) -> (
        ModuleState,
        Result<u64, RegistryError>,
    ) {
        match signer(origin) {
            None => (self, Err(RegistryError::Authentication)),
            Some(creator) => match allocation(self.next_uid) {
                None => (self, Err(RegistryError::Overflow)),
                Some(uid) => (
                    ModuleState {
                        next_uid: (uid + 1) as u64,
                        registries: self.registries.insert(
                            uid,
                            Registry { validator, asset_nonce: IdAllocator { next: 0 } },
                        ),
                        events: self.events.push(Event::NewRegistry { creator, uid }),
                    },
                    Ok(uid),
                ),
            },
        }
    }

    /// What `finish_mint` does: the state after it and its result.
    pub open spec fn after_finish_mint(self, origin: Origin, uid: u64) -> (
        ModuleState,
        Result<u64, RegistryError>,
    ) {
        match signer(origin) {
            None => (self, Err(RegistryError::Authentication)),
            Some(caller) => if !self.registries.contains_key(uid) {
                (self, Err(RegistryError::NotFound))
            } else if self.registries[uid].validator != caller {
                (self, Err(RegistryError::Authorization))
            } else {
                let reg = self.registries[uid];
                match allocation(reg.asset_nonce.next) {
                    None => (self, Err(RegistryError::Overflow)),
                    Some(asset_id) => (
                        ModuleState {
                            next_uid: self.next_uid,
                            registries: self.registries.insert(
                                uid,
                                Registry {
                                    validator: reg.validator,
                                    asset_nonce: IdAllocator { next: (asset_id + 1) as u64 },
                                },
                            ),
                            events: self.events.push(Event::MintNft { uid, asset_id }),
                        },
                        Ok(asset_id),
                    ),
                }
            },
        }
    }
}

/// The registry directory: the counter of registry uids, the registries by
/// uid, and the log of events.
pub struct Module {
    nonce: IdAllocator,
    validation_fn: HashMap<u64, Registry>,
    events: Vec<Event>,
}

impl View for Module {
    type V = ModuleState;

    closed spec fn view(&self) -> ModuleState {
        ModuleState {
            next_uid: self.nonce.next,
            registries: self.validation_fn@,
            events: self.events@,
        }
    }
}

impl Module {
    /// An empty directory, whose first registry gets uid 0.
    pub fn new() -> (r: Module)
        ensures
            r@ == ModuleState::initial(),
            r@.wf(),
    {
        let r = Module { nonce: IdAllocator::new(), validation_fn: HashMap::new(), events: Vec::new() };
        assert(r@.registries =~= Map::empty());
        assert(r@.events =~= Seq::empty());
        r
    }

    /// Creates a registry whose mints `validator` authorises, and returns its
    /// uid. Fails with `Authentication` on an unsigned origin and with
    /// `Overflow` when no uid is left; a failed call changes nothing.
    pub fn new_registry(&mut self, origin: Origin, validator: AccountId) -> (r: Result<
        u64,
        RegistryError,
    >)
        requires
            old(self)@.wf(),
        ensures
            (final(self)@, r) == old(self)@.after_new_registry(origin, validator),
            final(self)@.wf(),
    {
        let creator = match ensure_signed(origin) {
            Ok(who) => who,
            Err(e) => return Err(e),
        };
        let uid = match self.nonce.allocate_next() {
            Ok(uid) => uid,
            Err(e) => return Err(e),
        };
        self.validation_fn.insert(uid, Registry { validator, asset_nonce: IdAllocator::new() });
        self.deposit_event(Event::NewRegistry { creator, uid });
        Ok(uid)
    }

    /// Resolves the validator of registry `uid` and returns the call that
    /// delegates the mint to it, on behalf of the signer of `origin`. Fails
    /// with `Authentication` on an unsigned origin and with `NotFound` when
    /// no registry has that uid. The directory is not changed.
    pub fn mint(&self, origin: Origin, uid: u64, parameters: Vec<u8>, value: u128, gas_limit: u64) -> (r:
        Result<ValidatorCall, RegistryError>)
        ensures
            match signer(origin) {
                None => r == Err::<ValidatorCall, RegistryError>(RegistryError::Authentication),
                Some(caller) => match self@.validator_of(uid) {
                    None => r == Err::<ValidatorCall, RegistryError>(RegistryError::NotFound),
                    Some(target) => r matches Ok(call) && call.caller == caller && call.target
                        == target && call.payload@ == parameters@ && call.value == value
                        && call.gas_limit == gas_limit,
                },
            },
    {
        let sender = match ensure_signed(origin) {
            Ok(who) => who,
            Err(e) => return Err(e),
        };
        let validation_fn = match self.validator_of(uid) {
            Some(v) => v,
            None => return Err(RegistryError::NotFound),
        };
        Ok(ValidatorCall { caller: sender, target: validation_fn, payload: parameters, value, gas_limit })
    }

    /// Finalises a mint in registry `uid` and returns the new asset id, the
    /// registry's asset nonce before the call. Only the registry's validator
    /// may do so. Fails with `Authentication` on an unsigned origin, with
    /// `NotFound` when no registry has that uid, with `Authorization` when the
    /// signer is not its validator, and with `Overflow` when its nonce is
    /// exhausted; a failed call changes nothing.
    pub fn finish_mint(&mut self, origin: Origin, uid: u64) -> (r: Result<u64, RegistryError>)
        requires
            old(self)@.wf(),
        ensures
            (final(self)@, r) == old(self)@.after_finish_mint(origin, uid),
            final(self)@.wf(),
    {
        let sender = match ensure_signed(origin) {
            Ok(who) => who,
            Err(e) => return Err(e),
        };
        let mut reg = match self.validation_fn.get(&uid) {
            Some(reg) => *reg,
            None => return Err(RegistryError::NotFound),
        };
        if reg.validator != sender {
            return Err(RegistryError::Authorization);
        }
        let nft_uid = match reg.asset_nonce.allocate_next() {
            Ok(id) => id,
            Err(e) => return Err(e),
        };
        self.validation_fn.insert(uid, reg);
        self.deposit_event(Event::MintNft { uid, asset_id: nft_uid });
        Ok(nft_uid)
    }

    /// The validator recorded for registry `uid`, or `None` when no registry
    /// has that uid.
    pub fn validator_of(&self, uid: u64) -> (r: Option<AccountId>)
        ensures
            r == self@.validator_of(uid),
    {
        match self.validation_fn.get(&uid) {
            Some(reg) => Some(reg.validator),
            None => None,
        }
    }

    /// The uid that the next registry will get.
    pub fn next_uid(&self) -> (r: u64)
        ensures
            r == self@.next_uid,
    {
        self.nonce.peek()
    }

    /// The asset nonce of registry `uid`: the asset id that its next
    /// finalised mint will get. `None` when no registry has that uid.
    pub fn registry_nonce(&self, uid: u64) -> (r: Option<u64>)
        ensures
            r == (if self@.registries.contains_key(uid) {
                Some(self@.registries[uid].asset_nonce.next)
            } else {
                None
            }),
    {
        match self.validation_fn.get(&uid) {
            Some(reg) => Some(reg.asset_nonce.peek()),
            None => None,
        }
    }

    /// Every event emitted so far, oldest first.
    pub fn events(&self) -> (r: &Vec<Event>)
        ensures
            r@ == self@.events,
    {
        &self.events
    }

    /// Proof checks that a mint must pass before it is delegated; there are
    /// none yet, so every mint passes.
    pub fn validate_proofs() {
    }

    /// Appends `event` to the log.
    fn deposit_event(&mut self, event: Event)
        ensures
            final(self).nonce == old(self).nonce,
            final(self).validation_fn@ == old(self).validation_fn@,
            final(self).events@ == old(self).events@.push(event),
    {
        self.events.push(event);
    }
}

} // verus!
