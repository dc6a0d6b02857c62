use vstd::prelude::*;

use crate::address::Address;
use crate::auth::{AuthContext, Grant, SmokeError};
use crate::storage::InstanceStorage;

verus! {

/// What a read of `addr` reports over `records`: its value, or 0 where it
/// has none.
pub open spec fn stored_or_zero(records: Map<Seq<u8>, u32>, addr: Seq<u8>) -> u32 {
    if records.contains_key(addr) {
        records[addr]
    } else {
        0
    }
}

/// Whether `grants` hold the proof that `addr` itself authorized the write
/// of `value` under `addr`.
pub open spec fn authorizes_write(grants: Set<Grant>, addr: Seq<u8>, value: u32) -> bool {
    grants.contains((addr, addr, value))
}

/// The environment an invocation runs in: the instance's storage and the
/// authorizations that came with the invocation.
pub struct Env {
    storage: InstanceStorage,
    auths: AuthContext,
}

impl Env {
    /// The storage's own invariant holds.
    pub closed spec fn wf(&self) -> bool {
        self.storage.wf()
    }

    /// The records held in the instance's storage.
    pub closed spec fn records(&self) -> Map<Seq<u8>, u32> {
        self.storage@
    }

    /// The authorizations carried by the current invocation.
    pub closed spec fn grants(&self) -> Set<Grant> {
        self.auths@
    }

    /// A fresh instance: no records, no authorizations.
    pub fn new() -> (r: Env)
        ensures
            r.wf(),
            r.records() == Map::<Seq<u8>, u32>::empty(),
            r.grants() == Set::<Grant>::empty(),
    {
        Env { storage: InstanceStorage::new(), auths: AuthContext::new() }
    }

    /// An invocation over existing storage that carries no authorizations yet.
    pub fn with_storage(storage: InstanceStorage) -> (r: Env)
        requires
            storage.wf(),
        ensures
            r.wf(),
            r.records() == storage@,
            r.grants() == Set::<Grant>::empty(),
    {
        Env { storage, auths: AuthContext::new() }
    }

    /// The instance's storage.
    pub fn storage(&self) -> (r: &InstanceStorage)
        requires
            self.wf(),
        ensures
            r.wf(),
            r@ == self.records(),
    {
        &self.storage
    }

    /// Attaches to the invocation the proof that `signer` authorized the
    /// write of `value` under `addr`.
    pub fn authorize(&mut self, signer: &Address, addr: &Address, value: u32)
        requires
            old(self).wf(),
        ensures
            final(self).wf(),
            final(self).records() == old(self).records(),
            final(self).grants() == old(self).grants().insert((signer@, addr@, value)),
    {
        self.auths.grant(signer, addr, value);
    }
}

/// The three entry points of the program.
pub struct SmokeContract;

impl SmokeContract {
    /// `n + 1`, held at `u32::MAX` instead of wrapping. Needs no
    /// authorization and touches no state.
    pub fn no_auth_bump(n: u32) -> (r: u32)
        ensures
            n < u32::MAX ==> r == n + 1,
            n == u32::MAX ==> r == u32::MAX,
    {
        n.saturating_add(1)
    }

    /// Stores `value` under `addr`, provided `addr` authorized exactly this
    /// call; otherwise fails and leaves the storage as it was.
    pub fn write_with_address_auth(env: &mut Env, addr: &Address, value: u32) -> (r: Result<
        (),
        SmokeError,
    >)
        requires
            old(env).wf(),
        ensures
            final(env).wf(),
            final(env).grants() == old(env).grants(),
            r is Ok <==> authorizes_write(old(env).grants(), addr@, value),
            r is Ok ==> final(env).records() == old(env).records().insert(addr@, value),
            r is Err ==> r == Err::<(), SmokeError>(SmokeError::AuthorizationError)
                && final(env).records() == old(env).records(),
    {
        match env.auths.require_auth_for_args(addr, addr, value) {
            Ok(()) => {},
            Err(e) => {
                return Err(e);
            },
        }
        env.storage.set(addr, value);
        Ok(())
    }

    /// The value stored under `addr`, or 0 where nothing was ever stored.
    /// Anyone may read any identity's value.
    pub fn read_value(env: &Env, addr: &Address) -> (r: u32)
        requires
            env.wf(),
        ensures
            r == stored_or_zero(env.records(), addr@),
    {
        match env.storage.get(addr) {
            Some(v) => v,
            None => 0,
        }
    }
}

} // verus!
