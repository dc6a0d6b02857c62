use vstd::prelude::*;

use crate::address::Address;

verus! {

/// The one way a call can fail: the identity it names did not authorize it.
#[derive(Debug, Clone, Copy, PartialEq, Eq, Structural)]
pub enum SmokeError {
    AuthorizationError,
}

/// What one authorization says: `signer` sanctioned the write of `value`
/// under `addr`, with exactly these arguments.
pub type Grant = (Seq<u8>, Seq<u8>, u32);

/// The authorizations that the host has verified for the current invocation.
pub struct AuthContext {
    grants: Vec<(Address, Address, u32)>,
}

impl View for AuthContext {
    type V = Set<Grant>;

    closed spec fn view(&self) -> Set<Grant> {
        Set::new(
            |g: Grant|
                exists|i: int|
                    0 <= i < self.grants@.len() && #[trigger] self.grants@[i].0@ == g.0
                        && self.grants@[i].1@ == g.1 && self.grants@[i].2 == g.2,
        )
    }
}

impl AuthContext {
    /// A context in which nobody has authorized anything.
    pub fn new() -> (r: AuthContext)
        ensures
            r@ == Set::<Grant>::empty(),
    {
        let r = AuthContext { grants: Vec::new() };
        proof {
            assert(r@ =~= Set::<Grant>::empty());
        }
        r
    }

    /// Adds the proof that `signer` authorized the write of `value` under `addr`.
    pub fn grant(&mut self, signer: &Address, addr: &Address, value: u32)
        ensures
            final(self)@ == old(self)@.insert((signer@, addr@, value)),
    {
        let ghost before = self.grants@;
        self.grants.push((signer.duplicate(), addr.duplicate(), value));
        proof {
            let n = before.len() as int;
            assert(self.grants@[n].0@ == signer@);
            assert forall|g: Grant| #[trigger] self@.contains(g) implies old(self)@.insert(
                (signer@, addr@, value),
            ).contains(g) by {
                let i = choose|i: int|
                    0 <= i < self.grants@.len() && #[trigger] self.grants@[i].0@ == g.0
                        && self.grants@[i].1@ == g.1 && self.grants@[i].2 == g.2;
                if i < n {
                    assert(before[i].0@ == g.0);
                }
            }
            assert forall|g: Grant| #[trigger] old(self)@.contains(g) implies self@.contains(g) by {
                let i = choose|i: int|
                    0 <= i < before.len() && #[trigger] before[i].0@ == g.0 && before[i].1@ == g.1
                        && before[i].2 == g.2;
                assert(self.grants@[i].0@ == g.0);
            }
            assert(self@ =~= old(self)@.insert((signer@, addr@, value)));
        }
    }

    /// Succeeds exactly when `signer` authorized the write of `value` under
    /// `addr` in this invocation.
    pub fn require_auth_for_args(&self, signer: &Address, addr: &Address, value: u32) -> (r:
        Result<(), SmokeError>)
        ensures
            r is Ok <==> self@.contains((signer@, addr@, value)),
            r is Err ==> r == Err::<(), SmokeError>(SmokeError::AuthorizationError),
    {
        let mut i: usize = 0;
        while i < self.grants.len()
            invariant
                i <= self.grants@.len(),
                forall|j: int|
                    0 <= j < i ==> !(#[trigger] self.grants@[j].0@ == signer@ && self.grants@[j].1@
                        == addr@ && self.grants@[j].2 == value),
            decreases self.grants@.len() - i,
        {
            let g = &self.grants[i];
            if g.0.same_as(signer) && g.1.same_as(addr) && g.2 == value {
                proof {
                    assert(self@.contains((signer@, addr@, value)));
                }
                return Ok(());
            }
            i = i + 1;
        }
        Err(SmokeError::AuthorizationError)
    }
}

} // verus!
