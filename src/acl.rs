//! A model of the coprocessor's access-control table: who owns a handle, and
//! which accounts have been granted its use. The coprocessor keeps the real
//! table and is the only authority on ownership; this model states the rules
//! it enforces, and `AccessTable::apply` runs the grant requests that
//! `CoFHE::allow*` build against it, so a host or a test can see the effect a
//! request has. Grants are explicit and additive; only the current owner may
//! grant, revoke or transfer. Transient grants last until the end of the
//! current request.
use vstd::prelude::*;
use crate::codec::{Address, Word, same_address, same_word};
use crate::cofhe::CoFHEError;
use crate::cofhe_interfaces::{AccessRequest, Grantee};

verus! {

/// The owner recorded last for `h` in a log of ownership records.
pub open spec fn owner_in(log: Seq<(Word, Address)>, h: Word) -> Option<Address>
    decreases log.len(),
{
    if log.len() == 0 {
        None
    } else if log.last().0 == h {
        Some(log.last().1)
    } else {
        owner_in(log.drop_last(), h)
    }
}

/// Whether the last grant or revocation recorded for (h, a) in a log is a
/// grant.
pub open spec fn granted_in(log: Seq<(Word, Address, bool)>, h: Word, a: Address) -> bool
    decreases log.len(),
{
    if log.len() == 0 {
        false
    } else if log.last().0 == h && log.last().1 == a {
        log.last().2
    } else {
        granted_in(log.drop_last(), h, a)
    }
}

/// The account that a grant request is for, when sent by `caller`.
pub open spec fn grantee_account(g: Grantee, caller: Address) -> Address {
    match g {
        Grantee::Global => caller,
        Grantee::Account(a) => a,
        Grantee::Transient(a) => a,
    }
}

/// Owners and grants of handles.
pub struct AccessTable {
    owners: Vec<(Word, Address)>,
    grants: Vec<(Word, Address, bool)>,
    transient: Vec<(Word, Address, bool)>,
}

impl AccessTable {
    /// The owner of `h`, if `h` is known.
    pub closed spec fn owner(&self, h: Word) -> Option<Address> {
        owner_in(self.owners@, h)
    }

    /// Whether `a` may use `h`, by a lasting or a transient grant.
    pub closed spec fn allowed(&self, h: Word, a: Address) -> bool {
        granted_in(self.grants@, h, a) || granted_in(self.transient@, h, a)
    }

    /// Whether `a` may use `h` by a lasting grant.
    pub closed spec fn allowed_lasting(&self, h: Word, a: Address) -> bool {
        granted_in(self.grants@, h, a)
    }

    /// A table with no handle and no grant.
    pub fn new() -> (r: Self)
        ensures
            forall|h: Word| r.owner(h) is None,
            forall|h: Word, a: Address| !r.allowed(h, a),
    {
        AccessTable { owners: Vec::new(), grants: Vec::new(), transient: Vec::new() }
    }

    /// The owner of `handle`, if it is known.
    pub fn get_owner(&self, handle: &Word) -> (r: Option<Address>)
        ensures
            r == self.owner(*handle),
    {
        let mut i: usize = self.owners.len();
        proof {
            assert(self.owners@.subrange(0, i as int) =~= self.owners@);
        }
        while i > 0
            invariant
                i <= self.owners@.len(),
                owner_in(self.owners@, *handle) == owner_in(self.owners@.subrange(0, i as int), *handle),
            decreases i,
        {
            let ghost prefix = self.owners@.subrange(0, i as int);
            let (h, a) = &self.owners[i - 1];
            proof {
                assert(prefix.drop_last() =~= self.owners@.subrange(0, i - 1));
            }
            if same_word(h, handle) {
                return Some(*a);
            }
            i = i - 1;
        }
        proof {
            assert(self.owners@.subrange(0, 0) =~= Seq::<(Word, Address)>::empty());
        }
        None
    }

    /// Whether `account` may use `handle`. Grants are never implied: the owner
    /// itself is allowed only once granted.
    pub fn is_allowed(&self, handle: &Word, account: &Address) -> (r: bool)
        ensures
            r == self.allowed(*handle, *account),
    {
        granted(&self.grants, handle, account) || granted(&self.transient, handle, account)
    }

    /// Records `owner` as the owner of a new handle. A handle that is already
    /// known keeps its owner and is refused with `AccessDenied`.
    pub fn register(&mut self, handle: &Word, owner: &Address) -> (r: Result<(), CoFHEError>)
        ensures
            old(self).owner(*handle) is Some ==> (r == Err::<(), _>(CoFHEError::AccessDenied) && *final(self) == *old(self)),
            old(self).owner(*handle) is None ==> r is Ok && final(self).owner(*handle) == Some(
                *owner,
            ),
            forall|h: Word| h != *handle ==> final(self).owner(h) == old(self).owner(h),
            forall|h: Word, a: Address| final(self).allowed(h, a) == old(self).allowed(h, a),
    {
        if self.get_owner(handle).is_some() {
            return Err(CoFHEError::AccessDenied);
        }
        self.owners.push((*handle, *owner));
        proof {
            assert(self.owners@.drop_last() =~= old(self).owners@);
            assert forall|h: Word| h != *handle implies self.owner(h) == old(self).owner(h) by {
                assert(self.owners@.drop_last() =~= old(self).owners@);
            }
        }
        Ok(())
    }

    /// Grants `account` lasting use of `handle`; only the owner `caller` may.
    pub fn allow(&mut self, caller: &Address, handle: &Word, account: &Address) -> (r: Result<
        (),
        CoFHEError,
    >)
        ensures
            old(self).owner(*handle) != Some(*caller) ==> (r == Err::<(), _>(CoFHEError::AccessDenied) && *final(self) == *old(self)),
            old(self).owner(*handle) == Some(*caller) ==> r is Ok && final(self).allowed(
                *handle,
                *account,
            ),
            forall|h: Word| final(self).owner(h) == old(self).owner(h),
            forall|h: Word, a: Address|
                (h, a) != (*handle, *account) ==> final(self).allowed(h, a) == old(self).allowed(h, a),
    {
        if !self.is_owner(caller, handle) {
            return Err(CoFHEError::AccessDenied);
        }
        self.grants.push((*handle, *account, true));
        proof {
            assert(self.grants@.drop_last() =~= old(self).grants@);
        }
        Ok(())
    }

    /// Grants the submitting contract `caller` lasting use of its own
    /// `handle`: `allow(caller, handle, caller)`.
    pub fn allow_global(&mut self, caller: &Address, handle: &Word) -> (r: Result<(), CoFHEError>)
        ensures
            old(self).owner(*handle) != Some(*caller) ==> (r == Err::<(), _>(CoFHEError::AccessDenied) && *final(self) == *old(self)),
            old(self).owner(*handle) == Some(*caller) ==> r is Ok && final(self).allowed(
                *handle,
                *caller,
            ),
            forall|h: Word| final(self).owner(h) == old(self).owner(h),
            forall|h: Word, a: Address|
                (h, a) != (*handle, *caller) ==> final(self).allowed(h, a) == old(self).allowed(h, a),
    {
        self.allow(caller, handle, caller)
    }

    /// Grants `account` use of `handle` until the end of the current request;
    /// only the owner `caller` may.
    pub fn allow_transient(&mut self, caller: &Address, handle: &Word, account: &Address) -> (r:
        Result<(), CoFHEError>)
        ensures
            old(self).owner(*handle) != Some(*caller) ==> (r == Err::<(), _>(CoFHEError::AccessDenied) && *final(self) == *old(self)),
            old(self).owner(*handle) == Some(*caller) ==> r is Ok && final(self).allowed(
                *handle,
                *account,
            ),
            forall|h: Word| final(self).owner(h) == old(self).owner(h),
            forall|h: Word, a: Address| final(self).allowed_lasting(h, a) == old(self).allowed_lasting(h, a),
            forall|h: Word, a: Address|
                (h, a) != (*handle, *account) ==> final(self).allowed(h, a) == old(self).allowed(h, a),
    {
        if !self.is_owner(caller, handle) {
            return Err(CoFHEError::AccessDenied);
        }
        self.transient.push((*handle, *account, true));
        proof {
            assert(self.transient@.drop_last() =~= old(self).transient@);
        }
        Ok(())
    }

    /// Withdraws every grant of `handle` to `account`, lasting and transient;
    /// only the owner `caller` may.
    pub fn revoke(&mut self, caller: &Address, handle: &Word, account: &Address) -> (r: Result<
        (),
        CoFHEError,
    >)
        ensures
            old(self).owner(*handle) != Some(*caller) ==> (r == Err::<(), _>(CoFHEError::AccessDenied) && *final(self) == *old(self)),
            old(self).owner(*handle) == Some(*caller) ==> r is Ok && !final(self).allowed(
                *handle,
                *account,
            ),
            forall|h: Word| final(self).owner(h) == old(self).owner(h),
            forall|h: Word, a: Address|
                (h, a) != (*handle, *account) ==> final(self).allowed(h, a) == old(self).allowed(h, a),
    {
        if !self.is_owner(caller, handle) {
            return Err(CoFHEError::AccessDenied);
        }
        self.grants.push((*handle, *account, false));
        self.transient.push((*handle, *account, false));
        proof {
            assert(self.grants@.drop_last() =~= old(self).grants@);
            assert(self.transient@.drop_last() =~= old(self).transient@);
        }
        Ok(())
    }

    /// Makes `new_owner` the owner of `handle`; only the owner `caller` may.
    /// Grants are untouched.
    pub fn transfer_ownership(&mut self, caller: &Address, handle: &Word, new_owner: &Address) -> (r:
        Result<(), CoFHEError>)
        ensures
            old(self).owner(*handle) != Some(*caller) ==> (r == Err::<(), _>(CoFHEError::AccessDenied) && *final(self) == *old(self)),
            old(self).owner(*handle) == Some(*caller) ==> r is Ok && final(self).owner(*handle) == Some(
                *new_owner,
            ),
            forall|h: Word| h != *handle ==> final(self).owner(h) == old(self).owner(h),
            forall|h: Word, a: Address| final(self).allowed(h, a) == old(self).allowed(h, a),
    {
        if !self.is_owner(caller, handle) {
            return Err(CoFHEError::AccessDenied);
        }
        self.owners.push((*handle, *new_owner));
        proof {
            assert(self.owners@.drop_last() =~= old(self).owners@);
        }
        Ok(())
    }

    /// Ends the current request: transient grants lapse, lasting ones stay.
    pub fn end_request(&mut self)
        ensures
            forall|h: Word| final(self).owner(h) == old(self).owner(h),
            forall|h: Word, a: Address|
                final(self).allowed(h, a) == old(self).allowed_lasting(h, a),
            forall|h: Word, a: Address| final(self).allowed_lasting(h, a) == old(self).allowed_lasting(h, a),
    {
        self.transient = Vec::new();
    }

    /// Runs a grant request sent by `caller`: a global grant lets `caller`
    /// itself use the handle, an account grant lets the account use it, and a
    /// transient grant does so until the end of the request.
    pub fn apply(&mut self, caller: &Address, request: &AccessRequest) -> (r: Result<(), CoFHEError>)
        ensures
            old(self).owner(request.ct_hash) != Some(*caller) ==> (r == Err::<(), _>(
                CoFHEError::AccessDenied,
            ) && *final(self) == *old(self)),
            old(self).owner(request.ct_hash) == Some(*caller) ==> r is Ok && final(self).allowed(
                request.ct_hash,
                grantee_account(request.grantee, *caller),
            ),
            request.grantee is Transient ==> forall|h: Word, a: Address|
                final(self).allowed_lasting(h, a) == old(self).allowed_lasting(h, a),
            forall|h: Word| final(self).owner(h) == old(self).owner(h),
            forall|h: Word, a: Address|
                (h, a) != (request.ct_hash, grantee_account(request.grantee, *caller))
                    ==> final(self).allowed(h, a) == old(self).allowed(h, a),
    {
        match request.grantee {
            Grantee::Global => self.allow_global(caller, &request.ct_hash),
            Grantee::Account(a) => self.allow(caller, &request.ct_hash, &a),
            Grantee::Transient(a) => self.allow_transient(caller, &request.ct_hash, &a),
        }
    }

    fn is_owner(&self, caller: &Address, handle: &Word) -> (r: bool)
        ensures
            r == (self.owner(*handle) == Some(*caller)),
    {
        match self.get_owner(handle) {
            Some(o) => same_address(&o, caller),
            None => false,
        }
    }
}

/// Whether the last record for (handle, account) in `log` is a grant.
fn granted(log: &Vec<(Word, Address, bool)>, handle: &Word, account: &Address) -> (r: bool)
    ensures
        r == granted_in(log@, *handle, *account),
{
    let mut i: usize = log.len();
    proof {
        assert(log@.subrange(0, i as int) =~= log@);
    }
    while i > 0
        invariant
            i <= log@.len(),
            granted_in(log@, *handle, *account) == granted_in(log@.subrange(0, i as int), *handle, *account),
        decreases i,
    {
        let ghost prefix = log@.subrange(0, i as int);
        let (h, a, g) = &log[i - 1];
        proof {
            assert(prefix.drop_last() =~= log@.subrange(0, i - 1));
        }
        if same_word(h, handle) && same_address(a, account) {
            return *g;
        }
        i = i - 1;
    }
    proof {
        assert(log@.subrange(0, 0) =~= Seq::<(Word, Address, bool)>::empty());
    }
    false
}

} // verus!
