//! Replay protection: the set of (actor, nonce) pairs already consumed.
use vstd::prelude::*;
use crate::codec::{Address, Word, same_address, same_word};

verus! {

/// The consumed (actor, nonce) pairs. Pairs are only ever added.
pub struct NonceRegistry {
    used: Vec<(Address, Word)>,
}

impl View for NonceRegistry {
    type V = Set<(Address, Word)>;

    closed spec fn view(&self) -> Set<(Address, Word)> {
        self.used@.to_set()
    }
}

proof fn lemma_push_to_set<A>(s: Seq<A>, x: A)
    ensures
        s.push(x).to_set() == s.to_set().insert(x),
{
    assert forall|y: A| #[trigger] s.push(x).to_set().contains(y) <==> s.to_set().insert(x).contains(y) by {
        if s.push(x).contains(y) {
            let i = choose|i: int| 0 <= i < s.push(x).len() && s.push(x)[i] == y;
            if i < s.len() {
                assert(s[i] == y);
                assert(s.contains(y));
            }
        }
        if s.contains(y) {
            let i = choose|i: int| 0 <= i < s.len() && s[i] == y;
            assert(s.push(x)[i] == y);
        }
        assert(s.push(x)[s.len() as int] == x);
    }
    assert(s.push(x).to_set() =~= s.to_set().insert(x));
}

impl NonceRegistry {
    /// A registry in which no nonce is used.
    pub fn new() -> (r: Self)
        ensures
            r@ == Set::<(Address, Word)>::empty(),
    {
        let r = NonceRegistry { used: Vec::new() };
        proof {
            assert(r@ =~= Set::<(Address, Word)>::empty());
        }
        r
    }

    /// Whether `nonce` has been consumed for `actor`.
    pub fn is_used(&self, actor: &Address, nonce: &Word) -> (r: bool)
        ensures
            r == self@.contains((*actor, *nonce)),
    {
        let mut i: usize = 0;
        while i < self.used.len()
            invariant
                i <= self.used@.len(),
                forall|j: int| 0 <= j < i ==> self.used@[j] != (*actor, *nonce),
            decreases self.used@.len() - i,
        {
            let (a, n) = &self.used[i];
            if same_address(a, actor) && same_word(n, nonce) {
                proof {
                    assert(self.used@[i as int] == (*actor, *nonce));
                    assert(self.used@.contains((*actor, *nonce)));
                }
                return true;
            }
            i = i + 1;
        }
        proof {
            assert(!self.used@.contains((*actor, *nonce)));
        }
        false
    }

    /// Consumes `nonce` for `actor`; consuming it again changes nothing.
    pub fn mark_used(&mut self, actor: &Address, nonce: &Word)
        ensures
            final(self)@ == old(self)@.insert((*actor, *nonce)),
    {
        if !self.is_used(actor, nonce) {
            proof {
                lemma_push_to_set(self.used@, (*actor, *nonce));
            }
            self.used.push((*actor, *nonce));
        } else {
            proof {
                assert(old(self)@.insert((*actor, *nonce)) =~= old(self)@);
            }
        }
    }
}

/// Once a nonce is consumed for an actor it stays consumed: after
/// `mark_used(actor, nonce)`, any further sequence of consumptions keeps the
/// pair in the registry.
pub proof fn lemma_used_nonce_stays_used(
    before: Set<(Address, Word)>,
    later: Seq<(Address, Word)>,
    actor: Address,
    nonce: Word,
)
    ensures
        later.fold_left(
            before.insert((actor, nonce)),
            |s: Set<(Address, Word)>, k: (Address, Word)| s.insert(k),
        ).contains((actor, nonce)),
    decreases later.len(),
{
    if later.len() > 0 {
        lemma_used_nonce_stays_used(before, later.drop_last(), actor, nonce);
    }
}

} // verus!
