//! The tracking store: which account addresses and which programs are of
//! interest.

use vstd::prelude::*;
use crate::models::{AccountInfo, Address};

verus! {

/// The keys of a list of addresses.
pub open spec fn keys(items: Seq<Address>) -> Set<Seq<u8>> {
    Set::new(|k: Seq<u8>| exists|i: int| 0 <= i < items.len() && items[i]@ == k)
}

/// No address occurs twice.
pub open spec fn no_repeats(items: Seq<Address>) -> bool {
    forall|i: int, j: int| 0 <= i < j < items.len() ==> items[i]@ != items[j]@
}

/// A set of addresses.
pub struct AddressSet {
    items: Vec<Address>,
}

impl View for AddressSet {
    type V = Set<Seq<u8>>;

    closed spec fn view(&self) -> Set<Seq<u8>> {
        keys(self.items@)
    }
}

impl AddressSet {
    /// No address is held twice.
    #[verifier::type_invariant]
    spec fn unique(self) -> bool {
        no_repeats(self.items@)
    }

    /// The empty set.
    pub fn new() -> (s: Self)
        ensures
            s@ == Set::<Seq<u8>>::empty(),
    {
        let s = AddressSet { items: Vec::new() };
        assert(s@ =~= Set::<Seq<u8>>::empty());
        s
    }

    /// The place of the address, if it is in the set.
    fn find(&self, addr: &Address) -> (r: Option<usize>)
        ensures
            match r {
                Some(i) => i < self.items@.len() && self.items@[i as int]@ == addr@,
                None => !self@.contains(addr@),
            },
    {
        let mut i: usize = 0;
        while i < self.items.len()
            invariant
                i <= self.items.len(),
                forall|j: int| 0 <= j < i ==> self.items@[j]@ != addr@,
            decreases self.items.len() - i,
        {
            if self.items[i] == *addr {
                return Some(i);
            }
            i += 1;
        }
        None
    }

    /// Whether the address is in the set.
    pub fn contains(&self, addr: &Address) -> (r: bool)
        ensures
            r == self@.contains(addr@),
    {
        self.find(addr).is_some()
    }

    /// The number of addresses in the set.
    pub fn len(&self) -> (n: usize)
        ensures
            self@.finite(),
            n == self@.len(),
    {
        proof {
            use_type_invariant(self);
            lemma_keys_len(self.items@);
        }
        self.items.len()
    }

    /// Puts the address into the set, and says whether it was new.
    pub fn insert(&mut self, addr: Address) -> (added: bool)
        ensures
            final(self)@ == old(self)@.insert(addr@),
            added == !old(self)@.contains(addr@),
    {
        proof {
            use_type_invariant(&*self);
        }
        match self.find(&addr) {
            Some(_) => {
                assert(self@ =~= self@.insert(addr@));
                false
            },
            None => {
                let ghost before = self.items@;
                let mut items: Vec<Address> = Vec::new();
                std::mem::swap(&mut items, &mut self.items);
                items.push(addr);
                proof {
                    assert forall|k: Seq<u8>| keys(items@).contains(k) <==> keys(before).insert(
                        addr@,
                    ).contains(k) by {
                        if keys(items@).contains(k) {
                            let i = choose|i: int| 0 <= i < items@.len() && items@[i]@ == k;
                            if i < before.len() {
                                assert(before[i]@ == k);
                            }
                        }
                        if keys(before).contains(k) {
                            let i = choose|i: int| 0 <= i < before.len() && before[i]@ == k;
                            assert(items@[i]@ == k);
                        }
                        if k == addr@ {
                            assert(items@[before.len() as int]@ == k);
                        }
                    }
                    assert(keys(items@) =~= keys(before).insert(addr@));
                }
                self.items = items;
                true
            },
        }
    }

    /// Takes the address out of the set, and says whether it was there.
    pub fn remove(&mut self, addr: &Address) -> (removed: bool)
        ensures
            final(self)@ == old(self)@.remove(addr@),
            removed == old(self)@.contains(addr@),
    {
        proof {
            use_type_invariant(&*self);
        }
        match self.find(addr) {
            None => {
                assert(self@ =~= self@.remove(addr@));
                false
            },
            Some(at) => {
                let ghost before = self.items@;
                let mut items: Vec<Address> = Vec::new();
                std::mem::swap(&mut items, &mut self.items);
                let _ = items.remove(at);
                proof {
                    assert forall|k: Seq<u8>| keys(items@).contains(k) <==> keys(before).remove(
                        addr@,
                    ).contains(k) by {
                        if keys(items@).contains(k) {
                            let i = choose|i: int| 0 <= i < items@.len() && items@[i]@ == k;
                            if i < at {
                                assert(before[i]@ == k);
                            } else {
                                assert(before[i + 1]@ == k);
                            }
                        }
                        if keys(before).contains(k) && k != addr@ {
                            let i = choose|i: int| 0 <= i < before.len() && before[i]@ == k;
                            if i < at {
                                assert(items@[i]@ == k);
                            } else {
                                assert(items@[i - 1]@ == k);
                            }
                        }
                    }
                    assert(keys(items@) =~= keys(before).remove(addr@));
                    assert(before[at as int]@ == addr@);
                }
                self.items = items;
                true
            },
        }
    }

    /// The addresses of the set, each once.
    pub fn to_vec(&self) -> (r: Vec<Address>)
        ensures
            keys(r@) == self@,
            no_repeats(r@),
    {
        proof {
            use_type_invariant(self);
        }
        let mut out: Vec<Address> = Vec::new();
        let mut i: usize = 0;
        while i < self.items.len()
            invariant
                i <= self.items.len(),
                out@ == self.items@.take(i as int),
            decreases self.items.len() - i,
        {
            out.push(self.items[i]);
            assert(self.items@.take(i + 1) =~= self.items@.take(i as int).push(
                self.items@[i as int],
            ));
            i += 1;
        }
        assert(self.items@.take(i as int) =~= self.items@);
        out
    }
}

/// A list without repeats has as many keys as items.
pub proof fn lemma_keys_len(items: Seq<Address>)
    requires
        no_repeats(items),
    ensures
        keys(items).finite(),
        keys(items).len() == items.len(),
    decreases items.len(),
{
    if items.len() == 0 {
        assert(keys(items) =~= Set::<Seq<u8>>::empty());
    } else {
        let front = items.drop_last();
        let last = items.last();
        lemma_keys_len(front);
        assert forall|k: Seq<u8>| keys(items).contains(k) <==> keys(front).insert(last@).contains(
            k,
        ) by {
            if keys(items).contains(k) {
                let i = choose|i: int| 0 <= i < items.len() && items[i]@ == k;
                if i < front.len() {
                    assert(front[i]@ == k);
                }
            }
            if keys(front).contains(k) {
                let i = choose|i: int| 0 <= i < front.len() && front[i]@ == k;
                assert(items[i]@ == k);
            }
            if k == last@ {
                assert(items[items.len() - 1]@ == k);
            }
        }
        assert(keys(items) =~= keys(front).insert(last@));
        if keys(front).contains(last@) {
            let i = choose|i: int| 0 <= i < front.len() && front[i]@ == last@;
            assert(items[i]@ == items[items.len() - 1]@);
        }
    }
}

/// The tracked accounts and the tracked programs, as sets of keys.
pub struct TrackingModel {
    pub accounts: Set<Seq<u8>>,
    pub programs: Set<Seq<u8>>,
}

/// One change to the tracking store.
#[derive(Clone, Copy, Debug, PartialEq, Eq)]
pub enum TrackOp {
    TrackAccount(Address),
    UntrackAccount(Address),
    TrackProgram(Address),
    UntrackProgram(Address),
}

impl TrackingModel {
    /// The store after one change.
    pub open spec fn step(self, op: TrackOp) -> TrackingModel {
        match op {
            TrackOp::TrackAccount(a) => TrackingModel {
                accounts: self.accounts.insert(a@),
                programs: self.programs,
            },
            TrackOp::UntrackAccount(a) => TrackingModel {
                accounts: self.accounts.remove(a@),
                programs: self.programs,
            },
            TrackOp::TrackProgram(a) => TrackingModel {
                accounts: self.accounts,
                programs: self.programs.insert(a@),
            },
            TrackOp::UntrackProgram(a) => TrackingModel {
                accounts: self.accounts,
                programs: self.programs.remove(a@),
            },
        }
    }

    /// The store after the changes of `ops`, made in order.
    pub open spec fn run(self, ops: Seq<TrackOp>) -> TrackingModel
        decreases ops.len(),
    {
        if ops.len() == 0 {
            self
        } else {
            self.run(ops.drop_last()).step(ops.last())
        }
    }

    /// Whether an update to the account `address`, owned by `owner`, is of
    /// interest: the address is tracked, or the owner is a tracked program.
    pub open spec fn matters(self, address: Seq<u8>, owner: Seq<u8>) -> bool {
        self.accounts.contains(address) || self.programs.contains(owner)
    }
}

/// What the last change of `ops` that names the account `key` did: `true`
/// for tracking it, `false` for untracking it, nothing where no change
/// names it.
pub open spec fn last_account_change(ops: Seq<TrackOp>, key: Seq<u8>) -> Option<bool>
    decreases ops.len(),
{
    if ops.len() == 0 {
        None
    } else {
        match ops.last() {
            TrackOp::TrackAccount(a) if a@ == key => Some(true),
            TrackOp::UntrackAccount(a) if a@ == key => Some(false),
            _ => last_account_change(ops.drop_last(), key),
        }
    }
}

/// What the last change of `ops` that names the program `key` did.
pub open spec fn last_program_change(ops: Seq<TrackOp>, key: Seq<u8>) -> Option<bool>
    decreases ops.len(),
{
    if ops.len() == 0 {
        None
    } else {
        match ops.last() {
            TrackOp::TrackProgram(a) if a@ == key => Some(true),
            TrackOp::UntrackProgram(a) if a@ == key => Some(false),
            _ => last_program_change(ops.drop_last(), key),
        }
    }
}

/// After any sequence of changes, an address is tracked exactly if the last
/// change that names it tracked it, or, where none names it, if it was
/// tracked before. The same holds of programs.
pub proof fn law_net_effect(start: TrackingModel, ops: Seq<TrackOp>, key: Seq<u8>)
    ensures
        start.run(ops).accounts.contains(key) == match last_account_change(ops, key) {
            Some(on) => on,
            None => start.accounts.contains(key),
        },
        start.run(ops).programs.contains(key) == match last_program_change(ops, key) {
            Some(on) => on,
            None => start.programs.contains(key),
        },
    decreases ops.len(),
{
    if ops.len() > 0 {
        law_net_effect(start, ops.drop_last(), key);
    }
}

/// Tracking an address that is tracked already changes nothing, and so does
/// untracking one that is not tracked.
pub proof fn law_track_is_idempotent(s: TrackingModel, address: Address)
    ensures
        s.accounts.contains(address@) ==> s.step(TrackOp::TrackAccount(address)) == s,
        s.programs.contains(address@) ==> s.step(TrackOp::TrackProgram(address)) == s,
        !s.accounts.contains(address@) ==> s.step(TrackOp::UntrackAccount(address)) == s,
        !s.programs.contains(address@) ==> s.step(TrackOp::UntrackProgram(address)) == s,
        s.step(TrackOp::TrackAccount(address)).step(TrackOp::TrackAccount(address)) == s.step(
            TrackOp::TrackAccount(address),
        ),
        s.step(TrackOp::TrackProgram(address)).step(TrackOp::TrackProgram(address)) == s.step(
            TrackOp::TrackProgram(address),
        ),
{
    if s.accounts.contains(address@) {
        assert(s.accounts.insert(address@) =~= s.accounts);
    }
    if s.programs.contains(address@) {
        assert(s.programs.insert(address@) =~= s.programs);
    }
    if !s.accounts.contains(address@) {
        assert(s.accounts.remove(address@) =~= s.accounts);
    }
    if !s.programs.contains(address@) {
        assert(s.programs.remove(address@) =~= s.programs);
    }
    assert(s.accounts.insert(address@).insert(address@) =~= s.accounts.insert(address@));
    assert(s.programs.insert(address@).insert(address@) =~= s.programs.insert(address@));
}

/// The tracking store.
pub struct TrackingSet {
    accounts: AddressSet,
    programs: AddressSet,
}

impl View for TrackingSet {
    type V = TrackingModel;

    closed spec fn view(&self) -> TrackingModel {
        TrackingModel { accounts: self.accounts@, programs: self.programs@ }
    }
}

impl TrackingSet {
    /// A store that tracks nothing.
    pub fn new() -> (s: Self)
        ensures
            s@.accounts == Set::<Seq<u8>>::empty(),
            s@.programs == Set::<Seq<u8>>::empty(),
    {
        TrackingSet { accounts: AddressSet::new(), programs: AddressSet::new() }
    }

    /// Tracks an account address; says whether that changed the store.
    pub fn track_account(&mut self, addr: Address) -> (changed: bool)
        ensures
            final(self)@ == old(self)@.step(TrackOp::TrackAccount(addr)),
            changed == !old(self)@.accounts.contains(addr@),
    {
        self.accounts.insert(addr)
    }

    /// Stops tracking an account address; says whether that changed the store.
    pub fn untrack_account(&mut self, addr: &Address) -> (changed: bool)
        ensures
            final(self)@ == old(self)@.step(TrackOp::UntrackAccount(*addr)),
            changed == old(self)@.accounts.contains(addr@),
    {
        self.accounts.remove(addr)
    }

    /// Tracks a program; says whether that changed the store.
    pub fn track_program(&mut self, addr: Address) -> (changed: bool)
        ensures
            final(self)@ == old(self)@.step(TrackOp::TrackProgram(addr)),
            changed == !old(self)@.programs.contains(addr@),
    {
        self.programs.insert(addr)
    }

    /// Stops tracking a program; says whether that changed the store.
    pub fn untrack_program(&mut self, addr: &Address) -> (changed: bool)
        ensures
            final(self)@ == old(self)@.step(TrackOp::UntrackProgram(*addr)),
            changed == old(self)@.programs.contains(addr@),
    {
        self.programs.remove(addr)
    }

    /// Makes one change.
    pub fn apply(&mut self, op: TrackOp)
        ensures
            final(self)@ == old(self)@.step(op),
    {
        match op {
            TrackOp::TrackAccount(a) => {
                self.track_account(a);
            },
            TrackOp::UntrackAccount(a) => {
                self.untrack_account(&a);
            },
            TrackOp::TrackProgram(a) => {
                self.track_program(a);
            },
            TrackOp::UntrackProgram(a) => {
                self.untrack_program(&a);
            },
        }
    }

    /// Makes the changes of `ops`, in order.
    pub fn apply_all(&mut self, ops: &Vec<TrackOp>)
        ensures
            final(self)@ == old(self)@.run(ops@),
    {
        let mut i: usize = 0;
        assert(ops@.take(0) =~= Seq::<TrackOp>::empty());
        while i < ops.len()
            invariant
                i <= ops.len(),
                self@ == old(self)@.run(ops@.take(i as int)),
            decreases ops.len() - i,
        {
            assert(ops@.take(i + 1).drop_last() =~= ops@.take(i as int));
            self.apply(ops[i]);
            i += 1;
        }
        assert(ops@.take(i as int) =~= ops@);
    }

    /// Whether the account address is tracked.
    pub fn is_account_tracked(&self, addr: &Address) -> (r: bool)
        ensures
            r == self@.accounts.contains(addr@),
    {
        self.accounts.contains(addr)
    }

    /// Whether the program is tracked.
    pub fn is_program_tracked(&self, addr: &Address) -> (r: bool)
        ensures
            r == self@.programs.contains(addr@),
    {
        self.programs.contains(addr)
    }

    /// Whether an update of this account is of interest.
    pub fn matters(&self, account: &AccountInfo) -> (r: bool)
        ensures
            r == self@.matters(account.pubkey@, account.owner@),
    {
        self.accounts.contains(&account.pubkey) || self.programs.contains(&account.owner)
    }

    /// The tracked account addresses, each once.
    pub fn tracked_accounts(&self) -> (r: Vec<Address>)
        ensures
            keys(r@) == self@.accounts,
            no_repeats(r@),
    {
        self.accounts.to_vec()
    }

    /// The tracked programs, each once.
    pub fn tracked_programs(&self) -> (r: Vec<Address>)
        ensures
            keys(r@) == self@.programs,
            no_repeats(r@),
    {
        self.programs.to_vec()
    }
}

} // verus!
