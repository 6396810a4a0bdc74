//! Network contact configuration: a set of contact endpoints, merged by set
//! union from a baked-in default set and caller-supplied overrides.

use vstd::prelude::*;

verus! {

/// One network contact endpoint.
#[derive(Clone, Copy, PartialEq, Eq, Structural, Hash, Debug)]
pub struct Contact {
    pub ip: u32,
    pub port: u16,
}

/// The set of contacts that a contact sequence denotes.
pub open spec fn contact_set(s: Seq<Contact>) -> Set<Contact> {
    Set::new(|c: Contact| s.contains(c))
}

/// A set of network contact endpoints. Order carries no meaning; no contact
/// occurs twice.
#[derive(Clone, Debug)]
pub struct BootstrapConfig {
    pub contacts: Vec<Contact>,
}

impl View for BootstrapConfig {
    type V = Set<Contact>;

    open spec fn view(&self) -> Set<Contact> {
        contact_set(self.contacts@)
    }
}

impl BootstrapConfig {
    /// No contact occurs twice.
    pub open spec fn wf(&self) -> bool {
        forall|i: int, j: int|
            0 <= i < j < self.contacts@.len() ==> self.contacts@[i] != self.contacts@[j]
    }

    /// An empty contact set.
    pub fn new() -> (r: BootstrapConfig)
        ensures
            r.wf(),
            r@ == Set::<Contact>::empty(),
    {
        let r = BootstrapConfig { contacts: Vec::new() };
        proof {
            assert(r@ =~= Set::<Contact>::empty());
        }
        r
    }

    /// Whether the set holds `c`.
    pub fn contains(&self, c: Contact) -> (r: bool)
        ensures
            r == self@.contains(c),
    {
        let n = self.contacts.len();
        let mut i: usize = 0;
        while i < n
            invariant
                n == self.contacts.len(),
                0 <= i <= n,
                forall|j: int| 0 <= j < i ==> self.contacts@[j] != c,
            decreases n - i,
        {
            if self.contacts[i] == c {
                proof {
                    assert(self.contacts@.contains(c));
                }
                return true;
            }
            i += 1;
        }
        proof {
            assert(!self.contacts@.contains(c));
        }
        false
    }

    /// Adds `c` to the set; adding a present contact changes nothing.
    pub fn insert(&mut self, c: Contact)
        requires
            old(self).wf(),
        ensures
            final(self).wf(),
            final(self)@ == old(self)@.insert(c),
    {
        if !self.contains(c) {
            let ghost s0 = self.contacts@;
            self.contacts.push(c);
            proof {
                assert forall|x: Contact| #[trigger] self.contacts@.contains(x) implies s0.contains(
                    x,
                ) || x == c by {
                    let i = choose|i: int|
                        0 <= i < self.contacts@.len() && self.contacts@[i] == x;
                    if i < s0.len() {
                        assert(s0[i] == x);
                    }
                }
                assert(s0.contains(c) == false);
                assert(self.contacts@.contains(c)) by {
                    assert(self.contacts@[s0.len() as int] == c);
                }
                assert forall|x: Contact| s0.contains(x) implies self.contacts@.contains(x) by {
                    let i = choose|i: int| 0 <= i < s0.len() && s0[i] == x;
                    assert(self.contacts@[i] == x);
                }
                assert(self@ =~= old(self)@.insert(c));
                assert forall|i: int, j: int|
                    0 <= i < j < self.contacts@.len() implies self.contacts@[i]
                    != self.contacts@[j] by {
                    if j == s0.len() {
                        assert(self.contacts@[j] == c);
                        if self.contacts@[i] == c {
                            assert(s0[i] == c);
                            assert(s0.contains(c));
                        }
                    }
                }
            }
        } else {
            proof {
                assert(self@ =~= old(self)@.insert(c));
            }
        }
    }

    /// The union of this set with another. Neither input is changed; the
    /// union is idempotent and independent of the order of its operands.
    pub fn union(&self, other: &BootstrapConfig) -> (r: BootstrapConfig)
        requires
            self.wf(),
        ensures
            r.wf(),
            r@ == self@.union(other@),
    {
        let mut r = self.duplicate();
        let n = other.contacts.len();
        let mut i: usize = 0;
        while i < n
            invariant
                n == other.contacts.len(),
                0 <= i <= n,
                r.wf(),
                r@ == self@.union(contact_set(other.contacts@.subrange(0, i as int))),
            decreases n - i,
        {
            let ghost before = r@;
            let c = other.contacts[i];
            r.insert(c);
            proof {
                let prefix = other.contacts@.subrange(0, i as int);
                let prefix1 = other.contacts@.subrange(0, i + 1 as int);
                assert forall|x: Contact| #[trigger] prefix1.contains(x) implies prefix.contains(x)
                    || x == c by {
                    let j = choose|j: int| 0 <= j < prefix1.len() && prefix1[j] == x;
                    if j < prefix.len() {
                        assert(prefix[j] == x);
                    }
                }
                assert(prefix1.contains(c)) by {
                    assert(prefix1[i as int] == c);
                }
                assert forall|x: Contact| #[trigger] prefix.contains(x) implies prefix1.contains(
                    x,
                ) by {
                    let j = choose|j: int| 0 <= j < prefix.len() && prefix[j] == x;
                    assert(prefix1[j] == x);
                }
                assert(r@ =~= self@.union(contact_set(prefix1)));
            }
            i += 1;
        }
        proof {
            assert(other.contacts@.subrange(0, n as int) =~= other.contacts@);
        }
        r
    }

    /// A copy of the set.
    pub fn duplicate(&self) -> (r: BootstrapConfig)
        ensures
            r.wf() == self.wf(),
            r@ == self@,
            r.contacts@ == self.contacts@,
    {
        let mut contacts: Vec<Contact> = Vec::new();
        let n = self.contacts.len();
        let mut i: usize = 0;
        while i < n
            invariant
                n == self.contacts.len(),
                0 <= i <= n,
                contacts@ == self.contacts@.subrange(0, i as int),
            decreases n - i,
        {
            contacts.push(self.contacts[i]);
            proof {
                assert(contacts@ =~= self.contacts@.subrange(0, i + 1 as int));
            }
            i += 1;
        }
        proof {
            assert(self.contacts@.subrange(0, n as int) =~= self.contacts@);
        }
        let r = BootstrapConfig { contacts };
        proof {
            assert(r.contacts@ == self.contacts@);
            assert(r@ =~= self@);
            if self.wf() {
                assert forall|i: int, j: int|
                    0 <= i < j < r.contacts@.len() implies r.contacts@[i] != r.contacts@[j] by {
                    assert(self.contacts@[i] != self.contacts@[j]);
                }
            }
            if r.wf() {
                assert forall|i: int, j: int|
                    0 <= i < j < self.contacts@.len() implies self.contacts@[i]
                    != self.contacts@[j] by {
                    assert(r.contacts@[i] != r.contacts@[j]);
                }
            }
        }
        r
    }

    /// The number of contacts in the set.
    pub fn len(&self) -> (r: usize)
        ensures
            r == self.contacts@.len(),
    {
        self.contacts.len()
    }
}

/// Law: merging is order-independent: both unions denote the same set.
pub proof fn lemma_union_order_independent(a: BootstrapConfig, b: BootstrapConfig)
    ensures
        a@.union(b@) == b@.union(a@),
{
    assert(a@.union(b@) =~= b@.union(a@));
}

/// Law: merging is idempotent: a set united with itself is unchanged.
pub proof fn lemma_union_idempotent(a: BootstrapConfig)
    ensures
        a@.union(a@) == a@,
{
    assert(a@.union(a@) =~= a@);
}

/// The baked-in default contact set that bootstrap falls back on.
pub fn default_contacts() -> (r: BootstrapConfig)
    ensures
        r.wf(),
        r@ == contact_set(
            seq![
                Contact { ip: 0x7F00_0001u32, port: 12000u16 },
                Contact { ip: 0x7F00_0001u32, port: 12001u16 },
            ],
        ),
{
    let mut contacts: Vec<Contact> = Vec::new();
    contacts.push(Contact { ip: 0x7F00_0001, port: 12000 });
    contacts.push(Contact { ip: 0x7F00_0001, port: 12001 });
    proof {
        assert(contacts@ =~= seq![
            Contact { ip: 0x7F00_0001u32, port: 12000u16 },
            Contact { ip: 0x7F00_0001u32, port: 12001u16 },
        ]);
    }
    BootstrapConfig { contacts }
}

} // verus!
