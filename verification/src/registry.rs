//! The label registry: the bijection between the dense integer labels that a
//! classifier works with and the durable identities that they stand for.
//!
//! A registry belongs to exactly one trained classifier. Labels mean nothing
//! outside the registry that issued them.

use vstd::prelude::*;

verus! {

/// The largest number of identities a registry can hold: labels are `i32`.
pub const MAX_LABELS: usize = 0x7fff_ffff;

/// The identity that `label` stands for in the registry `reg`, if any.
pub open spec fn resolve_in(reg: Seq<Seq<char>>, label: int) -> Option<Seq<char>> {
    if 0 <= label < reg.len() {
        Some(reg[label])
    } else {
        None
    }
}

/// The label under which `identity` is registered in `reg`, if it is.
pub open spec fn label_in(reg: Seq<Seq<char>>, identity: Seq<char>) -> Option<int> {
    if reg.contains(identity) {
        Some(reg.index_of(identity))
    } else {
        None
    }
}

/// What `reg` becomes when `identity` is registered: unchanged if the identity
/// is known already or no label is left, else longer by the identity.
pub open spec fn register_in(reg: Seq<Seq<char>>, identity: Seq<char>) -> Seq<Seq<char>> {
    if reg.contains(identity) || reg.len() >= MAX_LABELS {
        reg
    } else {
        reg.push(identity)
    }
}

/// A registry is a bijection: no identity holds two labels, and every label
/// fits an `i32`.
pub open spec fn is_registry(reg: Seq<Seq<char>>) -> bool {
    reg.no_duplicates() && reg.len() <= MAX_LABELS
}

/// Labels `0..N` and the identities they stand for, label `i` at position `i`.
pub struct LabelRegistry {
    identities: Vec<String>,
}

impl View for LabelRegistry {
    type V = Seq<Seq<char>>;

    closed spec fn view(&self) -> Seq<Seq<char>> {
        self.identities@.map_values(|s: String| s@)
    }
}

impl LabelRegistry {
    /// Every registry that exists at run time is a bijection.
    #[verifier::type_invariant]
    pub open spec fn wf(self) -> bool {
        is_registry(self@)
    }

    /// A registry with no labels.
    pub fn new() -> (reg: LabelRegistry)
        ensures
            reg@ == Seq::<Seq<char>>::empty(),
    {
        let reg = LabelRegistry { identities: Vec::new() };
        assert(reg@ =~= Seq::<Seq<char>>::empty());
        reg
    }

    /// The number of labels issued, `N`.
    pub fn len(&self) -> (n: usize)
        ensures
            n == self@.len(),
            n <= MAX_LABELS,
    {
        proof {
            use_type_invariant(self);
        }
        self.identities.len()
    }

    /// Whether no label has been issued.
    pub fn is_empty(&self) -> (b: bool)
        ensures
            b == (self@.len() == 0),
    {
        self.identities.len() == 0
    }

    /// The label of `identity`, if it is registered.
    pub fn label_of(&self, identity: &str) -> (label: Option<i32>)
        ensures
            label matches Some(l) ==> label_in(self@, identity@) == Some(l as int),
            label is None ==> label_in(self@, identity@) is None,
    {
        proof {
            use_type_invariant(self);
        }
        let wanted = identity.to_owned();
        let n = self.identities.len();
        let mut i: usize = 0;
        while i < n
            invariant
                i <= n,
                n == self.identities.len(),
                n == self@.len(),
                is_registry(self@),
                wanted@ == identity@,
                forall|j: int| 0 <= j < i ==> self@[j] != identity@,
            decreases n - i,
        {
            if self.identities[i] == wanted {
                assert(self@[i as int] == identity@);
                return Some(i as i32);
            }
            i += 1;
        }
        None
    }

    /// Gives `identity` a label: the one it has already, or else the next
    /// unused one, counting from 0. `None` when every `i32` label is taken.
    pub fn register(&mut self, identity: &str) -> (label: Option<i32>)
        ensures
            final(self)@ == register_in(old(self)@, identity@),
            label matches Some(l) ==> label_in(final(self)@, identity@) == Some(l as int),
            label is None <==> !old(self)@.contains(identity@) && old(self)@.len() >= MAX_LABELS,
    {
        proof {
            use_type_invariant(&*self);
        }
        match self.label_of(identity) {
            Some(l) => Some(l),
            None => {
                let n = self.identities.len();
                if n >= MAX_LABELS {
                    None
                } else {
                    let ghost before = self@;
                    let mut identities: Vec<String> = Vec::new();
                    core::mem::swap(&mut self.identities, &mut identities);
                    identities.push(identity.to_owned());
                    proof {
                        let after = identities@.map_values(|s: String| s@);
                        assert(after =~= before.push(identity@));
                        assert(after[n as int] == identity@);
                        assert(after.no_duplicates());
                    }
                    self.identities = identities;
                    Some(n as i32)
                }
            },
        }
    }

    /// The identity that `label` stands for; `None` for a label this registry
    /// never issued.
    pub fn resolve(&self, label: i32) -> (identity: Option<String>)
        ensures
            identity matches Some(id) ==> resolve_in(self@, label as int) == Some(id@),
            identity is None ==> resolve_in(self@, label as int) is None,
    {
        if label < 0 {
            return None;
        }
        let at = label as usize;
        if at < self.identities.len() {
            Some(self.identities[at].clone())
        } else {
            None
        }
    }
}

/// Resolving a label and looking the identity up again gives the label back,
/// and the other way round: a registry is a bijection between its labels and
/// its identities.
pub proof fn lemma_registry_is_bijection(reg: Seq<Seq<char>>)
    requires
        is_registry(reg),
    ensures
        forall|label: int|
            0 <= label < reg.len() ==> label_in(reg, #[trigger] reg[label]) == Some(label),
        forall|identity: Seq<char>| #[trigger]
            reg.contains(identity) ==> resolve_in(reg, label_in(reg, identity).unwrap()) == Some(
                identity,
            ),
{
    assert forall|label: int| 0 <= label < reg.len() implies label_in(reg, #[trigger] reg[label])
        == Some(label) by {
        assert(reg.contains(reg[label]));
    }
}

/// Registering an identity never moves a label that was issued before.
pub proof fn lemma_register_keeps_labels(reg: Seq<Seq<char>>, identity: Seq<char>, label: int)
    requires
        is_registry(reg),
        0 <= label < reg.len(),
    ensures
        is_registry(register_in(reg, identity)),
        resolve_in(register_in(reg, identity), label) == resolve_in(reg, label),
{
}

} // verus!
