//! Sets of virtual keys.

use crate::virtual_key::{lemma_code_injective, lemma_from_code_of_key, VK};
use std::collections::BTreeSet;
use vstd::prelude::*;
use vstd::std_specs::cmp::{OrdSpec, PartialEqSpecImpl};
use vstd::std_specs::iter::IteratorSpec;

verus! {

/// A set of virtual keys, kept as the ordered set of their codes.
///
/// The view of a `KeySet` is the mathematical set of the keys it holds.
#[derive(Debug)]
pub struct KeySet {
    codes: BTreeSet<u32>,
}

impl View for KeySet {
    type V = Set<VK>;

    closed spec fn view(&self) -> Set<VK> {
        Set::new(|k: VK| self.codes@.contains(k.code()))
    }
}

impl Clone for KeySet {
    fn clone(&self) -> (copy: Self)
        ensures
            copy@ == self@,
    {
        proof {
            use_type_invariant(self);
        }
        let copy = KeySet { codes: self.codes.clone() };
        assert(copy@ =~= self@);
        copy
    }
}

impl PartialEq for KeySet {
    /// Two sets are equal when they hold the same keys.
    fn eq(&self, other: &Self) -> (same: bool) {
        self.equals(other)
    }
}

impl PartialEqSpecImpl for KeySet {
    open spec fn obeys_eq_spec() -> bool {
        true
    }

    open spec fn eq_spec(&self, other: &Self) -> bool {
        self@ == other@
    }
}

impl KeySet {
    /// Every stored code is the code of a key.
    #[verifier::type_invariant]
    spec fn only_key_codes(self) -> bool {
        forall|c: u32| self.codes@.contains(c) ==> VK::is_recognized(c)
    }

    /// The empty set.
    pub fn new() -> (s: KeySet)
        ensures
            s@ == Set::<VK>::empty(),
    {
        let s = KeySet { codes: BTreeSet::new() };
        assert(s@ =~= Set::<VK>::empty());
        s
    }

    /// Adds a key. Returns whether the key was absent before.
    pub fn insert(&mut self, key: VK) -> (added: bool)
        ensures
            final(self)@ == old(self)@.insert(key),
            added == !old(self)@.contains(key),
    {
        proof {
            use_type_invariant(&*self);
            lemma_from_code_of_key(key);
        }
        // The set is taken out of `self` while it changes, so that `self`
        // holds a valid (empty) set throughout.
        let mut codes: BTreeSet<u32> = BTreeSet::new();
        std::mem::swap(&mut self.codes, &mut codes);
        let added = codes.insert(key.as_u32());
        std::mem::swap(&mut self.codes, &mut codes);
        proof {
            assert forall|k: VK| self@.contains(k) == old(self)@.insert(key).contains(k) by {
                if k.code() == key.code() {
                    lemma_code_injective(k, key);
                }
            }
            assert(self@ =~= old(self)@.insert(key));
        }
        added
    }

    /// Removes a key. Returns whether the key was present before.
    pub fn remove(&mut self, key: VK) -> (removed: bool)
        ensures
            final(self)@ == old(self)@.remove(key),
            removed == old(self)@.contains(key),
    {
        proof {
            use_type_invariant(&*self);
        }
        let code = key.as_u32();
        let mut codes: BTreeSet<u32> = BTreeSet::new();
        std::mem::swap(&mut self.codes, &mut codes);
        let removed = codes.remove(&code);
        std::mem::swap(&mut self.codes, &mut codes);
        proof {
            assert forall|k: VK| self@.contains(k) == old(self)@.remove(key).contains(k) by {
                if k.code() == key.code() {
                    lemma_code_injective(k, key);
                }
            }
            assert(self@ =~= old(self)@.remove(key));
        }
        removed
    }

    /// Whether the key is in the set.
    pub fn contains(&self, key: VK) -> (present: bool)
        ensures
            present == self@.contains(key),
    {
        let code = key.as_u32();
        self.codes.contains(&code)
    }

    /// Removes every key.
    pub fn clear(&mut self)
        ensures
            final(self)@ == Set::<VK>::empty(),
    {
        let mut codes: BTreeSet<u32> = BTreeSet::new();
        std::mem::swap(&mut self.codes, &mut codes);
        assert(self@ =~= Set::<VK>::empty());
    }

    /// Builds the set of the keys that occur in a slice.
    pub fn from_keys(keys: &[VK]) -> (s: KeySet)
        ensures
            s@ == keys@.to_set(),
    {
        let mut s = KeySet::new();
        let mut i: usize = 0;
        while i < keys.len()
            invariant
                i <= keys.len(),
                forall|k: VK| s@.contains(k) <==> exists|j: int| 0 <= j < i && keys@[j] == k,
            decreases keys.len() - i,
        {
            let ghost before = s@;
            s.insert(keys[i]);
            i += 1;
            assert forall|k: VK| s@.contains(k) <==> exists|j: int|
                0 <= j < i && keys@[j] == k by {
                if k == keys@[i - 1] {
                    assert(keys@[i - 1] == k);
                } else if before.contains(k) {
                    let j = choose|j: int| 0 <= j < i - 1 && keys@[j] == k;
                    assert(keys@[j] == k);
                }
            }
        }
        assert(s@ =~= keys@.to_set());
        s
    }

    /// Whether two sets hold exactly the same keys.
    pub fn equals(&self, other: &KeySet) -> (same: bool)
        ensures
            same == (self@ == other@),
    {
        proof {
            use_type_invariant(self);
            use_type_invariant(other);
            lemma_codes_of_view(self.codes@, other.codes@);
        }
        if self.codes.len() != other.codes.len() {
            return false;
        }
        for code in it: self.codes.iter()
            invariant
                (self@ == other@) <==> (self.codes@ == other.codes@),
                forall|i: int| 0 <= i < it.index() ==> other.codes@.contains(*it.seq()[i]),
        {
            if !other.codes.contains(code) {
                return false;
            }
        }
        proof {
            lemma_finite(&self.codes);
            lemma_finite(&other.codes);
            assert(self.codes@.subset_of(other.codes@));
            vstd::set_lib::lemma_subset_equality(self.codes@, other.codes@);
        }
        true
    }

    /// The keys of the set, in ascending order of their codes.
    pub fn to_vec(&self) -> (keys: Vec<VK>)
        ensures
            keys@.to_set() == self@,
            forall|i: int, j: int| 0 <= i < j < keys.len() ==> keys[i].code() < keys[j].code(),
    {
        let ghost codes: Seq<&u32> = IteratorSpec::remaining(
            &vstd::std_specs::btree::spec_btree_keys_iter(&self.codes),
        );
        proof {
            use_type_invariant(self);
            lemma_codes_in_order(&self.codes);
        }
        let mut keys: Vec<VK> = Vec::new();
        for code in it: self.codes.iter()
            invariant
                it.seq() == codes,
                forall|i: int| 0 <= i < codes.len() ==> VK::is_recognized(*codes[i]),
                keys.len() == it.index(),
                forall|i: int| 0 <= i < keys.len() ==> keys[i].code() == *codes[i],
        {
            match VK::from_u32(*code) {
                Some(key) => {
                    keys.push(key);
                },
                None => {},
            }
        }
        proof {
            assert forall|k: VK| keys@.to_set().contains(k) == self@.contains(k) by {
                if keys@.to_set().contains(k) {
                    let i = choose|i: int| 0 <= i < keys@.len() && keys@[i] == k;
                    assert(self.codes@.contains(*codes[i]));
                }
                if self@.contains(k) {
                    let i = choose|i: int| 0 <= i < codes.len() && *codes[i] == k.code();
                    lemma_code_injective(keys@[i], k);
                    assert(keys@[i] == k);
                }
            }
            assert(keys@.to_set() =~= self@);
            assert forall|i: int, j: int| 0 <= i < j < keys.len() implies keys[i].code()
                < keys[j].code() by {
                assert(*codes[i] < *codes[j]);
            }
        }
        keys
    }

    /// Whether the set holds no key.
    pub fn is_empty(&self) -> (empty: bool)
        ensures
            empty == (self@ == Set::<VK>::empty()),
    {
        proof {
            use_type_invariant(self);
        }
        let empty = self.codes.is_empty();
        proof {
            if empty {
                assert(self@ =~= Set::<VK>::empty());
            } else {
                vstd::set_lib::axiom_is_empty(self.codes@);
                let c = choose|c: u32| self.codes@.contains(c);
                assert(self.codes@.contains(c));
                assert(VK::is_recognized(c));
                let k = choose|k: VK| k.code() == c;
                assert(self@.contains(k));
            }
        }
        empty
    }
}

/// Walking an ordered set of codes yields exactly its members, in strictly
/// ascending order.
proof fn lemma_codes_in_order(set: &BTreeSet<u32>)
    ensures
        ({
            let codes = IteratorSpec::remaining(
                &vstd::std_specs::btree::spec_btree_keys_iter(set),
            );
            &&& forall|i: int| 0 <= i < codes.len() ==> set@.contains(*codes[i])
            &&& forall|c: u32|
                set@.contains(c) ==> exists|i: int| 0 <= i < codes.len() && *codes[i] == c
            &&& forall|i: int, j: int| 0 <= i < j < codes.len() ==> *codes[i] < *codes[j]
        }),
{
    broadcast use vstd::laws_cmp::group_laws_cmp;
    broadcast use vstd::laws_cmp::lemma_ref_obeys_cmp_spec;
    broadcast use vstd::std_specs::btree::group_btree_axioms;

    let codes = IteratorSpec::remaining(&vstd::std_specs::btree::spec_btree_keys_iter(set));
    vstd::std_specs::btree::axiom_spec_btree_keys_iter(set);
    assert(vstd::laws_cmp::obeys_cmp::<u32>());
    assert(vstd::laws_cmp::obeys_cmp::<&u32>());
    vstd::std_specs::btree::axiom_increasing_seq_meaning::<&u32>(codes);
    assert forall|i: int| 0 <= i < codes.len() implies set@.contains(*codes[i]) by {
        assert(codes.unref()[i] == *codes[i]);
        assert(codes.unref().to_set().contains(*codes[i]));
    }
    assert forall|c: u32| set@.contains(c) implies exists|i: int|
        0 <= i < codes.len() && *codes[i] == c by {
        assert(codes.unref().to_set().contains(c));
        let i = choose|i: int| 0 <= i < codes.unref().len() && codes.unref()[i] == c;
        assert(*codes[i] == c);
    }
    assert forall|i: int, j: int| 0 <= i < j < codes.len() implies *codes[i] < *codes[j] by {
        assert(OrdSpec::cmp_spec(&codes[i], &codes[j]) is Less);
    }
}

/// The codes held by an ordered set are finitely many.
proof fn lemma_finite(codes: &BTreeSet<u32>)
    ensures
        codes@.finite(),
{
    broadcast use vstd::seq_lib::seq_to_set_is_finite;

    vstd::std_specs::btree::axiom_spec_btree_keys_iter(codes);
}

/// Two sets of key codes stand for the same set of keys exactly when they
/// are the same set of codes.
proof fn lemma_codes_of_view(a: Set<u32>, b: Set<u32>)
    requires
        forall|c: u32| a.contains(c) ==> VK::is_recognized(c),
        forall|c: u32| b.contains(c) ==> VK::is_recognized(c),
    ensures
        (Set::new(|k: VK| a.contains(k.code())) == Set::new(|k: VK| b.contains(k.code()))) <==> a
            == b,
{
    let va = Set::new(|k: VK| a.contains(k.code()));
    let vb = Set::new(|k: VK| b.contains(k.code()));
    if va == vb {
        assert forall|c: u32| a.contains(c) == b.contains(c) by {
            if a.contains(c) || b.contains(c) {
                assert(VK::is_recognized(c));
                let k = choose|k: VK| k.code() == c;
                assert(va.contains(k) == vb.contains(k));
            }
        }
        assert(a =~= b);
    }
    if a == b {
        assert(va =~= vb);
    }
}

} // verus!
