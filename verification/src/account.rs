//! Account identifiers: 32 bytes, ordered bytewise.

use vstd::prelude::*;

verus! {

/// An account identifier: 32 bytes, with the all-zero value standing for "no account".
#[derive(Clone, Copy, Debug, Eq, Hash)]
pub struct AccountId {
    pub bytes: [u8; 32],
}

impl View for AccountId {
    type V = Seq<u8>;

    open spec fn view(&self) -> Seq<u8> {
        self.bytes@
    }
}

/// Bytewise lexicographic comparison of two equally long byte strings, from index `i` on.
pub open spec fn less_from(a: Seq<u8>, b: Seq<u8>, i: int) -> bool
    decreases a.len() - i,
{
    if i < 0 || i >= a.len() || i >= b.len() {
        false
    } else if a[i] != b[i] {
        a[i] < b[i]
    } else {
        less_from(a, b, i + 1)
    }
}

/// `a` comes strictly before `b` in the bytewise order.
pub open spec fn bytes_less(a: Seq<u8>, b: Seq<u8>) -> bool {
    less_from(a, b, 0)
}

impl PartialEq for AccountId {
    fn eq(&self, other: &AccountId) -> (r: bool) {
        let mut i: usize = 0;
        while i < 32
            invariant
                i <= 32,
                forall|j: int| 0 <= j < i ==> self.bytes[j] == other.bytes[j],
            decreases 32 - i,
        {
            if self.bytes[i] != other.bytes[i] {
                return false;
            }
            i = i + 1;
        }
        proof {
            assert(self.bytes@ =~= other.bytes@);
            assert(self.bytes == other.bytes);
        }
        true
    }
}

impl vstd::std_specs::cmp::PartialEqSpecImpl for AccountId {
    open spec fn obeys_eq_spec() -> bool {
        true
    }

    open spec fn eq_spec(&self, other: &AccountId) -> bool {
        *self == *other
    }
}

/// The null account: every byte is zero.
pub open spec fn null_account() -> AccountId {
    AccountId { bytes: vstd::array::spec_array_fill_for_copy_type::<u8, 32>(0u8) }
}

impl AccountId {
    /// The null account.
    pub fn zero() -> (r: AccountId)
        ensures
            r == null_account(),
    {
        AccountId { bytes: [0u8; 32] }
    }

    /// An account identifier made of the given bytes.
    pub fn from_bytes(bytes: [u8; 32]) -> (r: AccountId)
        ensures
            r.bytes == bytes,
    {
        AccountId { bytes }
    }

    /// `self` is the null account.
    pub open spec fn spec_is_zero(&self) -> bool {
        *self == null_account()
    }

    /// `self` comes strictly before `other` in the bytewise order.
    pub open spec fn spec_lt(&self, other: &AccountId) -> bool {
        bytes_less(self@, other@)
    }

    /// Whether this is the null account.
    pub fn is_zero(&self) -> (r: bool)
        ensures
            r == self.spec_is_zero(),
    {
        let mut i: usize = 0;
        while i < 32
            invariant
                i <= 32,
                forall|j: int| 0 <= j < i ==> self.bytes[j] == 0,
            decreases 32 - i,
        {
            if self.bytes[i] != 0 {
                assert(null_account().bytes[i as int] == 0);
                return false;
            }
            i = i + 1;
        }
        proof {
            assert(self.bytes =~= null_account().bytes);
        }
        true
    }

    /// Whether `self` comes strictly before `other` in the bytewise order.
    pub fn less_than(&self, other: &AccountId) -> (r: bool)
        ensures
            r == self.spec_lt(other),
    {
        let mut i: usize = 0;
        while i < 32
            invariant
                i <= 32,
                self@.len() == 32,
                other@.len() == 32,
                bytes_less(self@, other@) == less_from(self@, other@, i as int),
            decreases 32 - i,
        {
            if self.bytes[i] != other.bytes[i] {
                return self.bytes[i] < other.bytes[i];
            }
            i = i + 1;
        }
        false
    }
}

/// No identifier comes before itself.
pub proof fn lemma_less_irreflexive(a: Seq<u8>, i: int)
    ensures
        !less_from(a, a, i),
    decreases a.len() - i,
{
    if 0 <= i < a.len() {
        lemma_less_irreflexive(a, i + 1);
    }
}

/// Of two identifiers at most one comes before the other.
pub proof fn lemma_less_asymmetric(a: Seq<u8>, b: Seq<u8>, i: int)
    requires
        a.len() == b.len(),
    ensures
        !(less_from(a, b, i) && less_from(b, a, i)),
    decreases a.len() - i,
{
    if 0 <= i < a.len() {
        lemma_less_asymmetric(a, b, i + 1);
    }
}

/// Two identifiers that agree from `i` on in neither direction of the order agree bytewise.
pub proof fn lemma_less_total(a: Seq<u8>, b: Seq<u8>, i: int)
    requires
        a.len() == b.len(),
        0 <= i,
        !less_from(a, b, i),
        !less_from(b, a, i),
    ensures
        forall|j: int| i <= j < a.len() ==> a[j] == b[j],
    decreases a.len() - i,
{
    if i < a.len() {
        lemma_less_total(a, b, i + 1);
    }
}

/// The bytewise order is transitive.
pub proof fn lemma_less_transitive(a: Seq<u8>, b: Seq<u8>, c: Seq<u8>, i: int)
    requires
        a.len() == b.len(),
        b.len() == c.len(),
        less_from(a, b, i),
        less_from(b, c, i),
    ensures
        less_from(a, c, i),
    decreases a.len() - i,
{
    if 0 <= i < a.len() {
        if a[i] == b[i] && b[i] == c[i] {
            lemma_less_transitive(a, b, c, i + 1);
        }
    }
}

/// The bytewise order on account identifiers is a strict total order:
/// exactly one of `a < b`, `a == b`, `b < a` holds.
pub proof fn lemma_account_order_total(a: AccountId, b: AccountId)
    ensures
        !a.spec_lt(&a),
        !(a.spec_lt(&b) && b.spec_lt(&a)),
        a != b ==> (a.spec_lt(&b) || b.spec_lt(&a)),
        a == b ==> !a.spec_lt(&b),
{
    lemma_less_irreflexive(a@, 0);
    lemma_less_asymmetric(a@, b@, 0);
    if !a.spec_lt(&b) && !b.spec_lt(&a) {
        lemma_less_total(a@, b@, 0);
        assert(a.bytes@ =~= b.bytes@);
        assert(a.bytes == b.bytes);
    }
}

/// The bytewise order on account identifiers is transitive.
pub proof fn lemma_account_order_transitive(a: AccountId, b: AccountId, c: AccountId)
    requires
        a.spec_lt(&b),
        b.spec_lt(&c),
    ensures
        a.spec_lt(&c),
{
    lemma_less_transitive(a@, b@, c@, 0);
}

} // verus!
