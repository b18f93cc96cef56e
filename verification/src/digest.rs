use twenty_first::prelude::BFieldElement;
use vstd::arithmetic::power::pow;
use vstd::prelude::*;

verus! {

/// The prime modulus of the base field: 2^64 - 2^32 + 1.
pub const FIELD_PRIME: u64 = 0xffff_ffff_0000_0001u64;

/// The number of field elements in a digest.
pub const DIGEST_LEN: usize = 5;

/// A fixed-width hash output: five base-field elements, each held as its
/// canonical representative (a `u64` below `FIELD_PRIME`).
///
/// Digests serve as identifiers, nonces and thresholds. They are totally
/// ordered, with the last element being the most significant.
#[derive(Clone, Copy, Debug, PartialEq, Eq, Hash)]
pub struct Digest {
    pub(crate) values: [u64; 5],
}

/// Whether `limbs` is a well-formed digest: five elements, each canonical.
pub open spec fn is_canonical(limbs: Seq<u64>) -> bool {
    &&& limbs.len() == DIGEST_LEN
    &&& forall|i: int| 0 <= i < DIGEST_LEN ==> #[trigger] limbs[i] < FIELD_PRIME
}

/// The canonical representatives of five integers taken as field elements.
pub open spec fn reduced(values: Seq<u64>) -> Seq<u64> {
    Seq::new(DIGEST_LEN as nat, |i: int| (values[i] % FIELD_PRIME) as u64)
}

/// Lexicographic "at most" on the first `n` elements of two digests, the
/// element at index `n - 1` being the most significant.
pub open spec fn prefix_le(a: Seq<u64>, b: Seq<u64>, n: int) -> bool
    decreases n,
{
    if n <= 0 {
        true
    } else if a[n - 1] != b[n - 1] {
        a[n - 1] < b[n - 1]
    } else {
        prefix_le(a, b, n - 1)
    }
}

/// The total order on digests: `a` is at most `b`.
pub open spec fn digest_le(a: Seq<u64>, b: Seq<u64>) -> bool {
    prefix_le(a, b, DIGEST_LEN as int)
}

/// The elements of the least digest.
pub open spec fn min_limbs() -> Seq<u64> {
    Seq::new(DIGEST_LEN as nat, |i: int| 0u64)
}

/// The elements of the greatest digest.
pub open spec fn max_limbs() -> Seq<u64> {
    Seq::new(DIGEST_LEN as nat, |i: int| (FIELD_PRIME - 1) as u64)
}

/// The number of characters in a digest's hexadecimal form.
pub const HEX_LEN: usize = 80;

/// The lower-case hexadecimal digit for a value from 0 to 15.
pub open spec fn hex_digit(n: int) -> char {
    "0123456789abcdef"@[n]
}

/// Byte `k` of a digest: each element contributes eight bytes, least
/// significant first.
pub open spec fn digest_byte(limbs: Seq<u64>, k: int) -> int {
    (limbs[k / 8] as int / pow(256, (k % 8) as nat)) % 256
}

/// The hexadecimal form of a digest: two digits for each of its forty bytes,
/// the high half of a byte before the low half.
pub open spec fn digest_hex(limbs: Seq<u64>) -> Seq<char> {
    Seq::new(
        HEX_LEN as nat,
        |i: int|
            if i % 2 == 0 {
                hex_digit(digest_byte(limbs, i / 2) / 16)
            } else {
                hex_digit(digest_byte(limbs, i / 2) % 16)
            },
    )
}

impl View for Digest {
    type V = Seq<u64>;

    closed spec fn view(&self) -> Seq<u64> {
        self.values@
    }
}

impl Digest {
    #[verifier::type_invariant]
    closed spec fn canonical(self) -> bool {
        is_canonical(self.values@)
    }

    /// Builds a digest from five integers, reducing each into the base field.
    pub fn new(values: [u64; 5]) -> (result: Digest)
        ensures
            result@ == reduced(values@),
            is_canonical(result@),
    {
        let result = Digest {
            values: [
                values[0] % FIELD_PRIME,
                values[1] % FIELD_PRIME,
                values[2] % FIELD_PRIME,
                values[3] % FIELD_PRIME,
                values[4] % FIELD_PRIME,
            ],
        };
        assert(result@ =~= reduced(values@));
        result
    }

    /// The five canonical element values, least significant first.
    pub fn values(&self) -> (result: [u64; 5])
        ensures
            result@ == self@,
            is_canonical(self@),
    {
        proof {
            use_type_invariant(self);
        }
        self.values
    }

    /// The least digest: every element is zero.
    pub fn min() -> (result: Digest)
        ensures
            result@ == min_limbs(),
    {
        let result = Digest { values: [0, 0, 0, 0, 0] };
        assert(result@ =~= min_limbs());
        result
    }

    /// The greatest digest: every element is the largest field element.
    pub fn max() -> (result: Digest)
        ensures
            result@ == max_limbs(),
    {
        let top: u64 = FIELD_PRIME - 1;
        let result = Digest { values: [top, top, top, top, top] };
        assert(result@ =~= max_limbs());
        result
    }

    /// Whether `self` is at most `other` in the digest order.
    pub fn le(&self, other: &Digest) -> (result: bool)
        ensures
            result == digest_le(self@, other@),
    {
        let mut n: usize = DIGEST_LEN;
        while n > 0
            invariant
                n <= DIGEST_LEN,
                digest_le(self@, other@) == prefix_le(self@, other@, n as int),
            decreases n,
        {
            if self.values[n - 1] != other.values[n - 1] {
                return self.values[n - 1] < other.values[n - 1];
            }
            n = n - 1;
        }
        true
    }

    /// The digest in hexadecimal: eighty lower-case digits.
    pub fn to_hex(&self) -> (result: String)
        ensures
            result@ == digest_hex(self@),
    {
        hex(*self)
    }
}

/// Calls `Digest::to_hex` of `twenty_first` on the digest.
///
/// Trusted: the result spells the digest's forty bytes, each element as its
/// canonical value in eight little-endian bytes, with two lower-case
/// hexadecimal digits per byte.
#[verifier::external_body]
pub(crate) fn hex(digest: Digest) -> (result: String)
    ensures
        result@ == digest_hex(digest@),
{
    twenty_first::prelude::Digest::new(digest.values.map(BFieldElement::new)).to_hex()
}

proof fn lemma_prefix_le_reflexive(a: Seq<u64>, n: int)
    ensures
        prefix_le(a, a, n),
    decreases n,
{
    if n > 0 {
        lemma_prefix_le_reflexive(a, n - 1);
    }
}

proof fn lemma_prefix_le_total(a: Seq<u64>, b: Seq<u64>, n: int)
    ensures
        prefix_le(a, b, n) || prefix_le(b, a, n),
    decreases n,
{
    if n > 0 {
        lemma_prefix_le_total(a, b, n - 1);
    }
}

proof fn lemma_prefix_le_antisymmetric(a: Seq<u64>, b: Seq<u64>, n: int)
    requires
        prefix_le(a, b, n),
        prefix_le(b, a, n),
    ensures
        forall|i: int| 0 <= i < n ==> a[i] == b[i],
    decreases n,
{
    if n > 0 {
        lemma_prefix_le_antisymmetric(a, b, n - 1);
    }
}

proof fn lemma_prefix_le_transitive(a: Seq<u64>, b: Seq<u64>, c: Seq<u64>, n: int)
    requires
        prefix_le(a, b, n),
        prefix_le(b, c, n),
    ensures
        prefix_le(a, c, n),
    decreases n,
{
    if n > 0 && a[n - 1] == b[n - 1] && b[n - 1] == c[n - 1] {
        lemma_prefix_le_transitive(a, b, c, n - 1);
    }
}

proof fn lemma_prefix_le_bounds(a: Seq<u64>, n: int)
    requires
        0 <= n <= DIGEST_LEN,
        is_canonical(a),
    ensures
        prefix_le(min_limbs(), a, n),
        prefix_le(a, max_limbs(), n),
    decreases n,
{
    if n > 0 {
        lemma_prefix_le_bounds(a, n - 1);
    }
}

proof fn lemma_prefix_le_min(a: Seq<u64>, n: int)
    requires
        0 <= n <= DIGEST_LEN,
        prefix_le(a, min_limbs(), n),
    ensures
        forall|i: int| 0 <= i < n ==> a[i] == 0,
    decreases n,
{
    if n > 0 {
        lemma_prefix_le_min(a, n - 1);
    }
}

/// A digest is determined by its elements.
pub proof fn lemma_view_injective(a: Digest, b: Digest)
    requires
        a@ == b@,
    ensures
        a == b,
{
    assert(a.values@ == b.values@);
    assert(a.values == b.values);
}

/// Every digest is at most itself.
pub proof fn lemma_le_reflexive(a: Seq<u64>)
    ensures
        digest_le(a, a),
{
    lemma_prefix_le_reflexive(a, DIGEST_LEN as int);
}

/// Any two digests are comparable.
pub proof fn lemma_le_total(a: Seq<u64>, b: Seq<u64>)
    ensures
        digest_le(a, b) || digest_le(b, a),
{
    lemma_prefix_le_total(a, b, DIGEST_LEN as int);
}

/// Two digests that are each at most the other are the same digest.
pub proof fn lemma_le_antisymmetric(a: Seq<u64>, b: Seq<u64>)
    requires
        a.len() == DIGEST_LEN,
        b.len() == DIGEST_LEN,
        digest_le(a, b),
        digest_le(b, a),
    ensures
        a == b,
{
    lemma_prefix_le_antisymmetric(a, b, DIGEST_LEN as int);
    assert(a =~= b);
}

/// The order is transitive.
pub proof fn lemma_le_transitive(a: Seq<u64>, b: Seq<u64>, c: Seq<u64>)
    requires
        digest_le(a, b),
        digest_le(b, c),
    ensures
        digest_le(a, c),
{
    lemma_prefix_le_transitive(a, b, c, DIGEST_LEN as int);
}

/// Every well-formed digest lies between the least and the greatest digest.
pub proof fn lemma_le_bounds(a: Seq<u64>)
    requires
        is_canonical(a),
    ensures
        digest_le(min_limbs(), a),
        digest_le(a, max_limbs()),
{
    lemma_prefix_le_bounds(a, DIGEST_LEN as int);
}

/// Only the least digest is at most the least digest.
pub proof fn lemma_le_min_is_min(a: Seq<u64>)
    requires
        a.len() == DIGEST_LEN,
        digest_le(a, min_limbs()),
    ensures
        a == min_limbs(),
{
    lemma_prefix_le_min(a, DIGEST_LEN as int);
    assert(a =~= min_limbs());
}

} // verus!
