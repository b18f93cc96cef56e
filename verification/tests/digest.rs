use cassini::digest::{Digest, DIGEST_LEN, FIELD_PRIME, HEX_LEN};
use twenty_first::prelude::BFieldElement;

fn outside(values: [u64; 5]) -> twenty_first::prelude::Digest {
    twenty_first::prelude::Digest::new(values.map(BFieldElement::new))
}

fn samples() -> Vec<[u64; 5]> {
    let top = FIELD_PRIME - 1;
    vec![
        [0, 0, 0, 0, 0],
        [1, 0, 0, 0, 0],
        [0, 1, 0, 0, 0],
        [0, 0, 0, 0, 1],
        [top, 0, 0, 0, 0],
        [0, top, top, top, 0],
        [top, top, top, top, 0],
        [7, 6, 5, 4, 3],
        [3, 4, 5, 6, 7],
        [3, 4, 5, 6, 8],
        [4, 4, 5, 6, 7],
        [1 << 63, 1 << 32, 12345, 1 << 40, 1 << 63],
        [top, top, top, top, top],
    ]
}

#[test]
fn constants_match_the_field() {
    assert_eq!(FIELD_PRIME, BFieldElement::P);
    assert_eq!(FIELD_PRIME, 18446744069414584321);
    assert_eq!(DIGEST_LEN, twenty_first::prelude::Digest::LEN);
    assert_eq!(HEX_LEN, 2 * twenty_first::prelude::Digest::BYTES);
}

#[test]
fn new_keeps_canonical_values() {
    let values = [1, 2, 3, 4, FIELD_PRIME - 1];
    assert_eq!(Digest::new(values).values(), values);
}

#[test]
fn new_reduces_into_the_field() {
    let digest = Digest::new([FIELD_PRIME, FIELD_PRIME + 5, u64::MAX, 0, 9]);
    assert_eq!(digest.values(), [0, 5, 4294967294, 0, 9]);
}

#[test]
fn new_agrees_with_field_elements() {
    for values in [[FIELD_PRIME, u64::MAX, 17, FIELD_PRIME + 1, FIELD_PRIME - 1], [0, 1, 2, 3, 4]] {
        let expected = outside(values).values().map(|element| element.value());
        assert_eq!(Digest::new(values).values(), expected);
    }
}

#[test]
fn min_and_max_are_the_extremes() {
    let top = FIELD_PRIME - 1;
    assert_eq!(Digest::min().values(), [0, 0, 0, 0, 0]);
    assert_eq!(Digest::max().values(), [top, top, top, top, top]);
    for values in samples() {
        let digest = Digest::new(values);
        assert!(Digest::min().le(&digest));
        assert!(digest.le(&Digest::max()));
    }
}

#[test]
fn last_element_is_most_significant() {
    let small = Digest::new([FIELD_PRIME - 1, FIELD_PRIME - 1, FIELD_PRIME - 1, FIELD_PRIME - 1, 0]);
    let large = Digest::new([0, 0, 0, 0, 1]);
    assert!(small.le(&large));
    assert!(!large.le(&small));
    let low = Digest::new([1, 9, 0, 0, 0]);
    let high = Digest::new([0, 0, 1, 0, 0]);
    assert!(low.le(&high));
    assert!(!high.le(&low));
}

#[test]
fn le_is_reflexive() {
    for values in samples() {
        let digest = Digest::new(values);
        assert!(digest.le(&digest));
    }
}

#[test]
fn le_is_total_and_antisymmetric() {
    for a in samples() {
        for b in samples() {
            let (x, y) = (Digest::new(a), Digest::new(b));
            assert!(x.le(&y) || y.le(&x));
            assert_eq!(x.le(&y) && y.le(&x), x == y);
        }
    }
}

#[test]
fn le_is_transitive() {
    for a in samples() {
        for b in samples() {
            for c in samples() {
                let (x, y, z) = (Digest::new(a), Digest::new(b), Digest::new(c));
                if x.le(&y) && y.le(&z) {
                    assert!(x.le(&z));
                }
            }
        }
    }
}

#[test]
fn le_agrees_with_the_field_library() {
    for a in samples() {
        for b in samples() {
            assert_eq!(Digest::new(a).le(&Digest::new(b)), outside(a) <= outside(b));
        }
    }
}

#[test]
fn hex_of_a_known_digest() {
    let digest = Digest::new([1, 256, 0xdeadbeef, 0, FIELD_PRIME - 1]);
    let expected = "01000000000000000001000000000000efbeadde00000000000000000000000000000000ffffffff";
    assert_eq!(digest.to_hex(), expected);
}

#[test]
fn hex_of_the_extremes() {
    assert_eq!(Digest::min().to_hex(), "0".repeat(80));
    assert_eq!(Digest::max().to_hex(), "00000000ffffffff".repeat(5));
}

#[test]
fn hex_has_fixed_length_and_lower_case_digits() {
    for values in samples() {
        let hex = Digest::new(values).to_hex();
        assert_eq!(hex.len(), HEX_LEN);
        assert!(hex.chars().all(|c| "0123456789abcdef".contains(c)));
    }
}

#[test]
fn hex_agrees_with_the_field_library() {
    for values in samples() {
        assert_eq!(Digest::new(values).to_hex(), outside(values).to_hex());
    }
}

#[test]
fn hex_reads_back_as_the_same_digest() {
    for values in samples() {
        let hex = Digest::new(values).to_hex();
        let back = twenty_first::prelude::Digest::try_from_hex(&hex).unwrap();
        assert_eq!(back.values().map(|element| element.value()), values);
    }
}
