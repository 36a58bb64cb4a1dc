//! What the libgit2 backend computes itself: the text of a commit id, and the name of the
//! remote-tracking reference of a branch.
use vstd::prelude::*;

verus! {

/// Don't need any fields, just a target for implementing the backend.
pub struct Git2Backend;

/// The lowercase hexadecimal digits, by value.
pub open spec fn hex_digits() -> Seq<char> {
    seq!['0', '1', '2', '3', '4', '5', '6', '7', '8', '9', 'a', 'b', 'c', 'd', 'e', 'f']
}

/// The lowercase hexadecimal text of `bytes`: two digits per byte, the high nibble first.
pub open spec fn hex_of(bytes: Seq<u8>) -> Seq<char>
    decreases bytes.len(),
{
    if bytes.len() == 0 {
        Seq::empty()
    } else {
        hex_of(bytes.drop_last()) + seq![
            hex_digits()[bytes.last() as int / 16],
            hex_digits()[bytes.last() as int % 16],
        ]
    }
}

/// The value of a lowercase hexadecimal digit; -1 for any other character.
pub open spec fn hex_value(c: char) -> int {
    if '0' <= c && c <= '9' {
        c as int - '0' as int
    } else if 'a' <= c && c <= 'f' {
        c as int - 'a' as int + 10
    } else {
        -1
    }
}

/// Each digit is the one of its value.
proof fn lemma_hex_digit_values()
    ensures
        forall|d: int| 0 <= d < 16 ==> #[trigger] hex_value(hex_digits()[d]) == d,
{
    assert forall|d: int| 0 <= d < 16 implies #[trigger] hex_value(hex_digits()[d]) == d by {
        assert(hex_value('0') == 0 && hex_value('1') == 1 && hex_value('2') == 2 && hex_value('3') == 3);
        assert(hex_value('4') == 4 && hex_value('5') == 5 && hex_value('6') == 6 && hex_value('7') == 7);
        assert(hex_value('8') == 8 && hex_value('9') == 9 && hex_value('a') == 10 && hex_value('b') == 11);
        assert(hex_value('c') == 12 && hex_value('d') == 13 && hex_value('e') == 14 && hex_value('f') == 15);
    }
}

/// The text of a hash reads back as its bytes: it has two characters per byte, each a
/// lowercase hexadecimal digit, and the digits of byte `i`, high then low, make its value.
pub proof fn law_hex_of_reads_back(bytes: Seq<u8>)
    ensures
        hex_of(bytes).len() == 2 * bytes.len(),
        forall|i: int| 0 <= i < bytes.len() ==> {
            &&& 0 <= hex_value(#[trigger] hex_of(bytes)[2 * i]) < 16
            &&& 0 <= hex_value(hex_of(bytes)[2 * i + 1]) < 16
            &&& hex_value(hex_of(bytes)[2 * i]) * 16 + hex_value(hex_of(bytes)[2 * i + 1]) == bytes[i]
        },
    decreases bytes.len(),
{
    lemma_hex_digit_values();
    if bytes.len() > 0 {
        let rest = bytes.drop_last();
        law_hex_of_reads_back(rest);
        let t = hex_of(bytes);
        let n = bytes.len() - 1;
        let b = bytes.last() as int;
        assert(t =~= hex_of(rest) + seq![hex_digits()[b / 16], hex_digits()[b % 16]]);
        assert forall|i: int| 0 <= i < bytes.len() implies {
            &&& 0 <= hex_value(#[trigger] t[2 * i]) < 16
            &&& 0 <= hex_value(t[2 * i + 1]) < 16
            &&& hex_value(t[2 * i]) * 16 + hex_value(t[2 * i + 1]) == bytes[i]
        } by {
            if i < n {
                assert(t[2 * i] == hex_of(rest)[2 * i]);
                assert(t[2 * i + 1] == hex_of(rest)[2 * i + 1]);
                assert(rest[i] == bytes[i]);
            } else {
                assert(t[2 * i] == hex_digits()[b / 16]);
                assert(t[2 * i + 1] == hex_digits()[b % 16]);
                assert(hex_value(hex_digits()[b / 16]) == b / 16);
                assert(hex_value(hex_digits()[b % 16]) == b % 16);
                assert(b / 16 * 16 + b % 16 == b) by (nonlinear_arith);
            }
        }
    }
}

/// The text of a commit id, from its raw bytes: each byte as two lowercase hex digits.
pub fn hash_hex(bytes: &[u8]) -> (r: String)
    ensures
        r@ == hex_of(bytes@),
        r@.len() == 2 * bytes@.len(),
{
    let digits = "0123456789abcdef";
    proof {
        reveal_strlit("0123456789abcdef");
        assert(digits@ =~= hex_digits());
    }
    let mut out = String::new();
    let mut i: usize = 0;
    while i < bytes.len()
        invariant
            0 <= i <= bytes@.len(),
            digits@ == hex_digits(),
            out@ == hex_of(bytes@.subrange(0, i as int)),
            out@.len() == 2 * i,
        decreases bytes@.len() - i,
    {
        let b = bytes[i];
        let hi = (b / 16) as usize;
        let lo = (b % 16) as usize;
        let hi_text = digits.substring_char(hi, hi + 1);
        let lo_text = digits.substring_char(lo, lo + 1);
        let ghost before = out@;
        out.append(hi_text);
        out.append(lo_text);
        proof {
            let s = bytes@.subrange(0, i + 1);
            assert(s.drop_last() =~= bytes@.subrange(0, i as int));
            assert(s.last() == b);
            assert(hi_text@ =~= seq![hex_digits()[hi as int]]);
            assert(lo_text@ =~= seq![hex_digits()[lo as int]]);
            assert(out@ =~= hex_of(s));
        }
        i = i + 1;
    }
    assert(bytes@.subrange(0, i as int) =~= bytes@);
    out
}

/// The remote-tracking reference of branch `rev` on the `origin` remote.
pub fn remote_tracking_ref(rev: &str) -> (r: String)
    ensures
        r@ == "refs/remotes/origin/"@ + rev@,
{
    let mut out = "refs/remotes/origin/".to_owned();
    out.append(rev);
    out
}

} // verus!
