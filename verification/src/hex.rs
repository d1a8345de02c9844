//! Lowercase hexadecimal encoding and decoding of 64-bit values, as used for
//! the wire representation of interned span ids.

use vstd::prelude::*;

verus! {

/// The character that stands for one hexadecimal digit value (lowercase).
pub open spec fn nibble_char(n: int) -> char {
    if n == 0 {
        '0'
    } else if n == 1 {
        '1'
    } else if n == 2 {
        '2'
    } else if n == 3 {
        '3'
    } else if n == 4 {
        '4'
    } else if n == 5 {
        '5'
    } else if n == 6 {
        '6'
    } else if n == 7 {
        '7'
    } else if n == 8 {
        '8'
    } else if n == 9 {
        '9'
    } else if n == 10 {
        'a'
    } else if n == 11 {
        'b'
    } else if n == 12 {
        'c'
    } else if n == 13 {
        'd'
    } else if n == 14 {
        'e'
    } else {
        'f'
    }
}

/// The canonical lowercase hexadecimal rendering of a value: most significant
/// digit first, no leading zeros, and the single digit `0` for zero.
pub open spec fn hex_rep(v: nat) -> Seq<char>
    decreases v,
{
    if v < 16 {
        seq![nibble_char(v as int)]
    } else {
        hex_rep(v / 16).push(nibble_char((v % 16) as int))
    }
}

/// The value of one hexadecimal digit character (either case), or -1 for a
/// character that is no hexadecimal digit.
pub open spec fn hex_digit_val(c: char) -> int {
    let u = c as u32;
    if 48 <= u && u <= 57 {
        u - 48
    } else if 97 <= u && u <= 102 {
        u - 87
    } else if 65 <= u && u <= 70 {
        u - 55
    } else {
        -1
    }
}

/// The value denoted by a sequence of hexadecimal digit characters, most
/// significant digit first.
pub open spec fn hex_val(s: Seq<char>) -> int
    decreases s.len(),
{
    if s.len() == 0 {
        0
    } else {
        hex_val(s.drop_last()) * 16 + hex_digit_val(s.last())
    }
}

/// Whether a character sequence is a well-formed hexadecimal numeral whose
/// value fits in 64 bits: nonempty, hexadecimal digits only, value at most
/// `u64::MAX`. Leading zeros are accepted.
pub open spec fn is_hex_str(s: Seq<char>) -> bool {
    &&& s.len() >= 1
    &&& (forall|j: int| 0 <= j < s.len() ==> hex_digit_val(#[trigger] s[j]) >= 0)
    &&& hex_val(s) <= u64::MAX
}

/// The value of a digit string is never negative.
pub proof fn lemma_hex_val_nonneg(s: Seq<char>)
    requires
        forall|j: int| 0 <= j < s.len() ==> hex_digit_val(#[trigger] s[j]) >= 0,
    ensures
        hex_val(s) >= 0,
    decreases s.len(),
{
    if s.len() > 0 {
        lemma_hex_val_nonneg(s.drop_last());
    }
}

/// Extending a digit string on the right never decreases its value.
proof fn lemma_hex_val_prefix_le(s: Seq<char>, k: int)
    requires
        0 <= k <= s.len(),
        forall|j: int| 0 <= j < s.len() ==> hex_digit_val(#[trigger] s[j]) >= 0,
    ensures
        hex_val(s.take(k)) <= hex_val(s),
    decreases s.len() - k,
{
    if k == s.len() {
        assert(s.take(k) =~= s);
    } else {
        lemma_hex_val_prefix_le(s, k + 1);
        let t = s.take(k + 1);
        assert(t.drop_last() =~= s.take(k));
        assert(t.last() == s[k]);
        assert(forall|j: int| 0 <= j < k ==> #[trigger] s.take(k)[j] == s[j]);
        lemma_hex_val_nonneg(s.take(k));
        assert(hex_val(t) == hex_val(s.take(k)) * 16 + hex_digit_val(s[k]));
        assert(hex_val(s.take(k)) * 16 >= hex_val(s.take(k))) by (nonlinear_arith)
            requires
                hex_val(s.take(k)) >= 0,
        ;
    }
}

/// The value of one hexadecimal digit character, if it is one.
pub fn hex_digit_value(c: char) -> (r: Option<u8>)
    ensures
        r matches Some(d) ==> hex_digit_val(c) == d as int && d < 16,
        r is None ==> hex_digit_val(c) < 0,
{
    let u: u32 = c as u32;
    if 48 <= u && u <= 57 {
        Some((u - 48) as u8)
    } else if 97 <= u && u <= 102 {
        Some((u - 87) as u8)
    } else if 65 <= u && u <= 70 {
        Some((u - 55) as u8)
    } else {
        None
    }
}

/// Parses a hexadecimal numeral (either case, leading zeros accepted) into a
/// 64-bit value; `None` exactly on inputs that are empty, hold a non-digit, or
/// denote a value above `u64::MAX`.
pub fn parse_hex_u64(s: &str) -> (r: Option<u64>)
    ensures
        r matches Some(v) ==> is_hex_str(s@) && v as int == hex_val(s@),
        r is None ==> !is_hex_str(s@),
{
    let n: usize = s.unicode_len();
    if n == 0 {
        return None;
    }
    let mut acc: u64 = 0;
    let mut i: usize = 0;
    while i < n
        invariant
            n == s@.len(),
            0 <= i <= n,
            forall|j: int| 0 <= j < i ==> hex_digit_val(#[trigger] s@[j]) >= 0,
            acc as int == hex_val(s@.take(i as int)),
        decreases n - i,
    {
        let c = s.get_char(i);
        match hex_digit_value(c) {
            None => {
                assert(hex_digit_val(s@[i as int]) < 0);
                return None;
            },
            Some(d) => {
                if acc > (u64::MAX - d as u64) / 16 {
                    proof {
                        let t = s@.take(i + 1);
                        assert(t.drop_last() =~= s@.take(i as int));
                        assert(t.last() == s@[i as int]);
                        assert(hex_val(t) == acc as int * 16 + d as int);
                        assert(acc as int * 16 + d as int > u64::MAX) by (nonlinear_arith)
                            requires
                                acc as int > (u64::MAX - d as int) / 16,
                                0 <= d < 16,
                                0 <= acc <= u64::MAX,
                        ;
                        if forall|j: int| 0 <= j < s@.len() ==> hex_digit_val(#[trigger] s@[j]) >= 0 {
                            lemma_hex_val_prefix_le(s@, i + 1);
                        }
                    }
                    return None;
                }
                proof {
                    assert(acc as int * 16 + d as int <= u64::MAX) by (nonlinear_arith)
                        requires
                            acc as int <= (u64::MAX - d as int) / 16,
                            0 <= d < 16,
                            0 <= acc,
                    ;
                    let t = s@.take(i + 1);
                    assert(t.drop_last() =~= s@.take(i as int));
                    assert(t.last() == s@[i as int]);
                }
                acc = acc * 16 + d as u64;
                i += 1;
            },
        }
    }
    proof {
        assert(s@.take(n as int) =~= s@);
    }
    Some(acc)
}

/// The digit characters of `ds` (least significant first), read back to front.
pub open spec fn rev_digit_chars(ds: Seq<u8>) -> Seq<char> {
    Seq::new(ds.len(), |j: int| nibble_char(ds[ds.len() - 1 - j] as int))
}

/// Renders a 64-bit value as a lowercase hexadecimal numeral without leading
/// zeros, as the wire protocol carries span ids.
pub fn u64_to_hex(v: u64) -> (r: String)
    ensures
        r@ == hex_rep(v as nat),
{
    let mut digits: Vec<u8> = Vec::new();
    let d0: u8 = (v % 16) as u8;
    digits.push(d0);
    let mut cur: u64 = v / 16;
    proof {
        if cur == 0 {
            assert(rev_digit_chars(digits@) =~= hex_rep(v as nat));
        } else {
            assert(rev_digit_chars(digits@) =~= seq![nibble_char((v % 16) as int)]);
            assert(hex_rep(v as nat) == hex_rep(cur as nat) + rev_digit_chars(digits@));
        }
    }
    while cur > 0
        invariant
            digits@.len() >= 1,
            forall|j: int| 0 <= j < digits@.len() ==> #[trigger] digits@[j] < 16,
            cur == 0 ==> hex_rep(v as nat) == rev_digit_chars(digits@),
            cur > 0 ==> hex_rep(v as nat) == hex_rep(cur as nat) + rev_digit_chars(digits@),
        decreases cur,
    {
        let d: u8 = (cur % 16) as u8;
        let ghost pre = digits@;
        digits.push(d);
        proof {
            assert(rev_digit_chars(pre.push(d)) =~= seq![nibble_char(d as int)] + rev_digit_chars(
                pre,
            ));
            if cur >= 16 {
                assert(hex_rep(cur as nat) == hex_rep((cur / 16) as nat) + seq![
                    nibble_char((cur % 16) as int),
                ]);
                assert(hex_rep(cur as nat) + rev_digit_chars(pre) =~= hex_rep((cur / 16) as nat)
                    + rev_digit_chars(pre.push(d)));
            } else {
                assert(hex_rep(cur as nat) =~= seq![nibble_char((cur % 16) as int)]);
                assert(hex_rep(cur as nat) + rev_digit_chars(pre) =~= rev_digit_chars(
                    pre.push(d),
                ));
            }
        }
        cur = cur / 16;
    }
    let table = "0123456789abcdef";
    proof {
        reveal_strlit("0123456789abcdef");
    }
    let mut out = String::new();
    let n: usize = digits.len();
    let mut j: usize = 0;
    while j < n
        invariant
            n == digits@.len(),
            0 <= j <= n,
            forall|k: int| 0 <= k < digits@.len() ==> #[trigger] digits@[k] < 16,
            hex_rep(v as nat) == rev_digit_chars(digits@),
            out@ == rev_digit_chars(digits@).take(j as int),
            table@.len() == 16,
            forall|k: int| 0 <= k < 16 ==> #[trigger] table@[k] == nibble_char(k),
        decreases n - j,
    {
        let idx: usize = n - 1 - j;
        let d: u8 = digits[idx];
        let piece = table.substring_char(d as usize, d as usize + 1);
        assert(piece@ =~= seq![nibble_char(d as int)]);
        out.append(piece);
        proof {
            assert(rev_digit_chars(digits@).take(j + 1) =~= rev_digit_chars(digits@).take(j as int)
                + seq![nibble_char(d as int)]);
        }
        j += 1;
    }
    proof {
        assert(rev_digit_chars(digits@).take(n as int) =~= rev_digit_chars(digits@));
    }
    out
}

/// Encoding then decoding is the identity: the hexadecimal rendering of any
/// 64-bit value is a well-formed numeral that denotes that value again.
pub proof fn lemma_hex_round_trip(v: u64)
    ensures
        is_hex_str(hex_rep(v as nat)),
        hex_val(hex_rep(v as nat)) == v as int,
    decreases v,
{
    assert(forall|d: int| 0 <= d < 16 ==> hex_digit_val(#[trigger] nibble_char(d)) == d);
    if v < 16 {
        let s = hex_rep(v as nat);
        assert(s =~= seq![nibble_char(v as int)]);
        assert(s.drop_last() =~= Seq::<char>::empty());
        assert(s.last() == nibble_char(v as int));
        assert(hex_val(Seq::<char>::empty()) == 0);
        assert(hex_val(s) == hex_val(s.drop_last()) * 16 + hex_digit_val(s.last()));
        assert(hex_val(s) == v as int);
    } else {
        lemma_hex_round_trip(v / 16);
        let s = hex_rep(v as nat);
        let p = hex_rep((v / 16) as nat);
        assert(s == p.push(nibble_char((v % 16) as int)));
        assert(s.drop_last() =~= p);
        assert(s.last() == nibble_char((v % 16) as int));
        assert(hex_val(s) == hex_val(p) * 16 + (v % 16) as int);
        assert(forall|j: int|
            0 <= j < s.len() ==> hex_digit_val(#[trigger] s[j]) >= 0) by {
            assert(forall|j: int| 0 <= j < p.len() ==> #[trigger] s[j] == p[j]);
        }
    }
}

} // verus!
