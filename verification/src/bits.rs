//! Bit-stream helpers shared by the JTAG core and the DAP layer: a
//! word is clocked over TDI/TDO least-significant bit first, so scans
//! are modelled as `Seq<bool>` and these functions move between such
//! sequences and machine words.

use vstd::arithmetic::power2::{lemma_pow2_adds, lemma_pow2_pos, lemma_pow2_strictly_increases, pow2};
use vstd::prelude::*;

verus! {

/// The smaller of two naturals.
pub open spec fn min_nat(a: nat, b: nat) -> nat {
    if a <= b {
        a
    } else {
        b
    }
}

/// The first `n` entries of `q`, padded with `false` once `q` runs
/// out: an adapter whose sample queue is exhausted reads back low.
pub open spec fn take_pad(q: Seq<bool>, n: nat) -> Seq<bool> {
    Seq::new(n, |i: int| if i < q.len() { q[i] } else { false })
}

/// The value of a bit sequence read least-significant bit first.
pub open spec fn bits_val(s: Seq<bool>) -> nat
    decreases s.len(),
{
    if s.len() == 0 {
        0
    } else {
        (if s[0] {
            1nat
        } else {
            0nat
        }) + 2 * bits_val(s.skip(1))
    }
}

/// The low `n` bits of `v`, least-significant bit first.
pub open spec fn bit_seq(v: u32, n: nat) -> Seq<bool>
    decreases n,
{
    if n == 0 {
        Seq::empty()
    } else {
        seq![v % 2 == 1] + bit_seq(v / 2, (n - 1) as nat)
    }
}

pub proof fn lemma_bit_seq_len(v: u32, n: nat)
    ensures
        bit_seq(v, n).len() == n,
    decreases n,
{
    if n > 0 {
        lemma_bit_seq_len(v / 2, (n - 1) as nat);
    }
}

/// A bit sequence of length `n` denotes a value below `pow2(n)`.
pub proof fn lemma_bits_val_bound(s: Seq<bool>)
    ensures
        bits_val(s) < pow2(s.len()),
    decreases s.len(),
{
    if s.len() == 0 {
        assert(pow2(0) == 1) by {
            lemma_pow2_pos(0);
            vstd::arithmetic::power2::lemma2_to64();
        }
    } else {
        lemma_bits_val_bound(s.skip(1));
        assert(pow2(s.len()) == 2 * pow2((s.len() - 1) as nat)) by {
            lemma_pow2_adds(1, (s.len() - 1) as nat);
            vstd::arithmetic::power2::lemma2_to64();
        }
    }
}

/// Encoding the low `n` bits of `v` and reading them back yields
/// `v % pow2(n)`: the two directions of the LSB-first convention
/// agree.
pub proof fn lemma_bits_val_bit_seq(v: u32, n: nat)
    ensures
        bits_val(bit_seq(v, n)) == (v as nat) % pow2(n),
    decreases n,
{
    vstd::arithmetic::power2::lemma2_to64();
    if n == 0 {
        assert(pow2(0) == 1);
    } else {
        lemma_bits_val_bit_seq(v / 2, (n - 1) as nat);
        let s = bit_seq(v, n);
        assert(s.skip(1) =~= bit_seq(v / 2, (n - 1) as nat));
        assert(pow2(n) == 2 * pow2((n - 1) as nat)) by {
            lemma_pow2_adds(1, (n - 1) as nat);
        }
        let p = pow2((n - 1) as nat);
        assert(p > 0) by {
            lemma_pow2_pos((n - 1) as nat);
        }
        assert((v as nat) % (2 * p) == (v as nat) % 2 + 2 * ((v as nat / 2) % p)) by {
            vstd::arithmetic::div_mod::lemma_breakdown(v as int, 2, p as int);
        }
    }
}

/// Append the low `n` bits of `v` to `out`, least-significant first:
/// the order in which a word is shifted into a scan chain.
pub fn push_bit_seq(out: &mut Vec<bool>, v: u32, n: usize)
    requires
        n <= 32,
    ensures
        final(out)@ == old(out)@ + bit_seq(v, n as nat),
{
    let ghost base = out@;
    let mut tmp: u32 = v;
    let mut k: usize = 0;
    proof {
        lemma_bit_seq_len(v, n as nat);
    }
    while k < n
        invariant
            k <= n,
            out@.len() == base.len() + k,
            bit_seq(v, n as nat).len() == n,
            out@ == base + bit_seq(v, n as nat).take(k as int),
            bit_seq(tmp, (n - k) as nat) =~= bit_seq(v, n as nat).skip(k as int),
        decreases n - k,
    {
        proof {
            lemma_bit_seq_len(tmp / 2, (n - k - 1) as nat);
            let head = seq![tmp % 2 == 1];
            let rest = bit_seq(tmp / 2, (n - k - 1) as nat);
            assert(bit_seq(tmp, (n - k) as nat) == head + rest);
            assert((head + rest).skip(1) =~= rest);
            assert((head + rest)[0] == (tmp % 2 == 1));
            assert(bit_seq(v, n as nat).skip(k as int)[0] == bit_seq(v, n as nat)[k as int]);
            assert(bit_seq(v, n as nat)[k as int] == (tmp % 2 == 1));
            assert(bit_seq(v, n as nat).take(k + 1) =~= bit_seq(v, n as nat).take(k as int).push(
                tmp % 2 == 1,
            ));
            assert(rest =~= bit_seq(v, n as nat).skip(k + 1)) by {
                assert(forall|i: int|
                    0 <= i < rest.len() ==> rest[i] == bit_seq(v, n as nat).skip(k as int)[i + 1]);
            }
        }
        out.push(tmp % 2 == 1);
        tmp = tmp / 2;
        k = k + 1;
    }
    proof {
        assert(bit_seq(v, n as nat).take(n as int) =~= bit_seq(v, n as nat));
    }
}

/// The value of `bits[start .. start + len]` read LSB-first, as a
/// `u32`. This is how a scanned-out data word is collected.
pub fn window_val(bits: &Vec<bool>, start: usize, len: usize) -> (r: u32)
    requires
        len <= 32,
        start + len <= bits@.len(),
    ensures
        r == bits_val(bits@.subrange(start as int, (start + len) as int)),
{
    proof {
        vstd::arithmetic::power2::lemma2_to64();
    }
    let total = bits.len();
    let mut acc: u32 = 0;
    let mut j: usize = len;
    while j > 0
        invariant
            j <= len,
            len <= 32,
            start + len <= total,
            total == bits@.len(),
            acc == bits_val(bits@.subrange((start + j) as int, (start + len) as int)),
            acc < pow2((len - j) as nat),
            pow2(32) == 0x1_0000_0000,
        decreases j,
    {
        j = j - 1;
        let b = bits[start + j];
        let ghost win = bits@.subrange((start + j) as int, (start + len) as int);
        proof {
            vstd::arithmetic::power2::lemma2_to64();
            assert(win.len() == len - j);
            assert(win[0] == bits@[(start + j) as int]);
            assert(win.skip(1) =~= bits@.subrange((start + j + 1) as int, (start + len) as int));
            assert(pow2((len - j) as nat) == 2 * pow2((len - j - 1) as nat)) by {
                lemma_pow2_adds(1, (len - j - 1) as nat);
                vstd::arithmetic::power2::lemma2_to64();
            }
            if len - j < 32 {
                lemma_pow2_strictly_increases((len - j) as nat, 32);
            }
        }
        acc = 2 * acc + (if b {
            1
        } else {
            0
        });
    }
    proof {
        assert(bits@.subrange(start as int, (start + len) as int) == bits@.subrange(
            (start + 0) as int,
            (start + len) as int,
        ));
    }
    acc
}

/// Reverse a bit buffer in place.
pub fn reverse_bits(data: &mut Vec<bool>)
    ensures
        final(data)@ == old(data)@.reverse(),
{
    let n = data.len();
    let mut i: usize = 0;
    while i < n / 2
        invariant
            n == data@.len(),
            n == old(data)@.len(),
            i <= n / 2,
            forall|k: int|
                0 <= k < n ==> data@[k] == if k < i || k >= n - i {
                    old(data)@[n - 1 - k]
                } else {
                    old(data)@[k]
                },
        decreases n / 2 - i,
    {
        let a = data[i];
        let b = data[n - 1 - i];
        data[i] = b;
        data[n - 1 - i] = a;
        i = i + 1;
    }
    proof {
        assert(data@ =~= old(data)@.reverse());
    }
}

} // verus!
