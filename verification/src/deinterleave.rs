//! The deinterleaving stage: turning a flat, channel-interleaved sample
//! sequence (`R,G,B,R,G,B,...`) into the planar layout the canonical image
//! value stores (`R,...,R,G,...,G,B,...,B`), per sample width, together
//! with the inverse used to state and check the round trip.

use vstd::prelude::*;
use vstd::arithmetic::div_mod::{lemma_fundamental_div_mod, lemma_fundamental_div_mod_converse};

verus! {

/// The planar reordering of an interleaved sequence `s` with `ch` channels:
/// plane `c` holds every `ch`-th sample starting at offset `c`.
pub open spec fn deinterleaved<T>(s: Seq<T>, ch: int) -> Seq<T>
    recommends
        0 < ch,
        s.len() as int % ch == 0,
{
    Seq::new(s.len(), |j: int| {
        let n = s.len() as int / ch;
        s[(j % n) * ch + j / n]
    })
}

/// The interleaved reordering of a planar sequence `s` with `ch` planes:
/// pixel `i` carries the `i`-th sample of every plane in plane order.
pub open spec fn interleaved<T>(s: Seq<T>, ch: int) -> Seq<T>
    recommends
        0 < ch,
        s.len() as int % ch == 0,
{
    Seq::new(s.len(), |k: int| {
        let n = s.len() as int / ch;
        s[(k % ch) * n + k / ch]
    })
}

/// Deinterleaving then re-interleaving reproduces the original sequence
/// exactly, for every interleaved sequence whose length is a whole number
/// of pixels.
pub proof fn lemma_deinterleave_roundtrip<T>(s: Seq<T>, ch: int)
    requires
        0 < ch,
        s.len() as int % ch == 0,
    ensures
        interleaved(deinterleaved(s, ch), ch) == s,
{
    let len = s.len() as int;
    let n = len / ch;
    lemma_fundamental_div_mod(len, ch);
    assert(len == n * ch) by (nonlinear_arith)
        requires
            len == ch * n + len % ch,
            len % ch == 0,
    ;
    let d = deinterleaved(s, ch);
    let r = interleaved(d, ch);
    assert forall|k: int| 0 <= k < len implies r[k] == s[k] by {
        let c = k % ch;
        let i = k / ch;
        lemma_fundamental_div_mod(k, ch);
        assert(0 <= c < ch);
        assert(0 <= i < n) by (nonlinear_arith)
            requires
                k == ch * i + c,
                0 <= c < ch,
                0 <= k < len,
                len == n * ch,
        ;
        let j = c * n + i;
        assert(0 <= j < len) by (nonlinear_arith)
            requires
                j == c * n + i,
                0 <= c < ch,
                0 <= i < n,
                len == n * ch,
        ;
        assert(r[k] == d[j]);
        if n > 0 {
            lemma_fundamental_div_mod_converse(j, n, c, i);
            assert(j / n == c && j % n == i);
            assert(d[j] == s[i * ch + c]);
            lemma_fundamental_div_mod_converse(k, ch, i, c);
            assert(i * ch + c == k);
        }
    }
    assert(r =~= s);
}

/// Deinterleave an interleaved sample vector into planar order.
///
/// Returns `None` exactly when the channel count is zero or the input
/// length is not a whole number of pixels; otherwise the result is the
/// planar reordering of the input, of identical length, every sample
/// value preserved.
pub fn deinterleave_samples<T: Copy>(samples: &Vec<T>, channels: usize) -> (r: Option<Vec<T>>)
    ensures
        match r {
            Some(v) => {
                &&& 0 < channels
                &&& samples@.len() as int % (channels as int) == 0
                &&& v@ == deinterleaved(samples@, channels as int)
            },
            None => channels == 0 || samples@.len() as int % (channels as int) != 0,
        },
{
    if channels == 0 || samples.len() % channels != 0 {
        return None;
    }
    let len = samples.len();
    let ch = channels;
    let n = len / ch;
    proof {
        lemma_fundamental_div_mod(len as int, ch as int);
        assert(len == n * ch) by (nonlinear_arith)
            requires
                len as int == (ch as int) * (n as int) + (len as int) % (ch as int),
                (len as int) % (ch as int) == 0,
        ;
    }
    let ghost target = deinterleaved(samples@, ch as int);
    let mut out: Vec<T> = Vec::new();
    let mut c: usize = 0;
    while c < ch
        invariant
            0 < ch,
            c <= ch,
            len == samples@.len(),
            len == n * ch,
            n == len as int / ch as int,
            len as int % ch as int == 0,
            target == deinterleaved(samples@, ch as int),
            out@.len() == c * n,
            forall|j: int| 0 <= j < out@.len() ==> out@[j] == target[j],
        decreases ch - c,
    {
        let mut i: usize = 0;
        while i < n
            invariant
                0 < ch,
                c < ch,
                i <= n,
                len == samples@.len(),
                len == n * ch,
                n == len as int / ch as int,
                len as int % ch as int == 0,
                target == deinterleaved(samples@, ch as int),
                out@.len() == c * n + i,
                forall|j: int| 0 <= j < out@.len() ==> out@[j] == target[j],
            decreases n - i,
        {
            proof {
                assert(i * ch + c < len) by (nonlinear_arith)
                    requires
                        0 <= i < n,
                        0 <= c < ch,
                        len == n * ch,
                ;
                assert(c * n + i < len) by (nonlinear_arith)
                    requires
                        0 <= i < n,
                        0 <= c < ch,
                        len == n * ch,
                ;
                lemma_fundamental_div_mod_converse(c * n + i, n as int, c as int, i as int);
                assert(target[c * n + i] == samples@[i * ch + c]);
            }
            let idx = i * ch + c;
            out.push(samples[idx]);
            i += 1;
        }
        proof {
            assert((c as int + 1) * n == c as int * n + n) by (nonlinear_arith);
        }
        c += 1;
    }
    proof {
        assert(out@ =~= target);
    }
    Some(out)
}

/// Re-interleave a planar sample vector; the exact inverse of
/// [`deinterleave_samples`], provided for callers that need to check a
/// round trip on concrete data.
pub fn interleave_samples<T: Copy>(samples: &Vec<T>, channels: usize) -> (r: Option<Vec<T>>)
    ensures
        match r {
            Some(v) => {
                &&& 0 < channels
                &&& samples@.len() as int % (channels as int) == 0
                &&& v@ == interleaved(samples@, channels as int)
            },
            None => channels == 0 || samples@.len() as int % (channels as int) != 0,
        },
{
    if channels == 0 || samples.len() % channels != 0 {
        return None;
    }
    let len = samples.len();
    let ch = channels;
    let n = len / ch;
    proof {
        lemma_fundamental_div_mod(len as int, ch as int);
        assert(len == n * ch) by (nonlinear_arith)
            requires
                len as int == (ch as int) * (n as int) + (len as int) % (ch as int),
                (len as int) % (ch as int) == 0,
        ;
    }
    let ghost target = interleaved(samples@, ch as int);
    let mut out: Vec<T> = Vec::new();
    let mut i: usize = 0;
    while i < n
        invariant
            0 < ch,
            i <= n,
            len == samples@.len(),
            len == n * ch,
            n == len as int / ch as int,
            len as int % ch as int == 0,
            target == interleaved(samples@, ch as int),
            out@.len() == i * ch,
            forall|j: int| 0 <= j < out@.len() ==> out@[j] == target[j],
        decreases n - i,
    {
        let mut c: usize = 0;
        while c < ch
            invariant
                0 < ch,
                i < n,
                c <= ch,
                len == samples@.len(),
                len == n * ch,
                n == len as int / ch as int,
                len as int % ch as int == 0,
                target == interleaved(samples@, ch as int),
                out@.len() == i * ch + c,
                forall|j: int| 0 <= j < out@.len() ==> out@[j] == target[j],
            decreases ch - c,
        {
            proof {
                assert(c * n + i < len) by (nonlinear_arith)
                    requires
                        0 <= i < n,
                        0 <= c < ch,
                        len == n * ch,
                ;
                assert(i * ch + c < len) by (nonlinear_arith)
                    requires
                        0 <= i < n,
                        0 <= c < ch,
                        len == n * ch,
                ;
                lemma_fundamental_div_mod_converse(i * ch + c, ch as int, i as int, c as int);
                assert(target[i * ch + c] == samples@[c * n + i]);
            }
            let idx = c * n + i;
            out.push(samples[idx]);
            c += 1;
        }
        proof {
            assert((i as int + 1) * ch == i as int * ch + ch) by (nonlinear_arith);
        }
        i += 1;
    }
    proof {
        assert(out@ =~= target);
    }
    Some(out)
}

/// Deinterleave eight-bit samples; see [`deinterleave_samples`].
pub fn deinterleave_u8(samples: &Vec<u8>, channels: usize) -> (r: Option<Vec<u8>>)
    ensures
        match r {
            Some(v) => {
                &&& 0 < channels
                &&& samples@.len() as int % (channels as int) == 0
                &&& v@ == deinterleaved(samples@, channels as int)
            },
            None => channels == 0 || samples@.len() as int % (channels as int) != 0,
        },
{
    deinterleave_samples(samples, channels)
}

/// Deinterleave sixteen-bit samples; see [`deinterleave_samples`].
pub fn deinterleave_u16(samples: &Vec<u16>, channels: usize) -> (r: Option<Vec<u16>>)
    ensures
        match r {
            Some(v) => {
                &&& 0 < channels
                &&& samples@.len() as int % (channels as int) == 0
                &&& v@ == deinterleaved(samples@, channels as int)
            },
            None => channels == 0 || samples@.len() as int % (channels as int) != 0,
        },
{
    deinterleave_samples(samples, channels)
}

} // verus!
