//! Sample-stream building blocks: aligning two streams for the mixer and the
//! index arithmetic of linear-interpolation resampling. The per-sample
//! arithmetic is handed in by the caller.
use vstd::prelude::*;

verus! {

/// The `i`-th sample of `s`, or `pad` past its end.
pub open spec fn padded<T>(s: Seq<T>, i: int, pad: T) -> T {
    if i < s.len() { s[i] } else { pad }
}

pub open spec fn max_len(a: nat, b: nat) -> nat {
    if a >= b { a } else { b }
}

/// Combines two streams aligned by index, padding the shorter with `pad`: the
/// output has the length of the longer, and its `i`-th sample is `f` of the two
/// `i`-th samples.
pub fn zip_padded<T: Copy, F: Fn(T, T) -> T>(a: &[T], b: &[T], pad: T, f: F) -> (r: Vec<T>)
    requires
        forall|x: T, y: T| f.requires((x, y)),
    ensures
        r@.len() == max_len(a@.len(), b@.len()),
        forall|i: int|
            0 <= i < r@.len() ==> f.ensures((padded(a@, i, pad), padded(b@, i, pad)), #[trigger] r@[i]),
{
    let n = if a.len() >= b.len() { a.len() } else { b.len() };
    let mut out: Vec<T> = Vec::with_capacity(n);
    let mut i: usize = 0;
    while i < n
        invariant
            n == max_len(a@.len(), b@.len()),
            i <= n,
            out@.len() == i,
            forall|x: T, y: T| f.requires((x, y)),
            forall|k: int|
                0 <= k < i ==> f.ensures((padded(a@, k, pad), padded(b@, k, pad)), #[trigger] out@[k]),
        decreases n - i,
    {
        let x = if i < a.len() { a[i] } else { pad };
        let y = if i < b.len() { b[i] } else { pad };
        let v = f(x, y);
        out.push(v);
        i = i + 1;
    }
    out
}

/// `ceil(len * to / from)`.
pub open spec fn resampled_len_spec(len: nat, from: nat, to: nat) -> nat
    recommends
        from > 0,
{
    ((len * to + from - 1) / from as int) as nat
}

/// Number of samples after resampling `len` samples from rate `from` to rate `to`.
pub fn resampled_len(len: usize, from: u32, to: u32) -> (r: usize)
    requires
        from > 0,
        resampled_len_spec(len as nat, from as nat, to as nat) <= usize::MAX,
    ensures
        r == resampled_len_spec(len as nat, from as nat, to as nat),
{
    assert((len as int) * (to as int) <= 0xffff_ffff_ffff_ffff * 0xffff_ffff) by (nonlinear_arith)
        requires
            0 <= len as int <= 0xffff_ffff_ffff_ffff,
            0 <= to as int <= 0xffff_ffff,
    ;
    let num: u128 = len as u128 * to as u128 + from as u128 - 1;
    (num / from as u128) as usize
}

/// Resamples by linear interpolation. With equal rates the samples come back
/// unchanged. Otherwise output `i` sits at source position `i * from / to`: with
/// `k` its whole part and `num / den` its fraction, the output is
/// `lerp(s[k], s[min(k + 1, len - 1)], num, den)`, or `zero` past the end.
pub fn resample_by<T: Copy, F: Fn(T, T, u64, u64) -> T>(
    samples: &[T],
    from: u32,
    to: u32,
    zero: T,
    lerp: F,
) -> (r: Vec<T>)
    requires
        from > 0,
        resampled_len_spec(samples@.len(), from as nat, to as nat) <= usize::MAX,
        forall|x: T, y: T, num: u64, den: u64| lerp.requires((x, y, num, den)),
    ensures
        from == to ==> r@ == samples@,
        from != to ==> r@.len() == resampled_len_spec(samples@.len(), from as nat, to as nat),
        from != to ==> forall|i: int|
            0 <= i < r@.len() ==> ({
                let pos = i * from / (to as int);
                let num = (i * from) % (to as int);
                if pos < samples@.len() {
                    let next = if pos + 1 < samples@.len() { pos + 1 } else { samples@.len() - 1 };
                    lerp.ensures(
                        (samples@[pos], samples@[next], num as u64, to as u64),
                        #[trigger] r@[i],
                    )
                } else {
                    r@[i] == zero
                }
            }),
{
    if from == to {
        let mut out: Vec<T> = Vec::with_capacity(samples.len());
        let mut i: usize = 0;
        while i < samples.len()
            invariant
                i <= samples@.len(),
                out@ == samples@.take(i as int),
            decreases samples@.len() - i,
        {
            out.push(samples[i]);
            i = i + 1;
            assert(out@ =~= samples@.take(i as int));
        }
        assert(samples@.take(samples@.len() as int) =~= samples@);
        return out;
    }
    let n = resampled_len(samples.len(), from, to);
    let mut out: Vec<T> = Vec::with_capacity(n);
    let mut i: usize = 0;
    while i < n
        invariant
            from > 0,
            from != to,
            n == resampled_len_spec(samples@.len(), from as nat, to as nat),
            i <= n,
            out@.len() == i,
            forall|x: T, y: T, num: u64, den: u64| lerp.requires((x, y, num, den)),
            forall|k: int|
                0 <= k < i ==> ({
                    let pos = k * from / (to as int);
                    let num = (k * from) % (to as int);
                    if pos < samples@.len() {
                        let next = if pos + 1 < samples@.len() { pos + 1 } else { samples@.len() - 1 };
                        lerp.ensures(
                            (samples@[pos], samples@[next], num as u64, to as u64),
                            #[trigger] out@[k],
                        )
                    } else {
                        out@[k] == zero
                    }
                }),
        decreases n - i,
    {
        // n > 0 forces to > 0
        assert(to > 0) by (nonlinear_arith)
            requires
                n == ((samples@.len() * (to as nat) + from - 1) / from as int) as nat,
                i < n,
                from > 0,
        {
            if to == 0 {
                assert(samples@.len() * (to as nat) == 0);
            }
        }
        assert((i as int) * (from as int) <= 0xffff_ffff_ffff_ffff * 0xffff_ffff) by (nonlinear_arith)
            requires
                0 <= i as int <= 0xffff_ffff_ffff_ffff,
                0 <= from as int <= 0xffff_ffff,
        ;
        let scaled: u128 = i as u128 * from as u128;
        let pos: u128 = scaled / to as u128;
        let num: u128 = scaled % to as u128;
        let v = if pos < samples.len() as u128 {
            let k = pos as usize;
            let next = if k + 1 < samples.len() { k + 1 } else { samples.len() - 1 };
            lerp(samples[k], samples[next], num as u64, to as u64)
        } else {
            zero
        };
        out.push(v);
        proof {
            let ghost kk = i as int;
            assert(out@[kk] == v);
        }
        i = i + 1;
    }
    out
}

/// The resampled length is the ceiling of `len * to / from`: the least count of
/// output samples spanning the input at the new rate.
pub proof fn lemma_resampled_len_is_ceiling(len: nat, from: nat, to: nat)
    requires
        from > 0,
    ensures
        resampled_len_spec(len, from, to) * from >= len * to,
        resampled_len_spec(len, from, to) * from < len * to + from,
{
    let n = len * to + from - 1;
    let q = n / (from as int);
    let r = n % (from as int);
    assert(n == q * from + r && 0 <= r < from) by (nonlinear_arith)
        requires
            from > 0,
            q == n / (from as int),
            r == n % (from as int),
            n >= 0,
    ;
    assert(q >= 0);
}

/// The mixer's queues: what each source delivered since the last tick.
pub struct MixerBuffers<T> {
    mic: Vec<T>,
    sys: Vec<T>,
}

impl<T: Copy> MixerBuffers<T> {
    /// Microphone samples waiting to be mixed.
    pub closed spec fn mic_queue(&self) -> Seq<T> {
        self.mic@
    }

    /// System-audio samples waiting to be mixed.
    pub closed spec fn sys_queue(&self) -> Seq<T> {
        self.sys@
    }

    pub fn new() -> (r: Self)
        ensures
            r.mic_queue().len() == 0,
            r.sys_queue().len() == 0,
    {
        MixerBuffers { mic: Vec::new(), sys: Vec::new() }
    }

    /// Queues a microphone chunk.
    pub fn push_mic(&mut self, chunk: Vec<T>)
        ensures
            final(self).mic_queue() == old(self).mic_queue() + chunk@,
            final(self).sys_queue() == old(self).sys_queue(),
    {
        let mut chunk = chunk;
        self.mic.append(&mut chunk);
    }

    /// Queues a system-audio chunk.
    pub fn push_sys(&mut self, chunk: Vec<T>)
        ensures
            final(self).sys_queue() == old(self).sys_queue() + chunk@,
            final(self).mic_queue() == old(self).mic_queue(),
    {
        let mut chunk = chunk;
        self.sys.append(&mut chunk);
    }

    /// One mixer tick: when anything is queued, both queues are aligned by index,
    /// the shorter padded with `pad`, combined by `f`, and emptied; the combined
    /// chunk is returned for forwarding. With nothing queued, nothing is emitted.
    pub fn tick<F: Fn(T, T) -> T>(&mut self, pad: T, f: F) -> (r: Option<Vec<T>>)
        requires
            forall|x: T, y: T| f.requires((x, y)),
        ensures
            old(self).mic_queue().len() == 0 && old(self).sys_queue().len() == 0 ==> r is None
                && final(self).mic_queue() == old(self).mic_queue() && final(self).sys_queue()
                == old(self).sys_queue(),
            old(self).mic_queue().len() > 0 || old(self).sys_queue().len() > 0 ==> {
                &&& r matches Some(out)
                &&& out@.len() == max_len(old(self).mic_queue().len(), old(self).sys_queue().len())
                &&& forall|i: int|
                    0 <= i < out@.len() ==> f.ensures(
                        (padded(old(self).mic_queue(), i, pad), padded(old(self).sys_queue(), i, pad)),
                        #[trigger] out@[i],
                    )
                &&& final(self).mic_queue().len() == 0
                &&& final(self).sys_queue().len() == 0
            },
    {
        if self.mic.len() == 0 && self.sys.len() == 0 {
            return None;
        }
        let out = zip_padded(self.mic.as_slice(), self.sys.as_slice(), pad, f);
        self.mic.clear();
        self.sys.clear();
        Some(out)
    }
}

} // verus!
