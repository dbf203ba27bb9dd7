use vstd::prelude::*;
use crate::resource::Buffer;

verus! {

/// A compute kernel that multiplies each element of its storage buffer by
/// `factor`, one element per invocation, in work groups of `local_size`
/// invocations.
#[derive(Clone, Copy, Debug, PartialEq, Eq, Structural)]
pub struct ScaleKernel {
    pub factor: u32,
    pub local_size: u32,
}

/// Product of two words as the device computes it: modulo 2^32.
pub open spec fn mul_word(x: u32, k: u32) -> u32 {
    ((x as int * k as int) % 0x1_0000_0000) as u32
}

/// Invocations a dispatch of (gx, gy, gz) work groups runs.
pub open spec fn invocations(kernel: ScaleKernel, gx: u32, gy: u32, gz: u32) -> int {
    gx * gy * gz * kernel.local_size
}

/// `data` after the first `n` elements were each multiplied by `k`.
pub open spec fn scaled(data: Seq<u32>, k: u32, n: int) -> Seq<u32> {
    Seq::new(data.len(), |i: int| if i < n { mul_word(data[i], k) } else { data[i] })
}

fn mul_word_exec(x: u32, k: u32) -> (r: u32)
    ensures
        r == mul_word(x, k),
{
    proof {
        assert(x as int * k as int <= 0xffff_ffff * 0xffff_ffff) by (nonlinear_arith)
            requires
                x <= 0xffff_ffff,
                k <= 0xffff_ffff,
        ;
    }
    ((x as u64) * (k as u64) % 0x1_0000_0000) as u32
}

fn invocation_count(kernel: &ScaleKernel, gx: u32, gy: u32, gz: u32) -> (r: u128)
    ensures
        r == invocations(*kernel, gx, gy, gz),
{
    proof {
        let m: int = 0x1_0000_0000int;
        assert(gx * gy < m * m) by (nonlinear_arith)
            requires
                gx < m,
                gy < m,
                m == 0x1_0000_0000,
        ;
        assert(gx * gy * gz < m * m * m) by (nonlinear_arith)
            requires
                gx * gy < m * m,
                gz < m,
                m == 0x1_0000_0000,
        ;
        assert(gx * gy * gz * kernel.local_size < m * m * m * m) by (nonlinear_arith)
            requires
                gx * gy * gz < m * m * m,
                kernel.local_size < m,
                m == 0x1_0000_0000,
        ;
    }
    (gx as u128) * (gy as u128) * (gz as u128) * (kernel.local_size as u128)
}

/// Runs `kernel` over `buf` with (gx, gy, gz) work groups: each invocation
/// multiplies the element of its own index, modulo 2^32; elements beyond the
/// last invocation keep their value.
pub fn dispatch_scale(buf: &mut Buffer, kernel: &ScaleKernel, gx: u32, gy: u32, gz: u32)
    ensures
        final(buf).usage == old(buf).usage,
        final(buf).host_visible == old(buf).host_visible,
        final(buf).data@ == scaled(old(buf).data@, kernel.factor, invocations(*kernel, gx, gy, gz)),
{
    let total = invocation_count(kernel, gx, gy, gz);
    let ghost start = buf.data@;
    let ghost n = invocations(*kernel, gx, gy, gz);
    let mut i: usize = 0;
    while i < buf.data.len()
        invariant
            i <= buf.data@.len(),
            buf.data@.len() == start.len(),
            buf.usage == old(buf).usage,
            buf.host_visible == old(buf).host_visible,
            start == old(buf).data@,
            total == n,
            forall|j: int|
                0 <= j < buf.data@.len() ==> #[trigger] buf.data@[j] == if j < i {
                    scaled(start, kernel.factor, n)[j]
                } else {
                    start[j]
                },
        decreases buf.data@.len() - i,
    {
        if (i as u128) < total {
            let v = mul_word_exec(buf.data[i], kernel.factor);
            buf.data.set(i, v);
        }
        i = i + 1;
    }
    assert(buf.data@ =~= scaled(start, kernel.factor, n));
}

/// Writing elements into a buffer, running the scaling kernel over all of
/// them and reading the buffer back gives each input times the factor,
/// modulo 2^32; exactly that product where it fits in a word.
pub proof fn lemma_scale_round_trip(input: Seq<u32>, kernel: ScaleKernel, gx: u32, gy: u32, gz: u32, i: int)
    requires
        invocations(kernel, gx, gy, gz) >= input.len(),
        0 <= i < input.len(),
    ensures
        scaled(input, kernel.factor, invocations(kernel, gx, gy, gz))[i] == mul_word(
            input[i],
            kernel.factor,
        ),
        input[i] * kernel.factor < 0x1_0000_0000 ==> scaled(
            input,
            kernel.factor,
            invocations(kernel, gx, gy, gz),
        )[i] == input[i] * kernel.factor,
{
    assert(input[i] * kernel.factor >= 0) by (nonlinear_arith);
}

/// Running the same dispatch on two buffers of equal contents gives equal
/// contents: a recorded dispatch submitted twice, each time over the same
/// input, produces the same output both times.
pub proof fn lemma_dispatch_repeatable(a: Seq<u32>, b: Seq<u32>, kernel: ScaleKernel, gx: u32, gy: u32, gz: u32)
    requires
        a == b,
    ensures
        scaled(a, kernel.factor, invocations(kernel, gx, gy, gz)) == scaled(
            b,
            kernel.factor,
            invocations(kernel, gx, gy, gz),
        ),
{
}

} // verus!
