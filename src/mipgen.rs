use vstd::prelude::*;

verus! {

/// Largest `k` with `2^k <= n`, for `n >= 1`.
pub open spec fn floor_log2(n: nat) -> nat
    decreases n,
{
    if n <= 1 {
        0
    } else {
        1 + floor_log2(n / 2)
    }
}

/// Number of mip levels a texture of the given size is created with: for a square
/// texture of side `w >= 2`, `floor(log2(w))`; otherwise a single level, since every
/// texture has at least one.
pub open spec fn spec_mip_level_count(width: nat, height: nat) -> nat {
    if width == height && width >= 2 {
        floor_log2(width)
    } else {
        1
    }
}

proof fn lemma_floor_log2_monotonic(a: nat, b: nat)
    requires
        a <= b,
    ensures
        floor_log2(a) <= floor_log2(b),
    decreases b,
{
    if a > 1 {
        lemma_floor_log2_monotonic(a / 2, b / 2);
    }
}

proof fn lemma_floor_log2_u32(n: nat)
    requires
        n <= u32::MAX,
    ensures
        floor_log2(n) <= 31,
{
    lemma_floor_log2_monotonic(n, u32::MAX as nat);
    reveal_with_fuel(floor_log2, 33);
    assert(floor_log2(u32::MAX as nat) == 31);
}

pub fn mip_level_count(width: u32, height: u32) -> (r: u32)
    ensures
        r == spec_mip_level_count(width as nat, height as nat),
{
    if width != height || width < 2 {
        return 1;
    }
    let mut n: u32 = width;
    let mut k: u32 = 0;
    proof {
        lemma_floor_log2_u32(width as nat);
    }
    while n > 1
        invariant
            k + floor_log2(n as nat) == floor_log2(width as nat),
            n > 0,
            floor_log2(width as nat) <= 31,
        decreases n,
    {
        n = n / 2;
        k = k + 1;
    }
    k
}

/// Side length of mip level `level` of a texture side `base`: each level halves its
/// predecessor, rounding down, but never below one texel.
pub open spec fn mip_extent(base: nat, level: nat) -> nat
    decreases level,
{
    if level == 0 {
        base
    } else {
        let prev = mip_extent(base, (level - 1) as nat);
        if prev / 2 == 0 {
            1
        } else {
            prev / 2
        }
    }
}

/// `2^n`.
pub open spec fn exp2(n: nat) -> nat
    decreases n,
{
    if n == 0 {
        1
    } else {
        2 * exp2((n - 1) as nat)
    }
}

/// One render-target view of a single mip level.
#[derive(Clone, Copy, Debug, PartialEq, Eq, Structural)]
pub struct MipView {
    pub level: u32,
    pub width: u32,
    pub height: u32,
}

/// One downsampling step: the source level is sampled while a four-vertex triangle
/// strip covers the target level.
#[derive(Clone, Copy, Debug, PartialEq, Eq, Structural)]
pub struct BlitPass {
    pub source_level: u32,
    pub target_level: u32,
    pub vertex_count: u32,
    pub instance_count: u32,
}

/// The views and blit passes that build a texture's mip chain.
#[derive(Clone, Debug)]
pub struct MipChain {
    pub views: Vec<MipView>,
    pub passes: Vec<BlitPass>,
}

pub open spec fn spec_mip_view(width: nat, height: nat, level: nat) -> MipView {
    MipView {
        level: level as u32,
        width: mip_extent(width, level) as u32,
        height: mip_extent(height, level) as u32,
    }
}

pub open spec fn spec_blit_pass(target: nat) -> BlitPass {
    BlitPass {
        source_level: (target - 1) as u32,
        target_level: target as u32,
        vertex_count: 4,
        instance_count: 1,
    }
}

impl MipChain {
    /// The chain is built for a `width x height` texture with `mip_count` levels: one
    /// view per level, and one pass for each level after the first, in level order,
    /// each reading the level before it.
    pub open spec fn describes(&self, width: nat, height: nat, mip_count: nat) -> bool {
        &&& self.views@.len() == mip_count
        &&& forall|i: int|
            0 <= i < mip_count ==> #[trigger] self.views@[i] == spec_mip_view(width, height, i as nat)
        &&& self.passes@.len() == if mip_count == 0 { 0 } else { mip_count - 1 }
        &&& forall|i: int|
            0 <= i < self.passes@.len() ==> #[trigger] self.passes@[i] == spec_blit_pass(
                (i + 1) as nat,
            )
    }
}

proof fn lemma_mip_extent_bounded(base: nat, level: nat)
    ensures
        mip_extent(base, level) <= if base == 0 { 1 } else { base },
    decreases level,
{
    if level > 0 {
        lemma_mip_extent_bounded(base, (level - 1) as nat);
    }
}

/// Plans the mip chain of a `width x height` texture with `mip_count` levels.
pub fn generate_mipmaps(width: u32, height: u32, mip_count: u32) -> (r: MipChain)
    ensures
        r.describes(width as nat, height as nat, mip_count as nat),
{
    let mut views: Vec<MipView> = Vec::new();
    let mut passes: Vec<BlitPass> = Vec::new();
    let mut w: u32 = width;
    let mut h: u32 = height;
    let mut level: u32 = 0;
    while level < mip_count
        invariant
            level <= mip_count,
            w == mip_extent(width as nat, level as nat),
            h == mip_extent(height as nat, level as nat),
            views@.len() == level,
            forall|i: int|
                0 <= i < level ==> #[trigger] views@[i] == spec_mip_view(
                    width as nat,
                    height as nat,
                    i as nat,
                ),
            passes@.len() == if level == 0 { 0 } else { level - 1 },
            forall|i: int|
                0 <= i < passes@.len() ==> #[trigger] passes@[i] == spec_blit_pass((i + 1) as nat),
        decreases mip_count - level,
    {
        views.push(MipView { level, width: w, height: h });
        if level > 0 {
            passes.push(
                BlitPass { source_level: level - 1, target_level: level, vertex_count: 4, instance_count: 1 },
            );
        }
        proof {
            lemma_mip_extent_bounded(width as nat, level as nat + 1);
            lemma_mip_extent_bounded(height as nat, level as nat + 1);
        }
        w = if w / 2 == 0 { 1 } else { w / 2 };
        h = if h / 2 == 0 { 1 } else { h / 2 };
        level = level + 1;
    }
    MipChain { views, passes }
}

proof fn lemma_exp2_positive(n: nat)
    ensures
        exp2(n) >= 1,
    decreases n,
{
    if n > 0 {
        lemma_exp2_positive((n - 1) as nat);
    }
}

proof fn lemma_mip_extent_pow2(n: nat, level: nat)
    ensures
        level <= n ==> mip_extent(exp2(n), level) == exp2((n - level) as nat),
        level >= n ==> mip_extent(exp2(n), level) == 1,
    decreases level,
{
    if level > 0 {
        lemma_mip_extent_pow2(n, (level - 1) as nat);
        if level <= n {
            lemma_exp2_positive((n - level) as nat);
            assert(exp2((n - (level - 1)) as nat) == 2 * exp2((n - level) as nat));
        }
    }
}

/// For a `2^n x 2^n` texture, a chain of `k` levels has exactly `k` views; each is half
/// the side of the one before it until one texel is reached, and one texel after that.
pub proof fn mip_chain_halves(n: nat, k: nat, chain: MipChain)
    requires
        exp2(n) <= u32::MAX,
        chain.describes(exp2(n), exp2(n), k),
    ensures
        chain.views@.len() == k,
        forall|i: int|
            0 < i < k && i <= n ==> (#[trigger] chain.views@[i]).width * 2 == chain.views@[i - 1].width
                && chain.views@[i].height * 2 == chain.views@[i - 1].height,
        forall|i: int| n <= i < k ==> (#[trigger] chain.views@[i]).width == 1 && chain.views@[i].height == 1,
{
    assert forall|i: int| 0 < i < k && i <= n implies (#[trigger] chain.views@[i]).width * 2
        == chain.views@[i - 1].width && chain.views@[i].height * 2 == chain.views@[i - 1].height by {
        lemma_mip_extent_pow2(n, i as nat);
        lemma_mip_extent_pow2(n, (i - 1) as nat);
        lemma_mip_extent_bounded(exp2(n), i as nat);
        lemma_mip_extent_bounded(exp2(n), (i - 1) as nat);
        assert(exp2((n - (i - 1)) as nat) == 2 * exp2((n - i) as nat));
        assert(chain.views@[i] == spec_mip_view(exp2(n), exp2(n), i as nat));
        assert(chain.views@[i - 1] == spec_mip_view(exp2(n), exp2(n), (i - 1) as nat));
    }
    assert forall|i: int| n <= i < k implies (#[trigger] chain.views@[i]).width == 1
        && chain.views@[i].height == 1 by {
        lemma_mip_extent_pow2(n, i as nat);
        assert(chain.views@[i] == spec_mip_view(exp2(n), exp2(n), i as nat));
    }
}

} // verus!
