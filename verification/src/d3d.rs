use vstd::prelude::*;

verus! {

/// The texture format with 8 bits each of blue, green, red and alpha, by its
/// DXGI number: the one format that the renderer can draw to.
pub const DXGI_FORMAT_B8G8R8A8_UNORM: u32 = 87;

/// The Direct3D feature levels, by their numbers.
pub const D3D_FEATURE_LEVEL_10_0: u32 = 0xa000;

pub const D3D_FEATURE_LEVEL_10_1: u32 = 0xa100;

pub const D3D_FEATURE_LEVEL_11_0: u32 = 0xb000;

pub const D3D_FEATURE_LEVEL_11_1: u32 = 0xb100;

pub const D3D_FEATURE_LEVEL_12_0: u32 = 0xc000;

pub const D3D_FEATURE_LEVEL_12_1: u32 = 0xc100;

/// The feature levels that a device may be asked for, best first.
pub open spec fn feature_levels() -> Seq<u32> {
    seq![
        D3D_FEATURE_LEVEL_12_1,
        D3D_FEATURE_LEVEL_12_0,
        D3D_FEATURE_LEVEL_11_1,
        D3D_FEATURE_LEVEL_11_0,
        D3D_FEATURE_LEVEL_10_1,
        D3D_FEATURE_LEVEL_10_0,
    ]
}

/// Those of `levels` that are at least `min`, in their order.
pub open spec fn at_least(levels: Seq<u32>, min: u32) -> Seq<u32>
    decreases levels.len(),
{
    if levels.len() == 0 {
        Seq::empty()
    } else if levels.last() >= min {
        at_least(levels.drop_last(), min).push(levels.last())
    } else {
        at_least(levels.drop_last(), min)
    }
}

/// The feature levels to ask a device for when the runtime requires at least
/// `min_feature_level`: every known level from there up, best first.
pub fn select_feature_levels(min_feature_level: u32) -> (selected: Vec<u32>)
    ensures
        selected@ == at_least(feature_levels(), min_feature_level),
{
    let levels: [u32; 6] = [
        D3D_FEATURE_LEVEL_12_1,
        D3D_FEATURE_LEVEL_12_0,
        D3D_FEATURE_LEVEL_11_1,
        D3D_FEATURE_LEVEL_11_0,
        D3D_FEATURE_LEVEL_10_1,
        D3D_FEATURE_LEVEL_10_0,
    ];
    assert(levels@ =~= feature_levels());
    let mut selected: Vec<u32> = Vec::new();
    let mut i: usize = 0;
    while i < 6
        invariant
            i <= 6,
            levels@ == feature_levels(),
            selected@ == at_least(levels@.take(i as int), min_feature_level),
        decreases 6 - i,
    {
        let level = levels[i];
        proof {
            let longer = levels@.take(i + 1);
            assert(longer.drop_last() =~= levels@.take(i as int));
            assert(longer.last() == level);
        }
        if level >= min_feature_level {
            selected.push(level);
        }
        i += 1;
    }
    proof {
        assert(levels@.take(6) =~= levels@);
    }
    selected
}

/// The format to draw to, among those that the runtime offers: the first of
/// them that the renderer can draw to. One such format has to be offered.
pub fn pick_format(formats: &[u32]) -> (picked: u32)
    requires
        formats@.contains(DXGI_FORMAT_B8G8R8A8_UNORM),
    ensures
        picked == DXGI_FORMAT_B8G8R8A8_UNORM,
        formats@.contains(picked),
{
    let n = formats.len();
    let mut i: usize = 0;
    while i < n
        invariant
            i <= n,
            n == formats@.len(),
            forall|j: int| 0 <= j < i ==> formats@[j] != DXGI_FORMAT_B8G8R8A8_UNORM,
        decreases n - i,
    {
        if formats[i] == DXGI_FORMAT_B8G8R8A8_UNORM {
            return formats[i];
        }
        i += 1;
    }
    proof {
        let j = choose|j: int| 0 <= j < formats@.len() && formats@[j] == DXGI_FORMAT_B8G8R8A8_UNORM;
        assert(formats@[j] == DXGI_FORMAT_B8G8R8A8_UNORM);
        assert(false);
    }
    DXGI_FORMAT_B8G8R8A8_UNORM
}

/// Whether the renderer can draw to one of the formats that the runtime
/// offers.
pub fn offers_format(formats: &[u32]) -> (offered: bool)
    ensures
        offered == formats@.contains(DXGI_FORMAT_B8G8R8A8_UNORM),
{
    let n = formats.len();
    let mut i: usize = 0;
    while i < n
        invariant
            i <= n,
            n == formats@.len(),
            forall|j: int| 0 <= j < i ==> formats@[j] != DXGI_FORMAT_B8G8R8A8_UNORM,
        decreases n - i,
    {
        if formats[i] == DXGI_FORMAT_B8G8R8A8_UNORM {
            assert(formats@[i as int] == DXGI_FORMAT_B8G8R8A8_UNORM);
            return true;
        }
        i += 1;
    }
    false
}

} // verus!
