//! Choosing the visual for the overlay window: the session needs a 32-bit
//! depth with a true-color visual so the overlay can carry an alpha channel.
//! The surrounding program lists the screen's allowed depths as plain values
//! and the scan here picks the visual, in listed order.

use vstd::prelude::*;

verus! {

/// The pixel depth an ARGB overlay needs.
pub const ARGB_DEPTH: u8 = 32;

/// The true-color visual class code.
pub const VISUAL_CLASS_TRUE_COLOR: u8 = 4;

/// One visual a depth offers, by server-side id and class code.
pub struct VisualInfo {
    pub id: u32,
    pub class: u8,
}

/// One allowed depth of a screen, with the visuals it offers.
pub struct DepthInfo {
    pub depth: u8,
    pub visuals: Vec<VisualInfo>,
}

/// The id of the first true-color visual in a depth's list, if any.
pub open spec fn spec_first_true_color(visuals: Seq<VisualInfo>) -> Option<u32>
    decreases visuals.len(),
{
    if visuals.len() == 0 {
        None
    } else if visuals[0].class == VISUAL_CLASS_TRUE_COLOR {
        Some(visuals[0].id)
    } else {
        spec_first_true_color(visuals.drop_first())
    }
}

/// The id of the first true-color visual under the first 32-bit depth that
/// offers one, scanning depths in listed order; `None` when the screen has
/// no such visual.
pub open spec fn spec_find_argb(depths: Seq<DepthInfo>) -> Option<u32>
    decreases depths.len(),
{
    if depths.len() == 0 {
        None
    } else if depths[0].depth == ARGB_DEPTH && spec_first_true_color(depths[0].visuals@) is Some {
        spec_first_true_color(depths[0].visuals@)
    } else {
        spec_find_argb(depths.drop_first())
    }
}

/// Scans the screen's allowed depths for a 32-bit true-color visual, the
/// capability an ARGB overlay window requires. Returns the first match in
/// listed order, or `None` when the screen offers none (fatal for the
/// session).
#[verifier::loop_isolation(false)]
pub fn find_argb_visual(depths: &Vec<DepthInfo>) -> (r: Option<u32>)
    ensures
        r == spec_find_argb(depths@),
{
    let n: usize = depths.len();
    let mut d: usize = 0;
    proof {
        assert(depths@.skip(0) =~= depths@);
    }
    while d < n
        invariant
            d <= n,
            spec_find_argb(depths@) == spec_find_argb(depths@.skip(d as int)),
        decreases n - d,
    {
        proof {
            assert(depths@.skip(d as int).drop_first() =~= depths@.skip(d as int + 1));
            assert(depths@.skip(d as int)[0] == depths@[d as int]);
        }
        if depths[d].depth == ARGB_DEPTH {
            let visuals: &Vec<VisualInfo> = &depths[d].visuals;
            let m: usize = visuals.len();
            let mut v: usize = 0;
            proof {
                assert(visuals@.skip(0) =~= visuals@);
            }
            while v < m
                invariant
                    v <= m,
                    spec_first_true_color(visuals@) == spec_first_true_color(
                        visuals@.skip(v as int),
                    ),
                decreases m - v,
            {
                proof {
                    assert(visuals@.skip(v as int).drop_first() =~= visuals@.skip(v as int + 1));
                    assert(visuals@.skip(v as int)[0] == visuals@[v as int]);
                }
                if visuals[v].class == VISUAL_CLASS_TRUE_COLOR {
                    return Some(visuals[v].id);
                }
                v += 1;
            }
            proof {
                assert(visuals@.skip(m as int) =~= Seq::<VisualInfo>::empty());
            }
        }
        d += 1;
    }
    proof {
        assert(depths@.skip(n as int) =~= Seq::<DepthInfo>::empty());
    }
    None
}

} // verus!
