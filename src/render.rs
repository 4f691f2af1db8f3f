//! Render settings, checked once before any ray is traced, and the
//! control decisions of the path integrator.

use crate::bitmap::{fits_bitmap, U32_LIMIT};
use crate::framebuffer::{frame_len, BYTES_PER_PIXEL};
use crate::screen::MAX_SIDE;
use vstd::prelude::*;

verus! {

/// Most bounces a path may take; deeper settings are refused before the
/// integrator's first call.
pub const MAX_BOUNCE_LIMIT: u8 = 16;

/// Why a set of render settings was refused.
#[derive(Debug, Clone, Copy, PartialEq, Eq, Structural)]
pub enum SettingsError {
    /// Width or height is zero.
    EmptyImage,
    /// No samples per pixel.
    NoSamples,
    /// More bounces than `MAX_BOUNCE_LIMIT`.
    TooDeep,
    /// A side is over `MAX_SIDE`, or the finished bitmap's size does not
    /// fit its `u32` size fields.
    TooLarge,
}

/// Size of the image, samples per pixel and bounce budget of a render.
#[derive(Debug, Clone, Copy, PartialEq, Eq, Structural)]
pub struct RenderSettings {
    width: usize,
    height: usize,
    samples: u32,
    max_depth: u8,
}

/// Whether these values make a render that can run and be written out.
pub open spec fn settings_ok(width: nat, height: nat, samples: nat, max_depth: nat) -> bool {
    &&& width > 0
    &&& height > 0
    &&& samples > 0
    &&& max_depth <= MAX_BOUNCE_LIMIT
    &&& width <= MAX_SIDE
    &&& height <= MAX_SIDE
    &&& fits_bitmap(width, height, frame_len(width, height))
}

impl RenderSettings {
    pub closed spec fn spec_width(&self) -> nat {
        self.width as nat
    }

    pub closed spec fn spec_height(&self) -> nat {
        self.height as nat
    }

    pub closed spec fn spec_samples(&self) -> nat {
        self.samples as nat
    }

    pub closed spec fn spec_max_depth(&self) -> nat {
        self.max_depth as nat
    }

    /// Every value passed the checks of `new`.
    pub open spec fn wf(&self) -> bool {
        settings_ok(self.spec_width(), self.spec_height(), self.spec_samples(), self.spec_max_depth())
    }

    /// Checks the settings: `EmptyImage` for a zero side, else `NoSamples`
    /// for zero samples, else `TooDeep` for a bounce budget over
    /// `MAX_BOUNCE_LIMIT`, else `TooLarge` when a side is over `MAX_SIDE`
    /// or the bitmap's size fields cannot hold the image; otherwise the
    /// settings as given.
    pub fn new(width: usize, height: usize, samples: u32, max_depth: u8) -> (r: Result<RenderSettings, SettingsError>)
        ensures
            match r {
                Ok(s) => settings_ok(width as nat, height as nat, samples as nat, max_depth as nat)
                    && s.wf() && s.spec_width() == width && s.spec_height() == height
                    && s.spec_samples() == samples && s.spec_max_depth() == max_depth,
                Err(e) => !settings_ok(width as nat, height as nat, samples as nat, max_depth as nat)
                    && (e == SettingsError::EmptyImage <==> (width == 0 || height == 0))
                    && (e == SettingsError::NoSamples <==> (width > 0 && height > 0 && samples == 0))
                    && (e == SettingsError::TooDeep <==> (width > 0 && height > 0 && samples > 0
                        && max_depth > MAX_BOUNCE_LIMIT)),
            },
    {
        if width == 0 || height == 0 {
            return Err(SettingsError::EmptyImage);
        }
        if samples == 0 {
            return Err(SettingsError::NoSamples);
        }
        if max_depth > MAX_BOUNCE_LIMIT {
            return Err(SettingsError::TooDeep);
        }
        let limit: usize = U32_LIMIT - 54;
        if width > MAX_SIDE || height > MAX_SIDE {
            return Err(SettingsError::TooLarge);
        }
        if height > limit / width / BYTES_PER_PIXEL {
            proof {
                assert(height * width * 3 > limit) by (nonlinear_arith)
                    requires height > limit / width / 3, width > 0;
                assert(frame_len(width as nat, height as nat) == width * height * 3);
            }
            return Err(SettingsError::TooLarge);
        }
        proof {
            assert(width * height * 3 <= limit) by (nonlinear_arith)
                requires height <= limit / width / 3, width > 0;
            assert(width * height * 3 >= width && width * height * 3 >= height) by (nonlinear_arith)
                requires height > 0, width > 0;
        }
        Ok(RenderSettings { width, height, samples, max_depth })
    }

    pub fn width(&self) -> (r: usize)
        ensures
            r == self.spec_width(),
    {
        self.width
    }

    pub fn height(&self) -> (r: usize)
        ensures
            r == self.spec_height(),
    {
        self.height
    }

    pub fn samples(&self) -> (r: u32)
        ensures
            r == self.spec_samples(),
    {
        self.samples
    }

    pub fn max_depth(&self) -> (r: u8)
        ensures
            r == self.spec_max_depth(),
    {
        self.max_depth
    }
}

/// Index `i` holds the nearest hit of `hits`: a hit no farther than any
/// other, and strictly nearer than every hit listed before it.
pub open spec fn is_nearest(hits: Seq<Option<u32>>, i: int) -> bool {
    &&& 0 <= i < hits.len()
    &&& hits[i] is Some
    &&& forall|j: int| 0 <= j < hits.len() && #[trigger] hits[j] is Some
        ==> hits[i]->0 <= hits[j]->0
    &&& forall|j: int| 0 <= j < i && #[trigger] hits[j] is Some ==> hits[i]->0 < hits[j]->0
}

/// Picks the sphere a ray meets first. Entry `k` of `hits` is the distance
/// at which the ray meets sphere `k`, as a key that orders like the
/// distance, or `None` for a miss. The nearest hit wins; of equal
/// distances the sphere listed first wins. `None` when every entry misses.
pub fn nearest_hit(hits: &[Option<u32>]) -> (r: Option<usize>)
    ensures
        match r {
            Some(i) => is_nearest(hits@, i as int),
            None => forall|j: int| 0 <= j < hits@.len() ==> #[trigger] hits@[j] is None,
        },
{
    let mut best: Option<usize> = None;
    let mut k: usize = 0;
    while k < hits.len()
        invariant
            k <= hits@.len(),
            match best {
                Some(i) => is_nearest(hits@.subrange(0, k as int), i as int),
                None => forall|j: int| 0 <= j < k ==> #[trigger] hits@[j] is None,
            },
        decreases hits@.len() - k,
    {
        let ghost prefix = hits@.subrange(0, k as int);
        let ghost next = hits@.subrange(0, k as int + 1);
        assert(forall|j: int| 0 <= j < k ==> #[trigger] next[j] == prefix[j]);
        if let Some(d) = hits[k] {
            let closer = match best {
                Some(i) => match hits[i] {
                    Some(b) => d < b,
                    None => false,
                },
                None => true,
            };
            if closer {
                best = Some(k);
            }
        }
        proof {
            assert(next[k as int] == hits@[k as int]);
        }
        k = k + 1;
    }
    proof {
        assert(hits@.subrange(0, k as int) =~= hits@);
    }
    best
}

/// What the path integrator does with a ray at one bounce depth.
#[derive(Debug, Clone, Copy, PartialEq, Eq, Structural)]
pub enum PathStep {
    /// The ray carries no light: the bounce budget is spent, or a primary
    /// ray missed every sphere.
    Dark,
    /// The ray hit a sphere: add its emittance and trace one bounce.
    Bounce,
    /// A secondary ray escaped: sum the directional lights it faces.
    Sky,
}

/// The integrator's decision for a ray at `depth` of `max_depth` bounces,
/// given whether it hit a sphere.
pub open spec fn path_step_spec(depth: nat, max_depth: nat, hit: bool) -> PathStep {
    if depth == max_depth {
        PathStep::Dark
    } else if hit {
        PathStep::Bounce
    } else if depth == 0 {
        PathStep::Dark
    } else {
        PathStep::Sky
    }
}

/// Decides what the integrator does with a ray: nothing once the budget is
/// spent, a bounce on a hit, the lights on a secondary miss, and black on a
/// primary miss.
pub fn path_step(depth: u8, max_depth: u8, hit: bool) -> (r: PathStep)
    requires
        depth <= max_depth,
    ensures
        r == path_step_spec(depth as nat, max_depth as nat, hit),
{
    if depth == max_depth {
        PathStep::Dark
    } else if hit {
        PathStep::Bounce
    } else if depth == 0 {
        PathStep::Dark
    } else {
        PathStep::Sky
    }
}

/// A path that starts at depth zero ends: every bounce raises the depth by
/// one, and at `max_depth` the integrator traces nothing more.
pub proof fn lemma_path_ends(depth: nat, max_depth: nat, hit: bool)
    requires
        depth <= max_depth,
    ensures
        path_step_spec(depth, max_depth, hit) == PathStep::Bounce ==> depth + 1 <= max_depth,
        path_step_spec(max_depth, max_depth, hit) == PathStep::Dark,
{
}

} // verus!
