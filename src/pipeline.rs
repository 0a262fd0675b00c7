use vstd::prelude::*;
use crate::flags::{Stage, StageFlags};

verus! {

/// The stages that run on a frame, in the order they run: greyscale, then
/// edge detection, then blur, then inversion, each only if switched on.
pub open spec fn plan(f: StageFlags) -> Seq<Stage> {
    (if f.greyscale { seq![Stage::Greyscale] } else { Seq::empty() })
        + (if f.edges { seq![Stage::Edges] } else { Seq::empty() })
        + (if f.blur { seq![Stage::Blur] } else { Seq::empty() })
        + (if f.invert { seq![Stage::Invert] } else { Seq::empty() })
}

/// The stages to run on a frame under `flags`, in order.
pub fn stages_for(flags: &StageFlags) -> (r: Vec<Stage>)
    ensures
        r@ == plan(*flags),
{
    let mut r: Vec<Stage> = Vec::new();
    if flags.greyscale {
        r.push(Stage::Greyscale);
    }
    if flags.edges {
        r.push(Stage::Edges);
    }
    if flags.blur {
        r.push(Stage::Blur);
    }
    if flags.invert {
        r.push(Stage::Invert);
    }
    proof {
        assert(r@ =~= plan(*flags));
    }
    r
}

/// Extent and pixel layout of a frame.
#[derive(Clone, Copy, Debug, PartialEq, Eq, Structural)]
pub struct FrameShape {
    pub width: u32,
    pub height: u32,
    pub channels: u32,
}

impl FrameShape {
    /// A frame with no pixels: nothing was captured yet.
    pub open spec fn is_empty(self) -> bool {
        self.width == 0 || self.height == 0
    }
}

/// Shape of what one stage hands on. Greyscale conversion and edge detection
/// give one channel; blur and inversion keep the layout. No stage changes the
/// extent.
pub open spec fn stage_shape(stage: Stage, s: FrameShape) -> FrameShape {
    match stage {
        Stage::Greyscale | Stage::Edges => FrameShape { channels: 1, ..s },
        Stage::Blur | Stage::Invert => s,
    }
}

/// Shape after running `stages` in order on a frame of shape `s`.
pub open spec fn shape_after(stages: Seq<Stage>, s: FrameShape) -> FrameShape
    decreases stages.len(),
{
    if stages.len() == 0 {
        s
    } else {
        stage_shape(stages.last(), shape_after(stages.drop_last(), s))
    }
}

/// Shape of the frame that the stages switched on in `flags` make of a frame
/// of shape `shape`.
pub fn output_shape(shape: FrameShape, flags: &StageFlags) -> (r: FrameShape)
    ensures
        r == shape_after(plan(*flags), shape),
{
    let stages = stages_for(flags);
    let mut r = shape;
    let mut i: usize = 0;
    while i < stages.len()
        invariant
            i <= stages@.len(),
            r == shape_after(stages@.take(i as int), shape),
        decreases stages@.len() - i,
    {
        proof {
            assert(stages@.take(i as int + 1).drop_last() =~= stages@.take(i as int));
        }
        r = match stages[i] {
            Stage::Greyscale | Stage::Edges => FrameShape { channels: 1, ..r },
            Stage::Blur | Stage::Invert => r,
        };
        i = i + 1;
    }
    proof {
        assert(stages@.take(stages@.len() as int) =~= stages@);
    }
    r
}

/// Whether a stage hands on a single-channel frame.
pub open spec fn narrows(stage: Stage) -> bool {
    stage == Stage::Greyscale || stage == Stage::Edges
}

/// A sequence of stages gives one channel when one of its stages narrows the
/// frame, and keeps the channel count when none does.
proof fn lemma_stages_channels(stages: Seq<Stage>, s: FrameShape)
    ensures
        (exists|i: int| 0 <= i < stages.len() && narrows(#[trigger] stages[i])) ==> shape_after(
            stages,
            s,
        ).channels == 1,
        (forall|i: int| 0 <= i < stages.len() ==> !narrows(#[trigger] stages[i])) ==> shape_after(
            stages,
            s,
        ).channels == s.channels,
    decreases stages.len(),
{
    if stages.len() > 0 {
        let init = stages.drop_last();
        lemma_stages_channels(init, s);
        if !narrows(stages.last()) {
            if exists|i: int| 0 <= i < stages.len() && narrows(#[trigger] stages[i]) {
                let i = choose|i: int| 0 <= i < stages.len() && narrows(#[trigger] stages[i]);
                assert(init[i] == stages[i]);
            }
        }
        assert forall|i: int| 0 <= i < init.len() implies #[trigger] init[i] == stages[i] by {}
    }
}

/// No sequence of stages changes the extent of a frame.
proof fn lemma_stages_keep_extent(stages: Seq<Stage>, s: FrameShape)
    ensures
        shape_after(stages, s).width == s.width,
        shape_after(stages, s).height == s.height,
    decreases stages.len(),
{
    if stages.len() > 0 {
        lemma_stages_keep_extent(stages.drop_last(), s);
    }
}

/// Under every combination of switches the output frame has the extent of the
/// input frame, so it is empty exactly when the input was. It has one channel
/// when greyscale conversion or edge detection ran, and the input's layout
/// otherwise.
pub proof fn lemma_process_keeps_extent(f: StageFlags, s: FrameShape)
    ensures
        shape_after(plan(f), s).width == s.width,
        shape_after(plan(f), s).height == s.height,
        shape_after(plan(f), s).is_empty() == s.is_empty(),
        shape_after(plan(f), s).channels == (if f.greyscale || f.edges {
            1
        } else {
            s.channels
        }),
{
    lemma_stages_keep_extent(plan(f), s);
    lemma_stages_channels(plan(f), s);
    let p = plan(f);
    if f.greyscale {
        assert(p[0] == Stage::Greyscale);
    } else if f.edges {
        assert(p[0] == Stage::Edges);
    } else {
        let b = if f.blur { seq![Stage::Blur] } else { Seq::<Stage>::empty() };
        let v = if f.invert { seq![Stage::Invert] } else { Seq::<Stage>::empty() };
        assert(p =~= b + v);
        assert forall|i: int| 0 <= i < p.len() implies !narrows(p[i]) by {
            if i < b.len() {
                assert(p[i] == b[i]);
            } else {
                assert(p[i] == v[i - b.len()]);
            }
        }
    }
}

/// Bitwise complement of every byte, as the inversion stage computes it.
pub open spec fn inverted(data: Seq<u8>) -> Seq<u8> {
    Seq::new(data.len(), |i: int| (255 - data[i]) as u8)
}

/// Complements every byte of a pixel buffer; no byte is masked out.
pub fn invert_pixels(data: &Vec<u8>) -> (r: Vec<u8>)
    ensures
        r@ == inverted(data@),
{
    let mut r: Vec<u8> = Vec::with_capacity(data.len());
    let mut i: usize = 0;
    while i < data.len()
        invariant
            i <= data@.len(),
            r@ == inverted(data@).take(i as int),
        decreases data@.len() - i,
    {
        r.push(255u8 - data[i]);
        i = i + 1;
        proof {
            assert(r@ =~= inverted(data@).take(i as int));
        }
    }
    proof {
        assert(r@ =~= inverted(data@));
    }
    r
}

/// Inverting twice gives back the original pixel data exactly.
pub proof fn lemma_invert_twice(data: Seq<u8>)
    ensures
        inverted(inverted(data)) == data,
{
    assert(inverted(inverted(data)) =~= data);
}

} // verus!
