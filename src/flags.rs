use vstd::prelude::*;

verus! {

/// One of the four filter stages.
#[derive(Clone, Copy, Debug, PartialEq, Eq, Structural)]
pub enum Stage {
    Greyscale,
    Edges,
    Blur,
    Invert,
}

/// One switch per stage; every combination is valid.
#[derive(Clone, Copy, Debug, PartialEq, Eq, Structural)]
pub struct StageFlags {
    pub greyscale: bool,
    pub edges: bool,
    pub blur: bool,
    pub invert: bool,
}

pub open spec fn factory_flags() -> StageFlags {
    StageFlags { greyscale: true, edges: true, blur: true, invert: true }
}

impl StageFlags {
    /// Whether `stage` is switched on.
    pub open spec fn enabled(self, stage: Stage) -> bool {
        match stage {
            Stage::Greyscale => self.greyscale,
            Stage::Edges => self.edges,
            Stage::Blur => self.blur,
            Stage::Invert => self.invert,
        }
    }

    /// `self` with the switch of `stage` set to `on`.
    pub open spec fn with(self, stage: Stage, on: bool) -> StageFlags {
        match stage {
            Stage::Greyscale => StageFlags { greyscale: on, ..self },
            Stage::Edges => StageFlags { edges: on, ..self },
            Stage::Blur => StageFlags { blur: on, ..self },
            Stage::Invert => StageFlags { invert: on, ..self },
        }
    }

    /// All four stages switched on.
    pub fn all_enabled() -> (r: StageFlags)
        ensures
            r == factory_flags(),
    {
        StageFlags { greyscale: true, edges: true, blur: true, invert: true }
    }

    /// Whether `stage` is switched on.
    pub fn is_enabled(&self, stage: Stage) -> (r: bool)
        ensures
            r == self.enabled(stage),
    {
        match stage {
            Stage::Greyscale => self.greyscale,
            Stage::Edges => self.edges,
            Stage::Blur => self.blur,
            Stage::Invert => self.invert,
        }
    }

    /// Flips the switch of `stage` and leaves the other three as they were.
    pub fn toggle(&mut self, stage: Stage)
        ensures
            *final(self) == old(self).with(stage, !old(self).enabled(stage)),
    {
        match stage {
            Stage::Greyscale => self.greyscale = !self.greyscale,
            Stage::Edges => self.edges = !self.edges,
            Stage::Blur => self.blur = !self.blur,
            Stage::Invert => self.invert = !self.invert,
        }
    }
}

} // verus!
