use crate::types::Data;
use vstd::prelude::*;

verus! {

/// Which coordinate the next write to the scroll register sets.
#[derive(Debug, Clone, Copy, PartialEq, Eq, Structural)]
pub enum Enable {
    X,
    Y,
}

/// The scroll register, written in two steps: x, then y.
#[derive(Debug, Clone, Copy)]
pub struct PpuScroll {
    pub x: Data,
    pub y: Data,
    pub enable: Enable,
}

impl PpuScroll {
    /// The register after a write of `data`.
    pub open spec fn after_write(self, data: Data) -> PpuScroll {
        match self.enable {
            Enable::X => PpuScroll { x: data, enable: Enable::Y, ..self },
            Enable::Y => PpuScroll { y: data, enable: Enable::X, ..self },
        }
    }

    pub fn new() -> (r: Self)
        ensures
            r == (PpuScroll { x: 0, y: 0, enable: Enable::X }),
    {
        PpuScroll { x: 0, y: 0, enable: Enable::X }
    }

    /// Makes the next write set x.
    pub fn enable_x(&mut self)
        ensures
            *final(self) == (PpuScroll { enable: Enable::X, ..*old(self) }),
    {
        self.enable = Enable::X;
    }

    pub fn get_x(&self) -> (r: Data)
        ensures
            r == self.x,
    {
        self.x
    }

    pub fn get_y(&self) -> (r: Data)
        ensures
            r == self.y,
    {
        self.y
    }

    pub fn write(&mut self, data: Data)
        ensures
            *final(self) == old(self).after_write(data),
    {
        match self.enable {
            Enable::X => {
                self.x = data;
                self.enable = Enable::Y
            },
            Enable::Y => {
                self.y = data;
                self.enable = Enable::X
            },
        }
    }
}

} // verus!
