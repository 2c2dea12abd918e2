//! Windows paths carried as their native UTF-16 code units, without Unicode
//! repair, so that unpaired surrogates survive.

use vstd::prelude::*;

verus! {

#[derive(Clone, Copy, Debug, PartialEq, Eq, Structural)]
pub enum WindowsPathError {
    /// The path contains a NUL code unit.
    InteriorNul,
    /// The path's encoding cannot be represented on this platform.
    WrongPlatformEncoding,
}

#[derive(Clone, Debug, PartialEq, Eq, Hash)]
pub struct WindowsPath {
    units: Vec<u16>,
}

pub open spec fn has_nul(units: Seq<u16>) -> bool {
    exists|i: int| 0 <= i < units.len() && units[i] == 0
}

impl WindowsPath {
    /// The UTF-16 code units of the path.
    pub closed spec fn units(&self) -> Seq<u16> {
        self.units@
    }

    /// Accepts any sequence of code units without a NUL.
    pub fn new(units: Vec<u16>) -> (r: Result<Self, WindowsPathError>)
        ensures
            has_nul(units@) ==> r == Err::<Self, WindowsPathError>(WindowsPathError::InteriorNul),
            !has_nul(units@) ==> (r matches Ok(path) && path.units() == units@),
    {
        let mut i: usize = 0;
        while i < units.len()
            invariant
                0 <= i <= units@.len(),
                forall|j: int| 0 <= j < i ==> units@[j] != 0,
            decreases units.len() - i,
        {
            if units[i] == 0 {
                return Err(WindowsPathError::InteriorNul);
            }
            i = i + 1;
        }
        Ok(WindowsPath { units })
    }

    /// Creates a path from native Windows UTF-16 code units.
    pub fn from_wtf16(units: Vec<u16>) -> (r: Result<Self, WindowsPathError>)
        ensures
            has_nul(units@) ==> r == Err::<Self, WindowsPathError>(WindowsPathError::InteriorNul),
            !has_nul(units@) ==> (r matches Ok(path) && path.units() == units@),
    {
        Self::new(units)
    }

    pub fn as_units(&self) -> (r: &[u16])
        ensures
            r@ == self.units(),
    {
        self.units.as_slice()
    }

    pub fn into_units(self) -> (r: Vec<u16>)
        ensures
            r@ == self.units(),
    {
        self.units
    }

    pub fn duplicate(&self) -> (r: Self)
        ensures
            r.units() == self.units(),
    {
        let mut units: Vec<u16> = Vec::new();
        let mut i: usize = 0;
        while i < self.units.len()
            invariant
                0 <= i <= self.units@.len(),
                units@ == self.units@.take(i as int),
            decreases self.units.len() - i,
        {
            units.push(self.units[i]);
            i = i + 1;
            proof {
                assert(units@ =~= self.units@.take(i as int));
            }
        }
        proof {
            assert(self.units@.take(i as int) =~= self.units@);
        }
        WindowsPath { units }
    }

    pub fn same(&self, other: &Self) -> (r: bool)
        ensures
            r == (self.units() == other.units()),
    {
        if self.units.len() != other.units.len() {
            return false;
        }
        let mut i: usize = 0;
        while i < self.units.len()
            invariant
                self.units@.len() == other.units@.len(),
                0 <= i <= self.units@.len(),
                forall|j: int| 0 <= j < i ==> self.units@[j] == other.units@[j],
            decreases self.units.len() - i,
        {
            if self.units[i] != other.units[i] {
                return false;
            }
            i = i + 1;
        }
        proof {
            assert(self.units@ =~= other.units@);
        }
        true
    }
}

} // verus!
