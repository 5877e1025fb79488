//! Data structures and methods which apply to or operate on a crystalline cell

use vstd::prelude::*;
use crate::DelaunayReduceError;
use crate::NiggliReduceError;
use crate::StandardizeError;

verus! {

/// Standardization operations which can be applied to a cell
#[derive(Clone, Debug)]
pub enum StandardizeOps {
    /// Find the ideal structure from one which may be slightly distorted
    Ideal,
    /// Find the primitive cell
    Primitive,
    /// Idealize and find primitive
    Both,
}

impl StandardizeOps {
    /// The native flag pair `(to_primitive, no_idealize)` that selects this
    /// operation.
    pub open spec fn spec_flags(self) -> (i32, i32) {
        match self {
            StandardizeOps::Ideal => (0, 0),
            StandardizeOps::Primitive => (1, 1),
            StandardizeOps::Both => (1, 0),
        }
    }

    /// Returns the flag pair `(to_primitive, no_idealize)` handed to the
    /// native standardization call for this operation.
    pub fn flags(&self) -> (r: (i32, i32))
        ensures
            r == self.spec_flags(),
    {
        match self {
            StandardizeOps::Ideal => (0, 0),
            StandardizeOps::Primitive => (1, 1),
            StandardizeOps::Both => (1, 0),
        }
    }
}

/// Representation of a crystalline cell
///
/// Lattice vectors and fractional coordinates are carried as IEEE-754 bit
/// patterns (`u64`); the logic here never interprets them numerically.
#[derive(Clone, Debug)]
pub struct Cell {
    /// Lattice vectors
    pub lattice: [[u64; 3]; 3],
    /// Position of each atom
    pub positions: Vec<[u64; 3]>,
    /// Type of each atom
    pub types: Vec<i32>,
}

impl Cell {
    /// A cell is well formed when it holds one species identifier for each
    /// atomic position.
    pub open spec fn wf(self) -> bool {
        self.positions@.len() == self.types@.len()
    }

    /// Returns a crystalline cell
    ///
    /// The number of positions must match the number of types.
    pub fn new(lattice: [[u64; 3]; 3], positions: Vec<[u64; 3]>, types: Vec<i32>) -> (r: Cell)
        requires
            positions@.len() == types@.len(),
        ensures
            r.lattice == lattice,
            r.positions@ == positions@,
            r.types@ == types@,
            r.wf(),
    {
        Cell { lattice, positions, types }
    }

    /// Returns the number of atoms the cell holds.
    pub fn n_atoms(&self) -> (n: usize)
        ensures
            n == self.positions@.len(),
    {
        self.positions.len()
    }

    /// Commits the outcome of a native standardization call: `res` is the
    /// native return code (the new atom count, `0` on failure), and the
    /// buffers are the ones the native call overwrote in place, of which the
    /// first `n_atoms` entries are meaningful.
    ///
    /// On success the lattice is replaced and the position and species lists
    /// are truncated copies of the overwritten buffers; on failure the cell
    /// is left unchanged and a standardization error is returned.
    pub fn commit_standardized(
        &mut self,
        res: i32,
        lattice: [[u64; 3]; 3],
        positions: &Vec<[u64; 3]>,
        types: &Vec<i32>,
        n_atoms: usize,
    ) -> (r: Result<(), StandardizeError>)
        requires
            old(self).wf(),
            n_atoms <= positions@.len(),
            n_atoms <= types@.len(),
        ensures
            r is Ok <==> res != 0,
            res != 0 ==> final(self).lattice == lattice
                && final(self).positions@ == positions@.take(n_atoms as int)
                && final(self).types@ == types@.take(n_atoms as int),
            res == 0 ==> final(self).lattice == old(self).lattice
                && final(self).positions@ == old(self).positions@
                && final(self).types@ == old(self).types@,
            final(self).wf(),
    {
        if res == 0 {
            return Err(StandardizeError);
        }
        self.lattice = lattice;
        let mut new_positions: Vec<[u64; 3]> = Vec::new();
        let mut new_types: Vec<i32> = Vec::new();
        let mut i: usize = 0;
        while i < n_atoms
            invariant
                0 <= i <= n_atoms,
                n_atoms <= positions@.len(),
                n_atoms <= types@.len(),
                new_positions@ == positions@.take(i as int),
                new_types@ == types@.take(i as int),
            decreases n_atoms - i,
        {
            new_positions.push(positions[i]);
            new_types.push(types[i]);
            i += 1;
            proof {
                assert(new_positions@ =~= positions@.take(i as int));
                assert(new_types@ =~= types@.take(i as int));
            }
        }
        self.positions = new_positions;
        self.types = new_types;
        Ok(())
    }

    /// Commits the outcome of a native Delaunay reduction: `res` is the
    /// native return code (`0` on failure) and `lattice` the basis the call
    /// wrote back.
    ///
    /// On success the lattice is replaced; positions and species are never
    /// touched. On failure the cell is left unchanged and a reduction error
    /// is returned.
    pub fn commit_delaunay_reduced(&mut self, res: i32, lattice: [[u64; 3]; 3]) -> (r: Result<
        (),
        DelaunayReduceError,
    >)
        ensures
            r is Ok <==> res != 0,
            res != 0 ==> final(self).lattice == lattice,
            res == 0 ==> final(self).lattice == old(self).lattice,
            final(self).positions@ == old(self).positions@,
            final(self).types@ == old(self).types@,
            final(self).wf() == old(self).wf(),
    {
        if res == 0 {
            return Err(DelaunayReduceError);
        }
        self.lattice = lattice;
        Ok(())
    }

    /// Commits the outcome of a native Niggli reduction: `res` is the native
    /// return code (`0` on failure) and `lattice` the basis the call wrote
    /// back.
    ///
    /// On success the lattice is replaced; positions and species are never
    /// touched. On failure the cell is left unchanged and a reduction error
    /// is returned.
    pub fn commit_niggli_reduced(&mut self, res: i32, lattice: [[u64; 3]; 3]) -> (r: Result<
        (),
        NiggliReduceError,
    >)
        ensures
            r is Ok <==> res != 0,
            res != 0 ==> final(self).lattice == lattice,
            res == 0 ==> final(self).lattice == old(self).lattice,
            final(self).positions@ == old(self).positions@,
            final(self).types@ == old(self).types@,
            final(self).wf() == old(self).wf(),
    {
        if res == 0 {
            return Err(NiggliReduceError);
        }
        self.lattice = lattice;
        Ok(())
    }
}

} // verus!
