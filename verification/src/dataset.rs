//! Crystallographic dataset for a given structure

use vstd::prelude::*;
use crate::symbol;

verus! {

/// A database of crystallographic information for a given structure
///
/// Matrices, origin shifts and translations are carried as IEEE-754 bit
/// patterns (`u64`); the logic here never interprets them numerically.
#[derive(Clone, Debug)]
pub struct Dataset {
    /// The space group type number defined in International Tables for Crystallography
    pub spacegroup_number: i32,
    /// The serial number from 1 to 530
    pub hall_number: i32,
    /// The full Hermann-Mauguin notation
    pub international_symbol: String,
    /// The hall symbol
    pub hall_symbol: String,
    /// The information on unique axis, setting, or cell choices
    pub choice: String,
    /// The transformation matrix relating the input setting to the standardized setting
    pub transformation_matrix: [[u64; 3]; 3],
    /// The origin shift relating the input setting to the standardized setting
    pub origin_shift: [u64; 3],
    /// The number of symmetry operations
    pub n_operations: i32,
    /// The rotation symmetry operations
    pub rotations: Vec<[[i32; 3]; 3]>,
    /// The translation symmetry operations
    pub translations: Vec<[u64; 3]>,
    /// The number of atoms in the input cell
    pub n_atoms: i32,
    /// The wyckoff letters encoded as integer numbers
    pub wyckoffs: Vec<i32>,
    /// Site symmetry symbols for a given space group type
    pub site_symmetry_symbols: Vec<String>,
    /// The mapping table from the atomic indices of the input cell to the atomic indices of symmetrically independent atoms
    pub equivalent_atoms: Vec<i32>,
    /// The atomic indices in the primitive cell of the input structure
    pub mapping_to_primitive: Vec<i32>,
    /// Number of atoms in the standardized cell after idealization
    pub n_std_atoms: i32,
    /// Lattice of the standardized cell after idealization
    pub std_lattice: [[u64; 3]; 3],
    /// Types in the standardized cell after idealization
    pub std_types: Vec<i32>,
    /// Positions in the standardized cell after idealization
    pub std_positions: Vec<[u64; 3]>,
    /// Rotation matrix which rotates the cell structure from the pre idealization state to the post idealized state
    pub std_rotation_matrix: [[u64; 3]; 3],
    /// The atomic indices in the primitive cell of the standardized crystal structure where the same number represents the same atom in the primitive cell
    pub std_mapping_to_primitive: Vec<i32>,
    /// The symbol of the crystallographic point group in Hermann-Mauguin notation
    pub pointgroup_symbol: String,
}

impl Dataset {
    /// A dataset is well formed when every per-operation array holds exactly
    /// `n_operations` entries, every per-atom array exactly `n_atoms`
    /// entries, and every standardized-cell array exactly `n_std_atoms`
    /// entries.
    pub open spec fn wf(self) -> bool {
        &&& self.n_operations >= 0
        &&& self.rotations@.len() == self.n_operations
        &&& self.translations@.len() == self.n_operations
        &&& self.n_atoms >= 0
        &&& self.wyckoffs@.len() == self.n_atoms
        &&& self.equivalent_atoms@.len() == self.n_atoms
        &&& self.mapping_to_primitive@.len() == self.n_atoms
        &&& self.n_std_atoms >= 0
        &&& self.std_types@.len() == self.n_std_atoms
        &&& self.std_positions@.len() == self.n_std_atoms
        &&& self.std_mapping_to_primitive@.len() == self.n_std_atoms
    }

    /// Whether the counts a native result reports agree with the lengths of
    /// the buffers taken over from it.
    pub open spec fn counts_agree(
        n_operations: i32,
        rotations: Seq<[[i32; 3]; 3]>,
        translations: Seq<[u64; 3]>,
        n_atoms: i32,
        wyckoffs: Seq<i32>,
        equivalent_atoms: Seq<i32>,
        mapping_to_primitive: Seq<i32>,
        n_std_atoms: i32,
        std_types: Seq<i32>,
        std_positions: Seq<[u64; 3]>,
        std_mapping_to_primitive: Seq<i32>,
    ) -> bool {
        &&& n_operations >= 0
        &&& rotations.len() == n_operations
        &&& translations.len() == n_operations
        &&& n_atoms >= 0
        &&& wyckoffs.len() == n_atoms
        &&& equivalent_atoms.len() == n_atoms
        &&& mapping_to_primitive.len() == n_atoms
        &&& n_std_atoms >= 0
        &&& std_types.len() == n_std_atoms
        &&& std_positions.len() == n_std_atoms
        &&& std_mapping_to_primitive.len() == n_std_atoms
    }

    /// Builds a dataset from the fields of a native analysis result: the
    /// numeric classifications, the buffers whose ownership was taken over,
    /// and the embedded fixed-size NUL-terminated text fields.
    ///
    /// Returns `None` exactly when some reported count disagrees with the
    /// length of the matching buffer, or some text field is not decodable —
    /// either one a violation of the native engine's contract, not a normal
    /// outcome. The dataset returned is well formed.
    pub fn from_raw_parts(
        spacegroup_number: i32,
        hall_number: i32,
        international_symbol: &Vec<u8>,
        hall_symbol: &Vec<u8>,
        choice: &Vec<u8>,
        transformation_matrix: [[u64; 3]; 3],
        origin_shift: [u64; 3],
        n_operations: i32,
        rotations: Vec<[[i32; 3]; 3]>,
        translations: Vec<[u64; 3]>,
        n_atoms: i32,
        wyckoffs: Vec<i32>,
        equivalent_atoms: Vec<i32>,
        mapping_to_primitive: Vec<i32>,
        n_std_atoms: i32,
        std_lattice: [[u64; 3]; 3],
        std_types: Vec<i32>,
        std_positions: Vec<[u64; 3]>,
        std_rotation_matrix: [[u64; 3]; 3],
        std_mapping_to_primitive: Vec<i32>,
        pointgroup_symbol: &Vec<u8>,
    ) -> (r: Option<Dataset>)
        ensures
            r is Some <==> Self::counts_agree(
                n_operations,
                rotations@,
                translations@,
                n_atoms,
                wyckoffs@,
                equivalent_atoms@,
                mapping_to_primitive@,
                n_std_atoms,
                std_types@,
                std_positions@,
                std_mapping_to_primitive@,
            ) && symbol::well_formed(international_symbol@) && symbol::well_formed(hall_symbol@)
                && symbol::well_formed(choice@) && symbol::well_formed(pointgroup_symbol@),
            r matches Some(d) ==> d.wf() && d.spacegroup_number == spacegroup_number
                && d.hall_number == hall_number
                && d.international_symbol@ == symbol::decoded(international_symbol@)
                && d.hall_symbol@ == symbol::decoded(hall_symbol@)
                && d.choice@ == symbol::decoded(choice@)
                && d.transformation_matrix == transformation_matrix
                && d.origin_shift == origin_shift
                && d.n_operations == n_operations
                && d.rotations@ == rotations@
                && d.translations@ == translations@
                && d.n_atoms == n_atoms
                && d.wyckoffs@ == wyckoffs@
                && d.site_symmetry_symbols@.len() == 0
                && d.equivalent_atoms@ == equivalent_atoms@
                && d.mapping_to_primitive@ == mapping_to_primitive@
                && d.n_std_atoms == n_std_atoms
                && d.std_lattice == std_lattice
                && d.std_types@ == std_types@
                && d.std_positions@ == std_positions@
                && d.std_rotation_matrix == std_rotation_matrix
                && d.std_mapping_to_primitive@ == std_mapping_to_primitive@
                && d.pointgroup_symbol@ == symbol::decoded(pointgroup_symbol@),
    {
        if n_operations < 0 || n_atoms < 0 || n_std_atoms < 0 {
            return None;
        }
        let n_ops = n_operations as usize;
        let n_at = n_atoms as usize;
        let n_std = n_std_atoms as usize;
        if rotations.len() != n_ops || translations.len() != n_ops {
            return None;
        }
        if wyckoffs.len() != n_at || equivalent_atoms.len() != n_at || mapping_to_primitive.len()
            != n_at {
            return None;
        }
        if std_types.len() != n_std || std_positions.len() != n_std
            || std_mapping_to_primitive.len() != n_std {
            return None;
        }
        let international_symbol = match symbol::decode_symbol(international_symbol) {
            Some(t) => t,
            None => {
                return None;
            },
        };
        let hall_symbol = match symbol::decode_symbol(hall_symbol) {
            Some(t) => t,
            None => {
                return None;
            },
        };
        let choice = match symbol::decode_symbol(choice) {
            Some(t) => t,
            None => {
                return None;
            },
        };
        let pointgroup_symbol = match symbol::decode_symbol(pointgroup_symbol) {
            Some(t) => t,
            None => {
                return None;
            },
        };
        Some(
            Dataset {
                spacegroup_number,
                hall_number,
                international_symbol,
                hall_symbol,
                choice,
                transformation_matrix,
                origin_shift,
                n_operations,
                rotations,
                translations,
                n_atoms,
                wyckoffs,
                site_symmetry_symbols: Vec::new(),
                equivalent_atoms,
                mapping_to_primitive,
                n_std_atoms,
                std_lattice,
                std_types,
                std_positions,
                std_rotation_matrix,
                std_mapping_to_primitive,
                pointgroup_symbol,
            },
        )
    }
}

} // verus!
