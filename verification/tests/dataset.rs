use spglib::dataset::Dataset;

fn embedded(text: &str, cap: usize) -> Vec<u8> {
    let mut buf = text.as_bytes().to_vec();
    assert!(buf.len() < cap);
    buf.resize(cap, 0);
    buf
}

fn bits3(v: [f64; 3]) -> [u64; 3] {
    [v[0].to_bits(), v[1].to_bits(), v[2].to_bits()]
}

fn bits_mat(m: [[f64; 3]; 3]) -> [[u64; 3]; 3] {
    [bits3(m[0]), bits3(m[1]), bits3(m[2])]
}

fn identity_bits() -> [[u64; 3]; 3] {
    bits_mat([[1., 0., 0.], [0., 1., 0.], [0., 0., 1.]])
}

/// Builds a dataset whose per-operation, per-atom and standardized-cell
/// buffers hold `n_ops`, `n_atoms` and `n_std` entries, with the counts
/// reported as given.
fn build(
    reported_ops: i32,
    n_ops: usize,
    reported_atoms: i32,
    n_atoms: usize,
    reported_std: i32,
    n_std: usize,
) -> Option<Dataset> {
    Dataset::from_raw_parts(
        229,
        529,
        &embedded("Im-3m", 11),
        &embedded("-I 4 2 3", 17),
        &embedded("", 6),
        identity_bits(),
        bits3([0., 0., 0.]),
        reported_ops,
        vec![[[1, 0, 0], [0, 1, 0], [0, 0, 1]]; n_ops],
        vec![bits3([0., 0., 0.]); n_ops],
        reported_atoms,
        vec![0; n_atoms],
        vec![0; n_atoms],
        vec![0; n_atoms],
        reported_std,
        identity_bits(),
        vec![1; n_std],
        vec![bits3([0., 0., 0.]); n_std],
        identity_bits(),
        vec![0; n_std],
        &embedded("m-3m", 6),
    )
}

#[test]
fn dataset_from_consistent_parts() {
    let dataset = build(96, 96, 2, 2, 2, 2).unwrap();
    assert_eq!(dataset.spacegroup_number, 229);
    assert_eq!(dataset.hall_number, 529);
    assert_eq!(dataset.international_symbol.as_str(), "Im-3m");
    assert_eq!(dataset.hall_symbol.as_str(), "-I 4 2 3");
    assert_eq!(dataset.choice.as_str(), "");
    assert_eq!(dataset.pointgroup_symbol.as_str(), "m-3m");
    assert_eq!(dataset.site_symmetry_symbols.len(), 0);
}

#[test]
fn per_operation_and_per_atom_lengths_match_counts() {
    // Structural invariant over datasets of different shapes: every
    // per-operation array holds n_operations entries, every per-atom array
    // n_atoms entries, every standardized-cell array n_std_atoms entries.
    for (ops, atoms, std_atoms) in [(96usize, 2usize, 2usize), (16, 6, 6), (1, 1, 4)] {
        let dataset = build(ops as i32, ops, atoms as i32, atoms, std_atoms as i32, std_atoms)
            .unwrap();
        assert_eq!(dataset.rotations.len(), dataset.n_operations as usize);
        assert_eq!(dataset.translations.len(), dataset.n_operations as usize);
        assert_eq!(dataset.wyckoffs.len(), dataset.n_atoms as usize);
        assert_eq!(dataset.equivalent_atoms.len(), dataset.n_atoms as usize);
        assert_eq!(dataset.mapping_to_primitive.len(), dataset.n_atoms as usize);
        assert_eq!(dataset.std_types.len(), dataset.n_std_atoms as usize);
        assert_eq!(dataset.std_positions.len(), dataset.n_std_atoms as usize);
        assert_eq!(dataset.std_mapping_to_primitive.len(), dataset.n_std_atoms as usize);
    }
}

#[test]
fn dataset_rejects_operation_count_mismatch() {
    assert!(build(96, 95, 2, 2, 2, 2).is_none());
}

#[test]
fn dataset_rejects_atom_count_mismatch() {
    assert!(build(96, 96, 3, 2, 2, 2).is_none());
}

#[test]
fn dataset_rejects_std_atom_count_mismatch() {
    assert!(build(96, 96, 2, 2, 2, 5).is_none());
}

#[test]
fn dataset_rejects_negative_count() {
    assert!(build(-1, 0, 2, 2, 2, 2).is_none());
}

#[test]
fn dataset_rejects_unterminated_symbol() {
    let unterminated = b"Im-3m".to_vec();
    let r = Dataset::from_raw_parts(
        229,
        529,
        &unterminated,
        &embedded("-I 4 2 3", 17),
        &embedded("", 6),
        identity_bits(),
        bits3([0., 0., 0.]),
        0,
        vec![],
        vec![],
        0,
        vec![],
        vec![],
        vec![],
        0,
        identity_bits(),
        vec![],
        vec![],
        identity_bits(),
        vec![],
        &embedded("m-3m", 6),
    );
    assert!(r.is_none());
}
