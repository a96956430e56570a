use grid_topology::edges::{check_edges, GridError};
use grid_topology::topology::GridTopology;

#[test]
fn table_matches_classifier_per_cell() {
    let width: i32 = 4;
    let height: i32 = 3;
    let topo = GridTopology::new(width, height).unwrap();
    assert_eq!(topo.width(), width);
    assert_eq!(topo.height(), height);
    for index in 0..(width * height) {
        assert_eq!(topo.flags_of(index), check_edges(index, width, height));
    }
}

#[test]
fn table_corner_flags() {
    let topo = GridTopology::new(3, 3).unwrap();
    assert_eq!(topo.flags_of(0), Ok((true, false, true, false)));
    assert_eq!(topo.flags_of(2), Ok((false, true, true, false)));
    assert_eq!(topo.flags_of(6), Ok((true, false, false, true)));
    assert_eq!(topo.flags_of(8), Ok((false, true, false, true)));
}

#[test]
fn table_rejects_invalid_dimensions() {
    assert_eq!(
        GridTopology::new(0, 3).map(|_| ()),
        Err(GridError::InvalidDimensions)
    );
    assert_eq!(
        GridTopology::new(3, -1).map(|_| ()),
        Err(GridError::InvalidDimensions)
    );
}

#[test]
fn table_rejects_out_of_bounds_index() {
    let topo = GridTopology::new(3, 3).unwrap();
    assert_eq!(topo.flags_of(9), Err(GridError::IndexOutOfBounds));
    assert_eq!(topo.flags_of(-1), Err(GridError::IndexOutOfBounds));
    assert_eq!(topo.row_col(9), Err(GridError::IndexOutOfBounds));
    assert_eq!(topo.row_col(-1), Err(GridError::IndexOutOfBounds));
}

#[test]
fn row_col_rederives_the_index() {
    let width: i32 = 4;
    let height: i32 = 3;
    let topo = GridTopology::new(width, height).unwrap();
    for index in 0..(width * height) {
        let (row, col) = topo.row_col(index).unwrap();
        assert_eq!(row, index / width);
        assert_eq!(col, index % width);
        assert_eq!(row * width + col, index);
    }
}

#[test]
fn one_by_one_table() {
    let topo = GridTopology::new(1, 1).unwrap();
    assert_eq!(topo.flags_of(0), Ok((true, true, true, true)));
    assert_eq!(topo.row_col(0), Ok((0, 0)));
}
