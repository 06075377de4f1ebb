use raytracing_rs::raster::scan_order;

#[test]
fn scan_is_row_major() {
    assert_eq!(
        scan_order(3, 2),
        vec![(0, 0), (1, 0), (2, 0), (0, 1), (1, 1), (2, 1)]
    );
}

#[test]
fn scan_of_empty_image() {
    assert!(scan_order(0, 5).is_empty());
    assert!(scan_order(5, 0).is_empty());
}

#[test]
fn scan_of_wide_image() {
    let order = scan_order(400, 225);
    assert_eq!(order.len(), 90000);
    assert_eq!(order[0], (0, 0));
    assert_eq!(order[399], (399, 0));
    assert_eq!(order[400], (0, 1));
    assert_eq!(order[89999], (399, 224));
}

#[test]
fn scan_of_single_column() {
    assert_eq!(scan_order(1, 3), vec![(0, 0), (0, 1), (0, 2)]);
}
