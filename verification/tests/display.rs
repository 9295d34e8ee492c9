use blockwork::display::{logical_desktop_bounds, logical_outputs, OutputGeometry};

fn output(x: i32, y: i32, w: i32, h: i32) -> OutputGeometry {
    OutputGeometry { logical_position: Some((x, y)), logical_size: Some((w, h)) }
}

#[test]
fn desktop_bounds_cover_every_output() {
    let outputs = vec![output(0, 13, 1707, 1067), output(1707, 0, 1920, 1080)];
    let b = logical_desktop_bounds(&outputs).unwrap();
    assert_eq!((b.x, b.y, b.width, b.height), (0, 0, 3627, 1080));
}

#[test]
fn an_unknown_output_geometry_gives_no_bounds() {
    let outputs = vec![output(0, 0, 100, 100), OutputGeometry { logical_position: Some((5, 5)), logical_size: None }];
    assert!(logical_desktop_bounds(&outputs).is_none());
    assert!(logical_desktop_bounds(&vec![]).is_none());
}

#[test]
fn empty_outputs_are_ignored() {
    let outputs = vec![output(-100, 0, 0, 50), output(10, 20, 30, 40)];
    let b = logical_desktop_bounds(&outputs).unwrap();
    assert_eq!((b.x, b.y, b.width, b.height), (10, 20, 30, 40));
    let usable = logical_outputs(&outputs).unwrap();
    assert_eq!(usable.len(), 1);
    assert_eq!((usable[0].bounds.x, usable[0].bounds.width), (10, 30));
    assert!(logical_outputs(&vec![output(0, 0, 0, 0)]).is_none());
}

#[test]
fn outputs_left_of_the_origin_widen_the_desktop() {
    let outputs = vec![output(0, 0, 1920, 1080), output(-1280, 200, 1280, 1024)];
    let b = logical_desktop_bounds(&outputs).unwrap();
    assert_eq!((b.x, b.y, b.width, b.height), (-1280, 0, 3200, 1224));
}
