use isocanvas::color::adjust_brightness;
use isocanvas::frames::{CartCoord, GridCoord};
use isocanvas::models::{
    pointer_preview, render_order, shape_polygon, Dimensions, FaceType, PointerState, Preview,
    Shape, ShapeStyle, DEFAULT_SIZE,
};

fn corner(x: i64, y: i64, z: i64) -> CartCoord {
    CartCoord { x, y, z }
}

#[test]
fn dimensions_new_keeps_the_extents() {
    let d = Dimensions::new(2, 3, 4);
    assert_eq!((d.width, d.height, d.depth), (2, 3, 4));
}

#[test]
fn dimensions_default_is_one_cell() {
    assert_eq!(Dimensions::default(), Dimensions::new(1, 1, 1));
}

#[test]
fn with_default_replaces_only_the_zero_axes() {
    assert_eq!(Dimensions::new(0, 0, 0).with_default(1), Dimensions::new(1, 1, 1));
    assert_eq!(Dimensions::new(0, 5, 0).with_default(3), Dimensions::new(3, 5, 3));
    assert_eq!(Dimensions::new(2, 0, 9).with_default(7), Dimensions::new(2, 7, 9));
    assert_eq!(Dimensions::new(2, 3, 4).with_default(7), Dimensions::new(2, 3, 4));
    assert_eq!(Dimensions::new(u32::MAX, 0, 1).with_default(u32::MAX), Dimensions::new(u32::MAX, u32::MAX, 1));
}

#[test]
fn with_default_of_zero_changes_nothing() {
    assert_eq!(Dimensions::new(0, 5, 0).with_default(0), Dimensions::new(0, 5, 0));
}

#[test]
fn style_default_is_grey_with_black_edges() {
    let style = ShapeStyle::default();
    assert_eq!(style.color, "#808080");
    assert_eq!(style.stroke_color, "#000000");
}

#[test]
fn style_new_keeps_both_colours() {
    let style = ShapeStyle::new("#aa99aa".to_string(), "black".to_string());
    assert_eq!(style.color, "#aa99aa");
    assert_eq!(style.stroke_color, "black");
}

#[test]
fn shape_new_takes_the_colour_and_default_edges() {
    let shape = Shape::new(3, GridCoord::new(20, 1), Dimensions::new(2, 2, 1), "#FF6B6B".to_string());
    assert_eq!(shape.id, 3);
    assert_eq!(shape.position, GridCoord::new(20, 1));
    assert_eq!(shape.dimensions, Dimensions::new(2, 2, 1));
    assert_eq!(shape.style.color, "#FF6B6B");
    assert_eq!(shape.style.stroke_color, ShapeStyle::default().stroke_color);
}

#[test]
fn with_style_replaces_the_style_only() {
    let style = ShapeStyle::new("#123456".to_string(), "white".to_string());
    let shape = Shape::new(5, GridCoord::new(1, 2), Dimensions::new(3, 4, 5), "#FF6B6B".to_string())
        .with_style(style.clone());
    assert_eq!(shape.id, 5);
    assert_eq!(shape.position, GridCoord::new(1, 2));
    assert_eq!(shape.dimensions, Dimensions::new(3, 4, 5));
    assert_eq!(shape.style, style);
}

#[test]
fn identifier_zero_cannot_be_selected() {
    let ghost = Shape::new(0, GridCoord::new(0, 0), Dimensions::default(), "#aa99aa".to_string());
    let solid = Shape::new(1, GridCoord::new(0, 0), Dimensions::default(), "#aa99aa".to_string());
    assert!(!ghost.is_selectable());
    assert!(solid.is_selectable());
    assert!(Shape::new(usize::MAX, GridCoord::new(0, 0), Dimensions::default(), String::new()).is_selectable());
}

#[test]
fn iso_vertices_always_has_seven_points() {
    let dims = [
        Dimensions::new(0, 0, 0),
        Dimensions::new(1, 1, 1),
        Dimensions::new(1, 1, 3),
        Dimensions::new(0, 2, 0),
        Dimensions::new(u32::MAX, u32::MAX, u32::MAX),
    ];
    for d in dims {
        for default_size in [1, 2, 5] {
            let shape = Shape::new(1, GridCoord::new(-4, 9), d, "#FF6B6B".to_string());
            let vertices = shape.iso_vertices(default_size);
            assert_eq!(vertices.to_vec().len(), 7);
            assert_eq!(vertices.as_array().len(), 7);
        }
    }
}

#[test]
fn iso_vertices_of_a_tower() {
    let shape = Shape::new(2, GridCoord::new(20, 0), Dimensions::new(1, 1, 3), "#FF6B6B".to_string());
    let v = shape.iso_vertices(1);
    assert_eq!(v.p1, corner(600, 0, 90));
    assert_eq!(v.p2, corner(630, 0, 90));
    assert_eq!(v.p3, corner(630, 30, 90));
    assert_eq!(v.p4, corner(600, 30, 90));
    assert_eq!(v.p5, corner(630, 0, 0));
    assert_eq!(v.p6, corner(630, 30, 0));
    assert_eq!(v.p7, corner(600, 30, 0));
}

#[test]
fn iso_vertices_with_unequal_extents() {
    let shape = Shape::new(1, GridCoord::new(-2, 3), Dimensions::new(2, 4, 1), String::new());
    let v = shape.iso_vertices(1);
    assert_eq!(
        v.to_vec(),
        vec![
            corner(-60, 90, 30),
            corner(0, 90, 30),
            corner(0, 210, 30),
            corner(-60, 210, 30),
            corner(0, 90, 0),
            corner(0, 210, 0),
            corner(-60, 210, 0),
        ]
    );
}

#[test]
fn iso_vertices_of_zero_dimensions_use_the_default() {
    let flat = Shape::new(1, GridCoord::new(0, 0), Dimensions::new(0, 0, 0), String::new());
    let unit = Shape::new(1, GridCoord::new(0, 0), Dimensions::new(2, 2, 2), String::new());
    assert_eq!(flat.iso_vertices(2), unit.iso_vertices(5));
    assert_eq!(flat.iso_vertices(2).p3, corner(60, 60, 60));
}

#[test]
fn iso_vertices_do_not_overflow() {
    let shape = Shape::new(
        1,
        GridCoord::new(i32::MAX, i32::MIN),
        Dimensions::new(u32::MAX, u32::MAX, u32::MAX),
        String::new(),
    );
    let v = shape.iso_vertices(1);
    assert_eq!(v.p3.x, (i32::MAX as i64 + u32::MAX as i64) * 30);
    assert_eq!(v.p3.y, (i32::MIN as i64 + u32::MAX as i64) * 30);
    assert_eq!(v.p3.z, u32::MAX as i64 * 30);
}

#[test]
fn as_array_and_to_vec_agree() {
    let shape = Shape::new(1, GridCoord::new(3, 4), Dimensions::new(1, 2, 3), String::new());
    let v = shape.iso_vertices(1);
    assert_eq!(v.as_array().to_vec(), v.to_vec());
    assert_eq!(v.as_array(), [v.p1, v.p2, v.p3, v.p4, v.p5, v.p6, v.p7]);
}

#[test]
fn visible_faces_keep_their_winding() {
    let shape = Shape::new(1, GridCoord::new(0, 0), Dimensions::new(1, 2, 3), String::new());
    let v = shape.iso_vertices(1);
    let faces = v.visible_faces();
    assert_eq!(faces.top, vec![v.p1, v.p2, v.p3, v.p4]);
    assert_eq!(faces.right, vec![v.p2, v.p5, v.p6, v.p3]);
    assert_eq!(faces.left, vec![v.p4, v.p3, v.p6, v.p7]);
}

#[test]
fn faces_lie_in_their_planes() {
    let shape = Shape::new(1, GridCoord::new(2, -1), Dimensions::new(3, 2, 4), String::new());
    let faces = shape.iso_vertices(1).visible_faces();
    assert!(faces.top.iter().all(|p| p.z == 120));
    assert!(faces.right.iter().all(|p| p.x == 150));
    assert!(faces.left.iter().all(|p| p.y == 30));
}

#[test]
fn face_brightness_table() {
    assert_eq!(FaceType::Top.brightness(), 0);
    assert_eq!(FaceType::Right.brightness(), -20);
    assert_eq!(FaceType::Left.brightness(), -40);
}

#[test]
fn default_size_for_drawing_is_one() {
    assert_eq!(DEFAULT_SIZE, 1);
}

#[test]
fn tower_is_drawn_as_three_shaded_faces() {
    let shape = Shape::new(2, GridCoord::new(20, 0), Dimensions::new(1, 1, 3), "#FF6B6B".to_string());
    let polygons = shape_polygon(&shape);
    assert_eq!(polygons.len(), 3);
    let (top, right, left) = (&polygons[0], &polygons[1], &polygons[2]);

    assert_eq!(top.face_type, FaceType::Top);
    assert_eq!(right.face_type, FaceType::Right);
    assert_eq!(left.face_type, FaceType::Left);

    assert!(top.fill.eq_ignore_ascii_case("#FF6B6B"));
    assert_eq!(top.fill, "#ff6b6b");
    assert_eq!(right.fill, adjust_brightness("#FF6B6B", -20));
    assert_eq!(right.fill, "#eb5757");
    assert_eq!(left.fill, adjust_brightness("#FF6B6B", -40));
    assert_eq!(left.fill, "#d74343");

    for polygon in &polygons {
        assert_eq!(polygon.stroke, shape.style.stroke_color);
        assert_eq!(polygon.stroke, "#000000");
        assert_eq!(polygon.points.len(), 4);
    }

    let v = shape.iso_vertices(1);
    assert_eq!(top.points, vec![v.p1, v.p2, v.p3, v.p4]);
    assert_eq!(right.points, vec![v.p2, v.p5, v.p6, v.p3]);
    assert_eq!(left.points, vec![v.p4, v.p3, v.p6, v.p7]);
    assert_eq!(top.points[0], corner(600, 0, 90));
}

#[test]
fn polygons_take_the_stroke_of_the_style() {
    let shape = Shape::new(1, GridCoord::new(0, 0), Dimensions::default(), "#AE6B6B".to_string())
        .with_style(ShapeStyle::new("#102030".to_string(), "black".to_string()));
    let polygons = shape_polygon(&shape);
    assert!(polygons.iter().all(|p| p.stroke == "black"));
    assert_eq!(polygons[0].fill, "#102030");
    assert_eq!(polygons[1].fill, "#000c1c");
    assert_eq!(polygons[2].fill, "#000008");
}

#[test]
fn polygons_of_a_flat_shape_use_one_cell() {
    let flat = Shape::new(1, GridCoord::new(1, 1), Dimensions::new(0, 0, 0), "#808080".to_string());
    let unit = Shape::new(1, GridCoord::new(1, 1), Dimensions::new(1, 1, 1), "#808080".to_string());
    assert_eq!(shape_polygon(&flat), shape_polygon(&unit));
}

#[test]
fn polygons_of_a_malformed_colour_are_shades_of_black() {
    let shape = Shape::new(1, GridCoord::new(0, 0), Dimensions::default(), "tomato".to_string());
    let polygons = shape_polygon(&shape);
    assert!(polygons.iter().all(|p| p.fill == "#000000"));
}

#[test]
fn render_order_is_reverse_insertion_order() {
    assert_eq!(render_order(0), Vec::<usize>::new());
    assert_eq!(render_order(1), vec![0]);
    assert_eq!(render_order(3), vec![2, 1, 0]);
    let ids = [3, 2, 1];
    let drawn: Vec<i32> = render_order(ids.len()).into_iter().map(|i| ids[i]).collect();
    assert_eq!(drawn, vec![1, 2, 3]);
}

#[test]
fn pointer_preview_by_state() {
    let cell = GridCoord::new(4, -2);
    assert_eq!(pointer_preview(PointerState::Circle, cell), Preview::Marker);
    assert_eq!(pointer_preview(PointerState::Nothing, cell), Preview::Nothing);
    match pointer_preview(PointerState::Cube, cell) {
        Preview::Cuboid(shape) => {
            assert_eq!(shape.id, 0);
            assert!(!shape.is_selectable());
            assert_eq!(shape.position, cell);
            assert_eq!(shape.dimensions, Dimensions::new(1, 1, 1));
            assert_eq!(shape.style.color, "#aa99aa");
            assert_eq!(shape.style.stroke_color, "black");
        }
        other => panic!("no cuboid: {:?}", other),
    }
}
