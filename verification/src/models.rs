//! Cuboid shapes and what an isometric view shows of them.
//!
//! A [`Shape`] is a box that stands on the ground at a grid cell. Seen from
//! the upper front right, seven of its eight corners can be visible and three
//! of its six faces: the top, the right side and the left side. This module
//! finds those corners and faces on the world lattice and gives each face its
//! shade. Projecting the corners onto the drawing plane is left to the
//! renderer.

use crate::color::{
    adjust_brightness, blue, color_number, green, lemma_adjust_brightness_channels, red,
    spec_adjust_brightness,
};
use crate::frames::{grid_to_cart, CartCoord, GridCoord, GRID_SIZE};
use vstd::prelude::*;

verus! {

/// The size of a cuboid in cells: `width` along `x`, `height` along `y`,
/// `depth` upward.
#[derive(Debug, Clone, Copy, PartialEq, Eq, Structural)]
pub struct Dimensions {
    pub width: u32,
    pub height: u32,
    pub depth: u32,
}

impl Dimensions {
    pub fn new(width: u32, height: u32, depth: u32) -> (dimensions: Self)
        ensures
            dimensions.width == width,
            dimensions.height == height,
            dimensions.depth == depth,
    {
        Self { width, height, depth }
    }

    /// These dimensions with `default_size` in place of every axis that is
    /// zero.
    pub open spec fn spec_with_default(self, default_size: u32) -> Self {
        Dimensions {
            width: if self.width > 0 {
                self.width
            } else {
                default_size
            },
            height: if self.height > 0 {
                self.height
            } else {
                default_size
            },
            depth: if self.depth > 0 {
                self.depth
            } else {
                default_size
            },
        }
    }

    /// Replaces every axis that is zero by `default_size`, so that a shape
    /// without extent along an axis is drawn with the default extent, not flat.
    pub fn with_default(self, default_size: u32) -> (dimensions: Self)
        ensures
            dimensions == self.spec_with_default(default_size),
    {
        Self {
            width: if self.width > 0 {
                self.width
            } else {
                default_size
            },
            height: if self.height > 0 {
                self.height
            } else {
                default_size
            },
            depth: if self.depth > 0 {
                self.depth
            } else {
                default_size
            },
        }
    }
}

impl Default for Dimensions {
    /// One cell along every axis.
    fn default() -> (dimensions: Self)
        ensures
            dimensions == (Dimensions { width: 1, height: 1, depth: 1 }),
    {
        Self { width: 1, height: 1, depth: 1 }
    }
}

/// With a default that is not zero, no axis is zero afterwards, and an axis
/// that was not zero keeps its extent.
pub proof fn lemma_with_default_has_volume(dimensions: Dimensions, default_size: u32)
    requires
        default_size > 0,
    ensures
        dimensions.spec_with_default(default_size).width > 0,
        dimensions.spec_with_default(default_size).height > 0,
        dimensions.spec_with_default(default_size).depth > 0,
        dimensions.width > 0 && dimensions.height > 0 && dimensions.depth > 0
            ==> dimensions.spec_with_default(default_size) == dimensions,
{
}

/// The colours of a shape: `color` fills its faces, `stroke_color` draws its
/// edges. How wide and how opaque the edges are is the renderer's own.
#[derive(Debug, Clone, PartialEq, Eq)]
pub struct ShapeStyle {
    pub color: String,
    pub stroke_color: String,
}

impl ShapeStyle {
    pub fn new(color: String, stroke_color: String) -> (style: Self)
        ensures
            style.color == color,
            style.stroke_color == stroke_color,
    {
        Self { color, stroke_color }
    }
}

impl Default for ShapeStyle {
    /// Grey faces with black edges.
    fn default() -> (style: Self)
        ensures
            style.color@ == "#808080"@,
            style.stroke_color@ == "#000000"@,
    {
        Self { color: "#808080".to_owned(), stroke_color: "#000000".to_owned() }
    }
}

/// A cuboid that stands on the ground with its lowest corner at the cell
/// `position`. The identifier `0` is kept for shapes that cannot be selected,
/// such as a preview that follows the pointer.
#[derive(Debug, Clone, PartialEq, Eq)]
pub struct Shape {
    pub id: usize,
    pub position: GridCoord,
    pub dimensions: Dimensions,
    pub style: ShapeStyle,
}

/// The seven corners of a cuboid that the view can show, on the world lattice.
/// `p1` to `p4` go round the top face, starting above the cuboid's origin and
/// going along `x` first. `p5`, `p6` and `p7` lie on the ground below `p2`,
/// `p3` and `p4`. The corner below `p1` is hidden and left out.
#[derive(Debug, Clone, Copy, PartialEq, Eq, Structural)]
pub struct ShapeVertices {
    pub p1: CartCoord,
    pub p2: CartCoord,
    pub p3: CartCoord,
    pub p4: CartCoord,
    pub p5: CartCoord,
    pub p6: CartCoord,
    pub p7: CartCoord,
}

/// The three faces of a cuboid that the view can show.
#[derive(Debug, Clone, Copy, PartialEq, Eq, Hash, Structural)]
pub enum FaceType {
    Top,
    Right,
    Left,
}

/// The visible faces of a cuboid, each as its four corners in drawing order.
#[derive(Debug, Clone, PartialEq, Eq)]
pub struct ShapeFaces {
    pub top: Vec<CartCoord>,
    pub right: Vec<CartCoord>,
    pub left: Vec<CartCoord>,
}

/// The visible corners of the cuboid that stands at `position` with the
/// extents `dimensions`, none of them replaced.
pub open spec fn cuboid_vertices(position: GridCoord, dimensions: Dimensions) -> ShapeVertices {
    let origin = grid_to_cart(position);
    let x = origin.x as int;
    let y = origin.y as int;
    let z = origin.z as int;
    let far_x = x + dimensions.width * GRID_SIZE;
    let far_y = y + dimensions.height * GRID_SIZE;
    let top = z + dimensions.depth * GRID_SIZE;
    ShapeVertices {
        p1: CartCoord { x: x as i64, y: y as i64, z: top as i64 },
        p2: CartCoord { x: far_x as i64, y: y as i64, z: top as i64 },
        p3: CartCoord { x: far_x as i64, y: far_y as i64, z: top as i64 },
        p4: CartCoord { x: x as i64, y: far_y as i64, z: top as i64 },
        p5: CartCoord { x: far_x as i64, y: y as i64, z: z as i64 },
        p6: CartCoord { x: far_x as i64, y: far_y as i64, z: z as i64 },
        p7: CartCoord { x: x as i64, y: far_y as i64, z: z as i64 },
    }
}

impl Shape {
    /// A shape in the given fill colour, with black edges.
    pub fn new(id: usize, position: GridCoord, dimensions: Dimensions, color: String) -> (shape:
        Self)
        ensures
            shape.id == id,
            shape.position == position,
            shape.dimensions == dimensions,
            shape.style.color == color,
            shape.style.stroke_color@ == "#000000"@,
    {
        let defaults = ShapeStyle::default();
        Self { id, position, dimensions, style: ShapeStyle { color, ..defaults } }
    }

    /// This shape in other colours.
    pub fn with_style(self, style: ShapeStyle) -> (shape: Self)
        ensures
            shape.id == self.id,
            shape.position == self.position,
            shape.dimensions == self.dimensions,
            shape.style == style,
    {
        let mut shape = self;
        shape.style = style;
        shape
    }

    /// Whether the shape takes part in selection: every shape does but those
    /// with the identifier `0`.
    pub fn is_selectable(&self) -> (selectable: bool)
        ensures
            selectable == (self.id != 0),
    {
        self.id != 0
    }

    /// The seven visible corners of the shape, with `default_size` cells in
    /// place of every extent that is zero.
    pub fn iso_vertices(&self, default_size: u32) -> (vertices: ShapeVertices)
        ensures
            vertices == cuboid_vertices(
                self.position,
                self.dimensions.spec_with_default(default_size),
            ),
            vertices@.len() == 7,
    {
        let dims = self.dimensions.with_default(default_size);
        let cart: CartCoord = CartCoord::from(self.position);
        let x = cart.x;
        let y = cart.y;
        let z = cart.z;
        let far_x = x + dims.width as i64 * GRID_SIZE;
        let far_y = y + dims.height as i64 * GRID_SIZE;
        let top = z + dims.depth as i64 * GRID_SIZE;
        ShapeVertices {
            p1: CartCoord::new(x, y, top),
            p2: CartCoord::new(far_x, y, top),
            p3: CartCoord::new(far_x, far_y, top),
            p4: CartCoord::new(x, far_y, top),
            p5: CartCoord::new(far_x, y, z),
            p6: CartCoord::new(far_x, far_y, z),
            p7: CartCoord::new(x, far_y, z),
        }
    }
}

impl ShapeVertices {
    /// The corners in order, `p1` first.
    pub open spec fn view(&self) -> Seq<CartCoord> {
        seq![self.p1, self.p2, self.p3, self.p4, self.p5, self.p6, self.p7]
    }

    /// The corners in order, `p1` first.
    pub fn as_array(&self) -> (corners: [CartCoord; 7])
        ensures
            corners@ == self@,
    {
        [self.p1, self.p2, self.p3, self.p4, self.p5, self.p6, self.p7]
    }

    /// The corners in order, `p1` first.
    pub fn to_vec(&self) -> (corners: Vec<CartCoord>)
        ensures
            corners@ == self@,
            corners@.len() == 7,
    {
        vec![self.p1, self.p2, self.p3, self.p4, self.p5, self.p6, self.p7]
    }

    /// The corners of one face, in the order in which its outline is drawn.
    pub open spec fn face(&self, face_type: FaceType) -> Seq<CartCoord> {
        match face_type {
            FaceType::Top => seq![self.p1, self.p2, self.p3, self.p4],
            FaceType::Right => seq![self.p2, self.p5, self.p6, self.p3],
            FaceType::Left => seq![self.p4, self.p3, self.p6, self.p7],
        }
    }

    /// The three visible faces.
    pub fn visible_faces(&self) -> (faces: ShapeFaces)
        ensures
            faces.top@ == self.face(FaceType::Top),
            faces.right@ == self.face(FaceType::Right),
            faces.left@ == self.face(FaceType::Left),
    {
        ShapeFaces {
            top: vec![self.p1, self.p2, self.p3, self.p4],
            right: vec![self.p2, self.p5, self.p6, self.p3],
            left: vec![self.p4, self.p3, self.p6, self.p7],
        }
    }
}

impl FaceType {
    /// How much a face is brightened: the top is drawn in the shape's own
    /// colour, the right side darker, the left side darker still, as if lit
    /// from above and from the right.
    pub open spec fn spec_brightness(self) -> int {
        match self {
            FaceType::Top => 0,
            FaceType::Right => -20,
            FaceType::Left => -40,
        }
    }

    /// How much a face is brightened.
    pub fn brightness(self) -> (delta: i32)
        ensures
            delta == self.spec_brightness(),
    {
        match self {
            FaceType::Top => 0,
            FaceType::Right => -20,
            FaceType::Left => -40,
        }
    }
}

/// The extent that stands in for an extent of zero when a shape is drawn.
pub const DEFAULT_SIZE: u32 = 1;

/// One face of a shape, ready to be drawn: its corners on the world lattice
/// in drawing order, the colour that fills it and the colour of its edges.
#[derive(Debug, Clone, PartialEq, Eq)]
pub struct FacePolygon {
    pub face_type: FaceType,
    pub points: Vec<CartCoord>,
    pub fill: String,
    pub stroke: String,
}

/// The faces in the order in which they are drawn.
pub open spec fn face_order() -> Seq<FaceType> {
    seq![FaceType::Top, FaceType::Right, FaceType::Left]
}

/// Whether `polygon` is the face `face_type` of `shape` as it is drawn: the
/// face's corners, the shape's fill colour shaded for that face, and the
/// shape's stroke colour.
pub open spec fn is_face_of(polygon: FacePolygon, shape: Shape, face_type: FaceType) -> bool {
    &&& polygon.face_type == face_type
    &&& polygon.points@ == cuboid_vertices(
        shape.position,
        shape.dimensions.spec_with_default(DEFAULT_SIZE),
    ).face(face_type)
    &&& polygon.fill@ == spec_adjust_brightness(shape.style.color@, face_type.spec_brightness())
    &&& polygon.stroke@ == shape.style.stroke_color@
}

/// One face of `shape`, shaded.
fn face_polygon(shape: &Shape, face_type: FaceType, points: Vec<CartCoord>) -> (polygon:
    FacePolygon)
    ensures
        polygon.face_type == face_type,
        polygon.points == points,
        polygon.fill@ == spec_adjust_brightness(shape.style.color@, face_type.spec_brightness()),
        polygon.stroke@ == shape.style.stroke_color@,
{
    FacePolygon {
        face_type,
        points,
        fill: adjust_brightness(shape.style.color.as_str(), face_type.brightness()),
        stroke: shape.style.stroke_color.clone(),
    }
}

/// The three visible faces of a shape as they are drawn: top, right, left,
/// each with its shade of the shape's colour and all with the shape's stroke
/// colour.
pub fn shape_polygon(shape: &Shape) -> (polygons: Vec<FacePolygon>)
    ensures
        polygons@.len() == 3,
        forall|i: int| 0 <= i < 3 ==> is_face_of(#[trigger] polygons@[i], *shape, face_order()[i]),
{
    let faces = shape.iso_vertices(DEFAULT_SIZE).visible_faces();
    let top = face_polygon(shape, FaceType::Top, faces.top);
    let right = face_polygon(shape, FaceType::Right, faces.right);
    let left = face_polygon(shape, FaceType::Left, faces.left);
    vec![top, right, left]
}

/// The order in which a list of shapes is drawn: the last one first, so that
/// a shape put in earlier is painted over those put in after it. `order[i]` is
/// the place in the list of the shape drawn as number `i`.
pub open spec fn spec_render_order(count: nat) -> Seq<usize> {
    Seq::new(count, |i: int| (count - 1 - i) as usize)
}

/// The order in which `count` shapes are drawn, as places in their list.
pub fn render_order(count: usize) -> (order: Vec<usize>)
    ensures
        order@ == spec_render_order(count as nat),
{
    let mut order: Vec<usize> = Vec::new();
    let mut left: usize = count;
    while left > 0
        invariant
            left <= count,
            order@.len() == count - left,
            forall|i: int| 0 <= i < order@.len() ==> order@[i] == count - 1 - i,
        decreases left,
    {
        left = left - 1;
        order.push(left);
    }
    order
}

/// What follows the pointer over the canvas.
#[derive(Debug, Clone, Copy, PartialEq, Eq, Structural)]
pub enum PointerState {
    /// A round marker at the pointer.
    Circle,
    /// A preview of a cuboid on the cell under the pointer.
    Cube,
    /// Nothing.
    Nothing,
}

/// What is drawn at the pointer.
#[derive(Debug, Clone, PartialEq, Eq)]
pub enum Preview {
    /// A round marker at the pointer's own position.
    Marker,
    /// This shape, which stands on the cell under the pointer.
    Cuboid(Shape),
    /// Nothing.
    Nothing,
}

/// Whether `shape` is the preview cuboid on `cell`: one cell along every
/// axis, in a muted colour with black edges, and with the identifier `0`, so
/// that it cannot be selected.
pub open spec fn is_preview_on(shape: Shape, cell: GridCoord) -> bool {
    &&& shape.id == 0
    &&& shape.position == cell
    &&& shape.dimensions == (Dimensions { width: 1, height: 1, depth: 1 })
    &&& shape.style.color@ == "#aa99aa"@
    &&& shape.style.stroke_color@ == "black"@
}

/// What is drawn at the pointer in the given state, when the pointer is over
/// `cell`.
pub fn pointer_preview(state: PointerState, cell: GridCoord) -> (preview: Preview)
    ensures
        state == PointerState::Circle ==> preview == Preview::Marker,
        state == PointerState::Nothing ==> preview == Preview::Nothing,
        state == PointerState::Cube ==> (preview matches Preview::Cuboid(shape) && is_preview_on(
            shape,
            cell,
        )),
{
    match state {
        PointerState::Circle => Preview::Marker,
        PointerState::Cube => Preview::Cuboid(
            Shape::new(0, cell, Dimensions::new(1, 1, 1), "#aa99aa".to_owned()).with_style(
                ShapeStyle::new("#aa99aa".to_owned(), "black".to_owned()),
            ),
        ),
        PointerState::Nothing => Preview::Nothing,
    }
}

/// A cuboid shows seven corners, whatever its extents are, those of zero
/// included.
pub proof fn lemma_seven_vertices(position: GridCoord, dimensions: Dimensions, default_size: u32)
    ensures
        cuboid_vertices(position, dimensions)@.len() == 7,
        cuboid_vertices(position, dimensions.spec_with_default(default_size))@.len() == 7,
        forall|face_type: FaceType|
            (#[trigger] cuboid_vertices(position, dimensions).face(face_type)).len() == 4,
{
}

/// The faces darken in drawing order: per channel the right side is no
/// brighter than the top, and the left side no brighter than the right.
pub proof fn lemma_faces_darken_in_order(hex: Seq<char>)
    ensures
        ({
            let top = color_number(spec_adjust_brightness(hex, FaceType::Top.spec_brightness()));
            let right = color_number(
                spec_adjust_brightness(hex, FaceType::Right.spec_brightness()),
            );
            let left = color_number(spec_adjust_brightness(hex, FaceType::Left.spec_brightness()));
            &&& red(left) <= red(right) <= red(top) == red(color_number(hex))
            &&& green(left) <= green(right) <= green(top) == green(color_number(hex))
            &&& blue(left) <= blue(right) <= blue(top) == blue(color_number(hex))
        }),
{
    lemma_adjust_brightness_channels(hex, 0);
    lemma_adjust_brightness_channels(hex, -20);
    lemma_adjust_brightness_channels(hex, -40);
}

/// The top face lies flat at the height of the cuboid, the right face lies in
/// the plane of its far `x` and the left face in the plane of its far `y`.
/// The sides reach from the top down to the ground.
pub proof fn lemma_faces_lie_in_planes(position: GridCoord, dimensions: Dimensions)
    ensures
        ({
            let v = cuboid_vertices(position, dimensions);
            let origin = grid_to_cart(position);
            &&& forall|i: int|
                0 <= i < 4 ==> (#[trigger] v.face(FaceType::Top)[i]).z == origin.z
                    + dimensions.depth * GRID_SIZE
            &&& forall|i: int|
                0 <= i < 4 ==> (#[trigger] v.face(FaceType::Right)[i]).x == origin.x
                    + dimensions.width * GRID_SIZE
            &&& forall|i: int|
                0 <= i < 4 ==> (#[trigger] v.face(FaceType::Left)[i]).y == origin.y
                    + dimensions.height * GRID_SIZE
            &&& v.p5.z == origin.z && v.p6.z == origin.z && v.p7.z == origin.z
            &&& v.p1.x == origin.x && v.p1.y == origin.y
        }),
{
}

/// Neighbouring faces meet in an edge: top and right share `p2` and `p3`, top
/// and left share `p3` and `p4`, right and left share `p3` and `p6`.
pub proof fn lemma_faces_share_edges(v: ShapeVertices)
    ensures
        v.face(FaceType::Top)[1] == v.face(FaceType::Right)[0],
        v.face(FaceType::Top)[2] == v.face(FaceType::Right)[3],
        v.face(FaceType::Top)[3] == v.face(FaceType::Left)[0],
        v.face(FaceType::Top)[2] == v.face(FaceType::Left)[1],
        v.face(FaceType::Right)[2] == v.face(FaceType::Left)[2],
        v.face(FaceType::Right)[3] == v.face(FaceType::Left)[1],
{
}

} // verus!
