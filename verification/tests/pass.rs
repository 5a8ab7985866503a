//! The pass on an integer grid: transforms are translations, boxes are
//! rectangles with integer corners.

use render_tree::{
    convert_node, Accumulator, AspectRatio, Backend, BlendMode, CompositeOp, Diagnostic, Group,
    Leaf, Node, Resolvers, SceneGroup, SceneNode, SceneTree, Tree, ViewBox,
};

type Shift = (i64, i64);

#[derive(Clone, Copy, Debug, PartialEq, Eq)]
struct Rect {
    x: i64,
    y: i64,
    w: i64,
    h: i64,
}

const NO_CONTENT: Rect = Rect { x: i64::MAX, y: i64::MAX, w: 1, h: 1 };
const UNIT: Rect = Rect { x: 0, y: 0, w: 1, h: 1 };

fn rect(x: i64, y: i64, w: i64, h: i64) -> Rect {
    Rect { x, y, w, h }
}

fn shifted(r: Rect, by: Shift) -> Rect {
    rect(r.x + by.0, r.y + by.1, r.w, r.h)
}

fn inflated(r: Rect, by: i64) -> Rect {
    rect(r.x - by, r.y - by, r.w + 2 * by, r.h + 2 * by)
}

#[derive(Clone, Debug, PartialEq, Eq)]
struct Shape {
    id: u32,
    rect: Rect,
    fill: bool,
    stroke_width: Option<i64>,
}

#[derive(Clone, Debug, PartialEq, Eq)]
struct Picture {
    id: u32,
    rect: Rect,
}

#[derive(Clone, Copy, Debug, PartialEq, Eq)]
enum FilterKind {
    /// Widens the layer box on every side.
    Blur(i64),
    /// Paints a rectangle, with or without content beneath.
    Flood(Rect),
    /// Cannot be rendered.
    Broken,
}

#[derive(Clone, Debug, PartialEq, Eq)]
struct Painted {
    id: u32,
    rect: Rect,
}

#[derive(Clone, Debug, PartialEq, Eq)]
struct Resolved {
    id: u32,
    object: Rect,
    shift: Shift,
}

#[derive(Clone, Debug, PartialEq, Eq)]
struct Paint {
    id: u32,
    opacity: u8,
    region: Rect,
}

struct Grid;

impl Backend for Grid {
    type Transform = Shift;
    type Bbox = Rect;
    type Rect = Rect;
    type Size = (i64, i64);
    type Opacity = u8;
    type Shape = Shape;
    type Picture = Picture;
    type ClipRef = u32;
    type MaskRef = u32;
    type FilterRef = FilterKind;
    type PaintRef = u32;
    type FillPath = Painted;
    type StrokePath = Painted;
    type Image = Painted;
    type ClipPath = Resolved;
    type Mask = Resolved;
    type Filter = (FilterKind, Shift);
    type Paint = Paint;
}

fn compose(inherited: Shift, local: Shift) -> Shift {
    (inherited.0 + local.0, inherited.1 + local.1)
}

fn union(a: Rect, b: Rect) -> Rect {
    if a == NO_CONTENT {
        return b;
    }
    if b == NO_CONTENT {
        return a;
    }
    let x = a.x.min(b.x);
    let y = a.y.min(b.y);
    let right = (a.x + a.w).max(b.x + b.w);
    let bottom = (a.y + a.h).max(b.y + b.h);
    rect(x, y, right - x, bottom - y)
}

fn has_content(a: Rect) -> bool {
    a != NO_CONTENT
}

fn size_of(a: Rect) -> (i64, i64) {
    (a.w, a.h)
}

fn convert_shape(shape: &Shape, shift: Shift) -> Leaf<Grid> {
    let object = shifted(shape.rect, shift);
    let mut nodes = Vec::new();
    let mut layer = NO_CONTENT;
    if shape.fill {
        nodes.push(Node::FillPath(Painted { id: shape.id, rect: object }));
        layer = union(layer, object);
    }
    if let Some(width) = shape.stroke_width {
        let outline = inflated(object, width / 2);
        nodes.push(Node::StrokePath(Painted { id: shape.id, rect: outline }));
        layer = union(layer, outline);
    }
    if nodes.is_empty() {
        return Leaf { nodes, bboxes: None };
    }
    Leaf { nodes, bboxes: Some((layer, object)) }
}

fn convert_image(picture: &Picture, shift: Shift) -> Leaf<Grid> {
    let placed = shifted(picture.rect, shift);
    Leaf {
        nodes: vec![Node::Image(Painted { id: picture.id, rect: placed })],
        bboxes: Some((placed, placed)),
    }
}

fn resolve_filters(
    chain: &Vec<FilterKind>,
    layer: Option<Rect>,
    _object: Option<Rect>,
    shift: Shift,
) -> (Vec<(FilterKind, Shift)>, Option<Rect>) {
    let mut region = layer;
    let mut resolved = Vec::new();
    for kind in chain {
        match *kind {
            FilterKind::Blur(by) => region = region.map(|r| inflated(r, by)),
            FilterKind::Flood(area) => region = Some(shifted(area, shift)),
            FilterKind::Broken => return (Vec::new(), None),
        }
        resolved.push((*kind, shift));
    }
    (resolved, region)
}

fn resolve_paint(paint: &u32, opacity: u8, region: Rect) -> Option<Paint> {
    Some(Paint { id: *paint, opacity, region })
}

fn resolve_clip(clip: &u32, object: Rect, shift: Shift) -> Option<Resolved> {
    Some(Resolved { id: *clip, object, shift })
}

fn resolve_mask(mask: &u32, object: Rect, shift: Shift) -> Option<Resolved> {
    if *mask == 0 {
        return None;
    }
    Some(Resolved { id: *mask, object, shift })
}

type GridResolvers = Resolvers<
    Grid,
    fn(Shift, Shift) -> Shift,
    fn(Rect, Rect) -> Rect,
    fn(Rect) -> bool,
    fn(Rect) -> (i64, i64),
    fn(&Shape, Shift) -> Leaf<Grid>,
    fn(&Picture, Shift) -> Leaf<Grid>,
    fn(&Vec<FilterKind>, Option<Rect>, Option<Rect>, Shift) -> (Vec<(FilterKind, Shift)>, Option<Rect>),
    fn(&u32, u8, Rect) -> Option<Paint>,
    fn(&u32, Rect, Shift) -> Option<Resolved>,
    fn(&u32, Rect, Shift) -> Option<Resolved>,
>;

fn grid() -> GridResolvers {
    Resolvers {
        identity: (0, 0),
        no_content: NO_CONTENT,
        unit_square: UNIT,
        full_opacity: 255,
        compose,
        union,
        has_content,
        size_of,
        convert_shape,
        convert_image,
        resolve_filters,
        resolve_paint,
        resolve_clip,
        resolve_mask,
    }
}

fn filled(id: u32, area: Rect) -> SceneNode<Grid> {
    SceneNode::Shape(Shape { id, rect: area, fill: true, stroke_width: None })
}

fn plain_group(children: Vec<SceneNode<Grid>>) -> SceneGroup<Grid> {
    SceneGroup {
        transform: (0, 0),
        opacity: 255,
        blend_mode: BlendMode::Normal,
        isolate: false,
        clip_path: None,
        mask: None,
        filters: Vec::new(),
        filter_fill: None,
        filter_stroke: None,
        children,
    }
}

fn describe(node: &Node<Grid>) -> String {
    match node {
        Node::Group(group) => {
            let children: Vec<String> = group.children.iter().map(describe).collect();
            format!(
                "group(opacity={} blend={:?} clip={:?} mask={:?} filters={:?} fill={:?} stroke={:?} bbox={:?} [{}])",
                group.opacity,
                group.blend_mode,
                group.clip_path,
                group.mask,
                group.filters,
                group.filter_fill,
                group.filter_stroke,
                group.bbox,
                children.join(", ")
            )
        }
        Node::FillPath(path) => format!("fill({} {:?})", path.id, path.rect),
        Node::StrokePath(path) => format!("stroke({} {:?})", path.id, path.rect),
        Node::Image(image) => format!("image({} {:?})", image.id, image.rect),
    }
}

fn describe_all(nodes: &[Node<Grid>]) -> Vec<String> {
    nodes.iter().map(describe).collect()
}

fn only_group(nodes: &[Node<Grid>]) -> &Group<Grid> {
    assert_eq!(nodes.len(), 1);
    match &nodes[0] {
        Node::Group(group) => group,
        other => panic!("expected a group, found {}", describe(other)),
    }
}

#[test]
fn shape_is_placed_under_the_inherited_transform() {
    let mut sink = Vec::new();
    let (nodes, layer) = convert_node(&filled(1, rect(0, 0, 10, 10)), (5, 7), &grid(), &mut sink);
    assert_eq!(describe_all(&nodes), vec!["fill(1 Rect { x: 5, y: 7, w: 10, h: 10 })"]);
    assert_eq!(layer, Some(rect(5, 7, 10, 10)));
    assert!(sink.is_empty());
}

#[test]
fn shape_with_fill_and_stroke_gives_two_nodes() {
    let shape =
        SceneNode::Shape(Shape { id: 3, rect: rect(0, 0, 10, 10), fill: true, stroke_width: Some(2) });
    let mut sink = Vec::new();
    let (nodes, layer) = convert_node(&shape, (0, 0), &grid(), &mut sink);
    assert_eq!(
        describe_all(&nodes),
        vec![
            "fill(3 Rect { x: 0, y: 0, w: 10, h: 10 })",
            "stroke(3 Rect { x: -1, y: -1, w: 12, h: 12 })",
        ]
    );
    assert_eq!(layer, Some(rect(-1, -1, 12, 12)));
}

#[test]
fn shape_without_paint_gives_nothing() {
    let shape =
        SceneNode::Shape(Shape { id: 3, rect: rect(0, 0, 10, 10), fill: false, stroke_width: None });
    let mut sink = Vec::new();
    let (nodes, layer) = convert_node(&shape, (0, 0), &grid(), &mut sink);
    assert!(nodes.is_empty());
    assert_eq!(layer, None);
}

#[test]
fn image_is_placed_under_the_inherited_transform() {
    let image = SceneNode::Image(Picture { id: 9, rect: rect(1, 2, 3, 4) });
    let mut sink = Vec::new();
    let (nodes, layer) = convert_node(&image, (10, 20), &grid(), &mut sink);
    assert_eq!(describe_all(&nodes), vec!["image(9 Rect { x: 11, y: 22, w: 3, h: 4 })"]);
    assert_eq!(layer, Some(rect(11, 22, 3, 4)));
}

#[test]
fn text_is_skipped_with_a_diagnostic() {
    let mut sink = Vec::new();
    let (nodes, layer) = convert_node(&SceneNode::<Grid>::Text, (0, 0), &grid(), &mut sink);
    assert!(nodes.is_empty());
    assert_eq!(layer, None);
    assert_eq!(sink, vec![Diagnostic::TextSkipped]);
}

#[test]
fn text_between_shapes_leaves_the_shapes_in_order() {
    let group = plain_group(vec![
        filled(1, rect(0, 0, 10, 10)),
        SceneNode::Text,
        filled(2, rect(20, 0, 10, 10)),
    ]);
    let mut sink = vec![Diagnostic::ZeroSizedNode];
    let (nodes, layer) = convert_node(&SceneNode::Group(group), (0, 0), &grid(), &mut sink);
    assert_eq!(
        describe_all(&nodes),
        vec![
            "fill(1 Rect { x: 0, y: 0, w: 10, h: 10 })",
            "fill(2 Rect { x: 20, y: 0, w: 10, h: 10 })",
        ]
    );
    assert_eq!(layer, Some(rect(0, 0, 30, 10)));
    assert_eq!(sink, vec![Diagnostic::ZeroSizedNode, Diagnostic::TextSkipped]);
}

#[test]
fn text_inside_an_isolated_group_is_skipped_too() {
    let mut group = plain_group(vec![
        filled(1, rect(0, 0, 10, 10)),
        SceneNode::Text,
        filled(2, rect(20, 0, 10, 10)),
    ]);
    group.isolate = true;
    let mut sink = Vec::new();
    let (nodes, _) = convert_node(&SceneNode::Group(group), (0, 0), &grid(), &mut sink);
    let layer = only_group(&nodes);
    assert_eq!(
        describe_all(&layer.children),
        vec![
            "fill(1 Rect { x: 0, y: 0, w: 10, h: 10 })",
            "fill(2 Rect { x: 20, y: 0, w: 10, h: 10 })",
        ]
    );
    assert_eq!(sink, vec![Diagnostic::TextSkipped]);
}

#[test]
fn plain_group_is_flattened() {
    let inner = plain_group(vec![filled(2, rect(0, 0, 1, 1)), filled(3, rect(1, 0, 1, 1))]);
    let outer = plain_group(vec![
        filled(1, rect(5, 5, 1, 1)),
        SceneNode::Group(inner),
        filled(4, rect(9, 9, 1, 1)),
    ]);
    assert!(!outer.should_isolate());
    let mut sink = Vec::new();
    let (nodes, layer) = convert_node(&SceneNode::Group(outer), (0, 0), &grid(), &mut sink);
    assert_eq!(
        describe_all(&nodes),
        vec![
            "fill(1 Rect { x: 5, y: 5, w: 1, h: 1 })",
            "fill(2 Rect { x: 0, y: 0, w: 1, h: 1 })",
            "fill(3 Rect { x: 1, y: 0, w: 1, h: 1 })",
            "fill(4 Rect { x: 9, y: 9, w: 1, h: 1 })",
        ]
    );
    assert_eq!(layer, Some(rect(0, 0, 10, 10)));
}

#[test]
fn flattened_group_passes_its_transform_down() {
    let mut inner = plain_group(vec![filled(1, rect(0, 0, 2, 2))]);
    inner.transform = (100, 0);
    let mut outer = plain_group(vec![SceneNode::Group(inner), filled(2, rect(0, 0, 2, 2))]);
    outer.transform = (0, 10);
    let mut sink = Vec::new();
    let (nodes, layer) = convert_node(&SceneNode::Group(outer), (1, 1), &grid(), &mut sink);
    assert_eq!(
        describe_all(&nodes),
        vec![
            "fill(1 Rect { x: 101, y: 11, w: 2, h: 2 })",
            "fill(2 Rect { x: 1, y: 11, w: 2, h: 2 })",
        ]
    );
    assert_eq!(layer, Some(rect(1, 11, 102, 2)));
}

#[test]
fn flattened_group_without_content_gives_nothing() {
    let group = plain_group(Vec::new());
    let mut sink = Vec::new();
    let (nodes, layer) = convert_node(&SceneNode::Group(group), (0, 0), &grid(), &mut sink);
    assert!(nodes.is_empty());
    assert_eq!(layer, None);
}

#[test]
fn should_isolate_names_each_reason() {
    assert!(!plain_group(Vec::new()).should_isolate());

    let mut group = plain_group(Vec::new());
    group.isolate = true;
    assert!(group.should_isolate());

    let mut group = plain_group(Vec::new());
    group.clip_path = Some(1);
    assert!(group.should_isolate());

    let mut group = plain_group(Vec::new());
    group.mask = Some(1);
    assert!(group.should_isolate());

    let mut group = plain_group(Vec::new());
    group.filters = vec![FilterKind::Blur(1)];
    assert!(group.should_isolate());

    let mut group = plain_group(Vec::new());
    group.blend_mode = BlendMode::Multiply;
    assert!(group.should_isolate());

    let mut group = plain_group(Vec::new());
    group.filter_fill = Some(1);
    group.filter_stroke = Some(2);
    group.opacity = 10;
    assert!(!group.should_isolate());
}

#[test]
fn isolated_group_becomes_a_layer() {
    let mut group = plain_group(vec![filled(1, rect(0, 0, 10, 10)), filled(2, rect(5, 5, 10, 10))]);
    group.isolate = true;
    group.opacity = 128;
    group.blend_mode = BlendMode::Screen;
    group.transform = (1, 2);
    let mut sink = Vec::new();
    let (nodes, layer_bbox) = convert_node(&SceneNode::Group(group), (10, 20), &grid(), &mut sink);
    let layer = only_group(&nodes);
    assert_eq!(layer.opacity, 128);
    assert_eq!(layer.blend_mode, CompositeOp::Screen);
    assert_eq!(layer.clip_path, None);
    assert_eq!(layer.mask, None);
    assert!(layer.filters.is_empty());
    assert_eq!(layer.filter_fill, None);
    assert_eq!(layer.filter_stroke, None);
    assert_eq!(layer.bbox, rect(11, 22, 15, 15));
    assert_eq!(
        describe_all(&layer.children),
        vec![
            "fill(1 Rect { x: 11, y: 22, w: 10, h: 10 })",
            "fill(2 Rect { x: 16, y: 27, w: 10, h: 10 })",
        ]
    );
    assert_eq!(layer_bbox, Some(rect(11, 22, 15, 15)));
}

#[test]
fn isolated_group_without_content_or_filters_is_dropped() {
    let mut group = plain_group(vec![SceneNode::Text]);
    group.isolate = true;
    let mut sink = Vec::new();
    let (nodes, layer) = convert_node(&SceneNode::Group(group), (0, 0), &grid(), &mut sink);
    assert!(nodes.is_empty());
    assert_eq!(layer, None);
    assert_eq!(sink, vec![Diagnostic::TextSkipped]);
}

#[test]
fn clip_and_mask_are_resolved_against_the_object_box() {
    let stroked =
        SceneNode::Shape(Shape { id: 1, rect: rect(0, 0, 10, 10), fill: true, stroke_width: Some(4) });
    let mut group = plain_group(vec![stroked]);
    group.clip_path = Some(7);
    group.mask = Some(8);
    group.transform = (3, 0);
    let mut sink = Vec::new();
    let (nodes, layer_bbox) = convert_node(&SceneNode::Group(group), (0, 4), &grid(), &mut sink);
    let layer = only_group(&nodes);
    assert_eq!(layer.clip_path, Some(Resolved { id: 7, object: rect(3, 4, 10, 10), shift: (3, 4) }));
    assert_eq!(layer.mask, Some(Resolved { id: 8, object: rect(3, 4, 10, 10), shift: (3, 4) }));
    assert_eq!(layer.bbox, rect(1, 2, 14, 14));
    assert_eq!(layer_bbox, Some(rect(1, 2, 14, 14)));
}

#[test]
fn mask_that_does_not_resolve_is_left_out() {
    let mut group = plain_group(vec![filled(1, rect(0, 0, 10, 10))]);
    group.mask = Some(0);
    let mut sink = Vec::new();
    let (nodes, _) = convert_node(&SceneNode::Group(group), (0, 0), &grid(), &mut sink);
    let layer = only_group(&nodes);
    assert_eq!(layer.mask, None);
    assert_eq!(layer.children.len(), 1);
}

#[test]
fn filtered_group_with_one_child_is_a_layer() {
    let mut group = plain_group(vec![filled(1, rect(0, 0, 10, 10))]);
    group.filters = vec![FilterKind::Blur(3)];
    let mut sink = Vec::new();
    let (nodes, layer_bbox) = convert_node(&SceneNode::Group(group), (0, 0), &grid(), &mut sink);
    let layer = only_group(&nodes);
    assert_eq!(layer.filters, vec![(FilterKind::Blur(3), (0, 0))]);
    assert_eq!(layer.bbox, rect(-3, -3, 16, 16));
    assert_eq!(describe_all(&layer.children), vec!["fill(1 Rect { x: 0, y: 0, w: 10, h: 10 })"]);
    assert_eq!(layer_bbox, Some(rect(-3, -3, 16, 16)));
}

#[test]
fn filter_region_replaces_the_layer_box_but_not_the_object_box() {
    let mut inner = plain_group(vec![filled(1, rect(0, 0, 10, 10))]);
    inner.filters = vec![FilterKind::Blur(5)];
    let mut outer = plain_group(vec![SceneNode::Group(inner)]);
    outer.clip_path = Some(1);
    let mut sink = Vec::new();
    let (nodes, _) = convert_node(&SceneNode::Group(outer), (0, 0), &grid(), &mut sink);
    let layer = only_group(&nodes);
    assert_eq!(layer.bbox, rect(-5, -5, 20, 20));
    assert_eq!(layer.clip_path, Some(Resolved { id: 1, object: rect(0, 0, 10, 10), shift: (0, 0) }));
    assert_eq!(only_group(&layer.children).bbox, rect(-5, -5, 20, 20));
}

#[test]
fn filter_paints_are_resolved_at_full_opacity_for_the_region() {
    let mut group = plain_group(vec![filled(1, rect(0, 0, 10, 10))]);
    group.filters = vec![FilterKind::Blur(1)];
    group.filter_fill = Some(11);
    group.filter_stroke = Some(12);
    group.opacity = 40;
    let mut sink = Vec::new();
    let (nodes, _) = convert_node(&SceneNode::Group(group), (0, 0), &grid(), &mut sink);
    let layer = only_group(&nodes);
    assert_eq!(layer.opacity, 40);
    assert_eq!(layer.filter_fill, Some(Paint { id: 11, opacity: 255, region: rect(-1, -1, 12, 12) }));
    assert_eq!(layer.filter_stroke, Some(Paint { id: 12, opacity: 255, region: rect(-1, -1, 12, 12) }));
}

#[test]
fn filter_without_a_region_drops_the_group_and_its_descendants() {
    let deep = plain_group(vec![filled(2, rect(0, 0, 4, 4))]);
    let mut group =
        plain_group(vec![filled(1, rect(0, 0, 10, 10)), SceneNode::Group(deep), SceneNode::Text]);
    group.filters = vec![FilterKind::Blur(1), FilterKind::Broken];
    let parent = plain_group(vec![
        filled(7, rect(50, 50, 1, 1)),
        SceneNode::Group(group),
        filled(8, rect(60, 60, 1, 1)),
    ]);
    let mut sink = Vec::new();
    let (nodes, layer) = convert_node(&SceneNode::Group(parent), (0, 0), &grid(), &mut sink);
    assert_eq!(
        describe_all(&nodes),
        vec![
            "fill(7 Rect { x: 50, y: 50, w: 1, h: 1 })",
            "fill(8 Rect { x: 60, y: 60, w: 1, h: 1 })",
        ]
    );
    assert_eq!(layer, Some(rect(50, 50, 11, 11)));
    assert_eq!(sink, vec![Diagnostic::TextSkipped]);
}

#[test]
fn filter_can_paint_into_a_group_without_content() {
    let mut group = plain_group(Vec::new());
    group.filters = vec![FilterKind::Flood(rect(0, 0, 8, 8))];
    group.clip_path = Some(5);
    group.mask = Some(6);
    group.filter_fill = Some(3);
    group.transform = (2, 2);
    let mut sink = Vec::new();
    let (nodes, layer_bbox) = convert_node(&SceneNode::Group(group), (0, 0), &grid(), &mut sink);
    let layer = only_group(&nodes);
    assert!(layer.children.is_empty());
    assert_eq!(layer.clip_path, None);
    assert_eq!(layer.mask, None);
    assert_eq!(layer.filters, vec![(FilterKind::Flood(rect(0, 0, 8, 8)), (2, 2))]);
    assert_eq!(layer.filter_fill, Some(Paint { id: 3, opacity: 255, region: rect(2, 2, 8, 8) }));
    assert_eq!(layer.bbox, rect(2, 2, 8, 8));
    assert_eq!(layer_bbox, Some(rect(2, 2, 8, 8)));
}

#[test]
fn group_without_content_reports_the_unit_square_as_object_box() {
    let mut flood = plain_group(Vec::new());
    flood.filters = vec![FilterKind::Flood(rect(10, 10, 8, 8))];
    let mut outer = plain_group(vec![SceneNode::Group(flood)]);
    outer.clip_path = Some(1);
    let mut sink = Vec::new();
    let (nodes, layer_bbox) = convert_node(&SceneNode::Group(outer), (0, 0), &grid(), &mut sink);
    let layer = only_group(&nodes);
    assert_eq!(layer.clip_path, Some(Resolved { id: 1, object: UNIT, shift: (0, 0) }));
    assert_eq!(layer.bbox, rect(10, 10, 8, 8));
    assert_eq!(layer_bbox, Some(rect(10, 10, 8, 8)));
}

#[test]
fn filter_without_a_region_drops_a_group_without_content() {
    let mut group = plain_group(Vec::new());
    group.filters = vec![FilterKind::Blur(4)];
    let mut sink = Vec::new();
    let (nodes, layer) = convert_node(&SceneNode::Group(group), (0, 0), &grid(), &mut sink);
    assert!(nodes.is_empty());
    assert_eq!(layer, None);
}

#[test]
fn children_that_paint_without_boxes_are_not_kept_in_a_filter_only_layer() {
    let mut no_box = plain_group(Vec::new());
    no_box.filters = vec![FilterKind::Flood(NO_CONTENT)];
    let mut group = plain_group(vec![SceneNode::Group(no_box)]);
    group.filters = vec![FilterKind::Flood(rect(0, 0, 2, 2))];
    let mut sink = Vec::new();
    let (nodes, layer_bbox) = convert_node(&SceneNode::Group(group), (0, 0), &grid(), &mut sink);
    let layer = only_group(&nodes);
    assert!(layer.children.is_empty());
    assert_eq!(layer_bbox, Some(rect(0, 0, 2, 2)));
}

#[test]
fn stroke_widens_the_layer_box_by_half_its_width() {
    let shape =
        SceneNode::Shape(Shape { id: 1, rect: rect(0, 0, 10, 10), fill: true, stroke_width: Some(4) });
    let mut sink = Vec::new();
    let (_, layer) = convert_node(&shape, (0, 0), &grid(), &mut sink);
    assert_eq!(layer, Some(rect(-2, -2, 14, 14)));
}

#[test]
fn union_does_not_depend_on_the_order_of_the_children() {
    let boxes = [rect(0, 0, 10, 10), rect(-5, 3, 2, 2), rect(20, -7, 1, 30)];
    let orders = [[0, 1, 2], [0, 2, 1], [1, 0, 2], [1, 2, 0], [2, 0, 1], [2, 1, 0]];
    for order in orders {
        let children: Vec<SceneNode<Grid>> =
            order.iter().map(|&i| filled(i as u32, boxes[i])).collect();
        let mut sink = Vec::new();
        let (nodes, layer) =
            convert_node(&SceneNode::Group(plain_group(children)), (0, 0), &grid(), &mut sink);
        assert_eq!(layer, Some(rect(-5, -7, 26, 30)));
        let ids: Vec<u32> = nodes
            .iter()
            .map(|node| match node {
                Node::FillPath(path) => path.id,
                other => panic!("expected a fill, found {}", describe(other)),
            })
            .collect();
        assert_eq!(ids, order.iter().map(|&i| i as u32).collect::<Vec<u32>>());
    }
}

#[test]
fn converting_twice_gives_the_same_nodes() {
    let scene = || {
        let mut layer = plain_group(vec![
            filled(1, rect(0, 0, 10, 10)),
            SceneNode::Text,
            SceneNode::Image(Picture { id: 2, rect: rect(3, 3, 30, 30) }),
        ]);
        layer.filters = vec![FilterKind::Blur(2)];
        layer.filter_fill = Some(5);
        layer.mask = Some(4);
        SceneNode::Group(plain_group(vec![SceneNode::Group(layer), filled(3, rect(1, 1, 1, 1))]))
    };
    let mut first_sink = Vec::new();
    let (first, first_layer) = convert_node(&scene(), (1, 1), &grid(), &mut first_sink);
    let mut second_sink = Vec::new();
    let (second, second_layer) = convert_node(&scene(), (1, 1), &grid(), &mut second_sink);
    assert_eq!(describe_all(&first), describe_all(&second));
    assert_eq!(first_layer, second_layer);
    assert_eq!(first_sink, second_sink);
    assert_eq!(first.len(), 2);
    assert_eq!(first_layer, Some(rect(-1, -1, 37, 37)));
}

#[test]
fn accumulator_starts_without_content() {
    let resolvers = grid();
    let unions: Accumulator<Rect> = Accumulator::new(resolvers.no_content);
    assert_eq!(unions.layer, NO_CONTENT);
    assert_eq!(unions.object, NO_CONTENT);
    assert_eq!(unions.finish(&resolvers.has_content), None);
}

#[test]
fn accumulator_unites_what_children_report() {
    let resolvers = grid();
    let mut unions: Accumulator<Rect> = Accumulator::new(resolvers.no_content);
    unions.absorb(Some((rect(-1, -1, 12, 12), rect(0, 0, 10, 10))), &resolvers.union);
    unions.absorb(None, &resolvers.union);
    unions.absorb(Some((rect(20, 0, 2, 2), rect(21, 1, 1, 1))), &resolvers.union);
    assert_eq!(unions.layer, rect(-1, -1, 23, 12));
    assert_eq!(unions.object, rect(0, 0, 22, 10));
    assert_eq!(unions.finish(&resolvers.has_content), Some((rect(-1, -1, 23, 12), rect(0, 0, 22, 10))));
}

#[test]
fn accumulator_needs_content_in_both_unions() {
    let resolvers = grid();
    let mut unions: Accumulator<Rect> = Accumulator::new(resolvers.no_content);
    unions.absorb(Some((rect(0, 0, 1, 1), NO_CONTENT)), &resolvers.union);
    assert_eq!(unions.finish(&resolvers.has_content), None);

    let mut unions: Accumulator<Rect> = Accumulator::new(resolvers.no_content);
    unions.absorb(Some((NO_CONTENT, rect(0, 0, 1, 1))), &resolvers.union);
    assert_eq!(unions.finish(&resolvers.has_content), None);
}

#[test]
fn zero_area_box_at_the_origin_is_content() {
    let resolvers = grid();
    let mut unions: Accumulator<Rect> = Accumulator::new(resolvers.no_content);
    unions.absorb(Some((rect(0, 0, 0, 0), rect(0, 0, 0, 0))), &resolvers.union);
    assert_eq!(unions.finish(&resolvers.has_content), Some((rect(0, 0, 0, 0), rect(0, 0, 0, 0))));
}

#[test]
fn document_tree_keeps_the_frame_of_the_document() {
    let aspect = AspectRatio { defer: false, align: render_tree::Align::XMinYMax, slice: true };
    let scene: SceneTree<Grid> = SceneTree {
        size: (640, 480),
        view_box: ViewBox { rect: rect(0, 0, 64, 48), aspect },
        root: SceneNode::Group(plain_group(vec![
            filled(1, rect(0, 0, 10, 10)),
            SceneNode::Text,
            filled(2, rect(30, 30, 10, 10)),
        ])),
    };
    let mut sink = Vec::new();
    let tree = Tree::from_usvg(&scene, &grid(), &mut sink);
    assert_eq!(tree.size, (640, 480));
    assert_eq!(tree.view_box.rect, rect(0, 0, 64, 48));
    assert_eq!(tree.view_box.aspect, aspect);
    assert_eq!(tree.content_area, Some(rect(0, 0, 40, 40)));
    assert_eq!(
        describe_all(&tree.children),
        vec![
            "fill(1 Rect { x: 0, y: 0, w: 10, h: 10 })",
            "fill(2 Rect { x: 30, y: 30, w: 10, h: 10 })",
        ]
    );
    assert_eq!(sink, vec![Diagnostic::TextSkipped]);
}

#[test]
fn document_without_content_has_no_content_area() {
    let scene: SceneTree<Grid> = SceneTree {
        size: (1, 1),
        view_box: ViewBox { rect: rect(0, 0, 1, 1), aspect: AspectRatio::default() },
        root: SceneNode::Group(plain_group(Vec::new())),
    };
    let mut sink = Vec::new();
    let tree = Tree::from_usvg(&scene, &grid(), &mut sink);
    assert_eq!(tree.content_area, None);
    assert!(tree.children.is_empty());
    assert!(sink.is_empty());
}

#[test]
fn subtree_is_framed_by_the_bounds_of_its_node() {
    let mut group = plain_group(vec![filled(1, rect(0, 0, 10, 10))]);
    group.transform = (5, 5);
    let mut sink = Vec::new();
    let tree =
        Tree::from_usvg_node(&SceneNode::Group(group), Some(rect(5, 5, 10, 10)), &grid(), &mut sink);
    let tree = match tree {
        Some(tree) => tree,
        None => panic!("a node with an area gives a tree"),
    };
    assert_eq!(tree.size, (10, 10));
    assert_eq!(tree.view_box.rect, rect(5, 5, 10, 10));
    assert_eq!(
        tree.view_box.aspect,
        AspectRatio { defer: false, align: render_tree::Align::XMidYMid, slice: false }
    );
    assert_eq!(tree.content_area, Some(rect(5, 5, 10, 10)));
    assert_eq!(describe_all(&tree.children), vec!["fill(1 Rect { x: 5, y: 5, w: 10, h: 10 })"]);
    assert!(sink.is_empty());
}

#[test]
fn subtree_of_a_node_without_area_is_refused() {
    let mut sink = vec![Diagnostic::TextSkipped];
    let tree = Tree::from_usvg_node(&filled(1, rect(0, 0, 0, 10)), None, &grid(), &mut sink);
    assert!(tree.is_none());
    assert_eq!(sink, vec![Diagnostic::TextSkipped, Diagnostic::ZeroSizedNode]);
}

#[test]
fn default_aspect_ratio_is_centred_and_fitted() {
    let aspect = AspectRatio::default();
    assert!(!aspect.defer);
    assert_eq!(aspect.align, render_tree::Align::XMidYMid);
    assert!(!aspect.slice);
}

#[test]
fn resolvers_answer_through_their_methods() {
    let resolvers = grid();
    assert_eq!(resolvers.compose_transforms((1, 2), (10, 20)), (11, 22));
    assert_eq!(resolvers.measure(rect(9, 9, 3, 4)), (3, 4));
    assert_eq!(resolvers.paint(&None, UNIT), None);
    assert_eq!(resolvers.paint(&Some(4), UNIT), Some(Paint { id: 4, opacity: 255, region: UNIT }));
    assert_eq!(resolvers.clip(&None, UNIT, (0, 0)), None);
    assert_eq!(resolvers.mask(&None, UNIT, (0, 0)), None);
    assert_eq!(
        resolvers.filter(&vec![FilterKind::Blur(1)], Some(UNIT), Some(UNIT), (0, 0)),
        (vec![(FilterKind::Blur(1), (0, 0))], Some(rect(-1, -1, 3, 3)))
    );
    assert_eq!(resolvers.shape(&Shape { id: 1, rect: UNIT, fill: true, stroke_width: None }, (1, 1)).bboxes,
        Some((rect(1, 1, 1, 1), rect(1, 1, 1, 1))));
    assert_eq!(resolvers.image(&Picture { id: 1, rect: UNIT }, (1, 1)).nodes.len(), 1);
}
