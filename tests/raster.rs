use gust::frame::PaintCommand;
use gust::geometry::{cell_of, is_point_in_triangle, to_screen, ClipVertex, Rgb, ScreenPoint, ScreenVertex, CELL};
use gust::log::Log;
use gust::mesh::{vertex_color, Mesh, WorldPoint};
use gust::panel::{Panel, PanelDims};

fn sv(x: i64, y: i64) -> ScreenVertex {
    ScreenVertex { x, y, z: 0 }
}

fn sp(x: i64, y: i64) -> ScreenPoint {
    ScreenPoint { x, y }
}

const RED: Rgb = Rgb { r: 255, g: 0, b: 0 };
const BLUE: Rgb = Rgb { r: 0, g: 0, b: 255 };
const GREEN: Rgb = Rgb { r: 0, g: 255, b: 0 };

/// Upper-left half of the panel, clockwise on screen, at depth `z`.
fn half_panel(z: i32) -> Vec<ClipVertex> {
    vec![
        ClipVertex { x: -4096, y: 4096, z },
        ClipVertex { x: 4096, y: 4096, z },
        ClipVertex { x: -4096, y: -4096, z },
    ]
}

fn dims(x: u16, y: u16, w: u16, h: u16) -> PanelDims {
    PanelDims { x, y, w, h }
}

#[test]
fn point_strictly_inside_is_inside() {
    assert!(is_point_in_triangle(sp(1, 1), sv(0, 0), sv(10, 0), sv(0, 10)));
    assert!(is_point_in_triangle(sp(3, 4), sv(0, 0), sv(10, 0), sv(0, 10)));
}

#[test]
fn point_outside_one_edge_is_outside() {
    assert!(!is_point_in_triangle(sp(20, 20), sv(0, 0), sv(10, 0), sv(0, 10)));
    assert!(!is_point_in_triangle(sp(-3, 2), sv(0, 0), sv(10, 0), sv(0, 10)));
    assert!(!is_point_in_triangle(sp(2, -3), sv(0, 0), sv(10, 0), sv(0, 10)));
}

#[test]
fn counter_clockwise_triangle_holds_nothing_strictly_inside() {
    assert!(!is_point_in_triangle(sp(1, 1), sv(0, 0), sv(0, 10), sv(10, 0)));
}

#[test]
fn point_on_first_edge_is_inside() {
    assert!(is_point_in_triangle(sp(5, 0), sv(0, 0), sv(10, 0), sv(0, 10)));
    // On the line through A and B but past B: outside edge B->C, still inside.
    assert!(is_point_in_triangle(sp(20, 0), sv(0, 0), sv(10, 0), sv(0, 10)));
}

#[test]
fn point_on_other_edges_is_inside() {
    assert!(is_point_in_triangle(sp(5, 5), sv(0, 0), sv(10, 0), sv(0, 10)));
    assert!(is_point_in_triangle(sp(0, 4), sv(0, 0), sv(10, 0), sv(0, 10)));
}

#[test]
fn to_screen_maps_device_range_onto_panel() {
    let d = dims(3, 5, 10, 20);
    let centre = to_screen(ClipVertex { x: 0, y: 0, z: 7 }, d);
    assert_eq!(centre, ScreenVertex { x: (3 * 2 + 10) * 4096, y: (5 * 2 + 20) * 4096, z: 7 });
    assert_eq!(cell_of(centre.x), 8);
    assert_eq!(cell_of(centre.y), 15);
    let top_left = to_screen(ClipVertex { x: -4096, y: 4096, z: 0 }, d);
    assert_eq!(cell_of(top_left.x), 3);
    assert_eq!(cell_of(top_left.y), 5);
    let bottom_right = to_screen(ClipVertex { x: 4096, y: -4096, z: 0 }, d);
    assert_eq!(bottom_right.x, 13 * CELL);
    assert_eq!(bottom_right.y, 25 * CELL);
}

#[test]
fn cell_of_truncates_and_floors_at_zero() {
    assert_eq!(cell_of(-5), 0);
    assert_eq!(cell_of(CELL - 1), 0);
    assert_eq!(cell_of(3 * CELL + 1), 3);
}

#[test]
fn vertex_color_maps_axes_to_channels() {
    let c = vertex_color(WorldPoint { x: 4096, y: 2048, z: -5 });
    assert_eq!(c, Rgb { r: 255, g: 127, b: 0 });
    let c = vertex_color(WorldPoint { x: 9000, y: 0, z: 16 });
    assert_eq!(c, Rgb { r: 255, g: 0, b: 0 });
}

#[test]
fn mesh_new_rejects_partial_triangles() {
    assert!(Mesh::new(vec![RED, RED, RED], vec![0, 1]).is_none());
}

#[test]
fn mesh_new_rejects_index_past_end() {
    assert!(Mesh::new(vec![RED, RED, RED], vec![0, 1, 3]).is_none());
}

#[test]
fn mesh_new_accepts_valid_data() {
    let m = Mesh::new(vec![RED, RED, RED], vec![0, 1, 2, 2, 1, 0]).unwrap();
    assert_eq!(m.indices, vec![0, 1, 2, 2, 1, 0]);
}

fn single_triangle() -> Mesh {
    Mesh::new(vec![RED, GREEN, BLUE], vec![0, 1, 2]).unwrap()
}

#[test]
fn draw_paints_half_panel_row_by_row() {
    let mut log = Log::new();
    let cmds = log.draw(dims(0, 0, 4, 4), &single_triangle(), &half_panel(10));
    let cells: Vec<(u16, u16)> = cmds.iter().map(|c| (c.x, c.y)).collect();
    assert_eq!(
        cells,
        vec![(0, 0), (1, 0), (2, 0), (3, 0), (0, 1), (1, 1), (2, 1), (0, 2), (1, 2), (0, 3)]
    );
    assert!(cmds.iter().all(|c| c.color == RED));
}

#[test]
fn draw_offsets_by_panel_origin() {
    let mut log = Log::new();
    let cmds = log.draw(dims(10, 20, 4, 4), &single_triangle(), &half_panel(10));
    assert_eq!(cmds.len(), 10);
    assert_eq!(cmds[0], PaintCommand { x: 10, y: 20, color: RED });
    assert_eq!(cmds[9], PaintCommand { x: 10, y: 23, color: RED });
}

#[test]
fn degenerate_panels_paint_nothing() {
    let mut log = Log::new();
    assert!(log.draw(dims(0, 0, 1, 10), &single_triangle(), &half_panel(10)).is_empty());
    assert!(log.draw(dims(0, 0, 10, 1), &single_triangle(), &half_panel(10)).is_empty());
    assert!(log.draw(dims(5, 5, 0, 0), &single_triangle(), &half_panel(10)).is_empty());
}

fn last_color_at(cmds: &[PaintCommand], x: u16, y: u16) -> Option<Rgb> {
    cmds.iter().rev().find(|c| c.x == x && c.y == y).map(|c| c.color)
}

fn two_layers(near_first: bool) -> (Mesh, Vec<ClipVertex>) {
    let mut vertices = half_panel(100);
    vertices.extend(half_panel(10));
    let colors = vec![BLUE, BLUE, BLUE, RED, RED, RED];
    let indices = if near_first { vec![3, 4, 5, 0, 1, 2] } else { vec![0, 1, 2, 3, 4, 5] };
    (Mesh::new(colors, indices).unwrap(), vertices)
}

#[test]
fn nearer_triangle_wins_in_either_order() {
    for near_first in [true, false] {
        let (mesh, vertices) = two_layers(near_first);
        let mut log = Log::new();
        let cmds = log.draw(dims(0, 0, 6, 6), &mesh, &vertices);
        for (x, y) in [(0, 0), (1, 1), (2, 0), (0, 4)] {
            assert_eq!(last_color_at(&cmds, x, y), Some(RED));
        }
    }
}

#[test]
fn equal_depths_keep_first_drawn() {
    let mut vertices = half_panel(10);
    vertices.extend(half_panel(10));
    let mesh = Mesh::new(vec![BLUE, BLUE, BLUE, RED, RED, RED], vec![0, 1, 2, 3, 4, 5]).unwrap();
    let mut log = Log::new();
    let cmds = log.draw(dims(0, 0, 4, 4), &mesh, &vertices);
    assert_eq!(cmds.len(), 10);
    assert!(cmds.iter().all(|c| c.color == BLUE));
}

#[test]
fn resize_changes_pixels_not_camera() {
    let mut log = Log::new();
    log.rotate(3);
    let camera = log.camera;
    let small = log.draw(dims(0, 0, 4, 4), &single_triangle(), &half_panel(10));
    let wide = log.draw(dims(0, 0, 8, 4), &single_triangle(), &half_panel(10));
    assert_ne!(small, wide);
    assert!(wide.iter().any(|c| c.x >= 4));
    assert_eq!(log.camera, camera);
}

#[test]
fn redraw_repeats_paint_commands() {
    let (mesh, vertices) = two_layers(false);
    let mut log = Log::new();
    let first = log.draw(dims(2, 1, 7, 5), &mesh, &vertices);
    let second = log.draw(dims(2, 1, 7, 5), &mesh, &vertices);
    assert!(!first.is_empty());
    assert_eq!(first, second);
}

#[test]
fn panel_draw_forwards_to_view() {
    let mut panel = Panel { kind: Log::new() };
    let cmds = panel.draw(dims(0, 0, 4, 4), &single_triangle(), &half_panel(10));
    assert_eq!(cmds.len(), 10);
}

#[test]
fn triangle_off_panel_paints_nothing() {
    let vertices = vec![
        ClipVertex { x: 9000, y: 9000, z: 1 },
        ClipVertex { x: 12000, y: 9000, z: 1 },
        ClipVertex { x: 9000, y: 6000, z: 1 },
    ];
    let mut log = Log::new();
    assert!(log.draw(dims(0, 0, 10, 10), &single_triangle(), &vertices).is_empty());
}

#[test]
fn draw_at_far_edge_of_cell_space() {
    let mut log = Log::new();
    let d = dims(u16::MAX - 4, u16::MAX - 4, 4, 4);
    let cmds = log.draw(d, &single_triangle(), &half_panel(10));
    assert_eq!(cmds.len(), 10);
    assert_eq!(cmds[0], PaintCommand { x: u16::MAX - 4, y: u16::MAX - 4, color: RED });
    assert!(cmds.iter().all(|c| c.x < u16::MAX && c.y < u16::MAX));
}
