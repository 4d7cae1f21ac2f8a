use plotview::input::{step_slice, KeyPresses};
use plotview::mode::{GraphMode, Show};
use plotview::sample::{is_3d, Complex, GraphType};
use plotview::state::GraphState;

fn width(values: &[f32]) -> GraphType<f32> {
    GraphType::Width(values.iter().map(|v| Complex::Real(*v)).collect(), 0.0, 2.0)
}

fn grid(n: usize) -> GraphType<f32> {
    GraphType::Width3D(vec![Complex::Complex(1.0, 2.0); n], -1.0, -1.0, 1.0, 1.0)
}

fn texture() -> egui::TextureHandle {
    let ctx = egui::Context::default();
    ctx.load_texture(
        "dc",
        egui::ColorImage::new([1, 1], egui::Color32::BLACK),
        egui::TextureOptions::LINEAR,
    )
}

#[test]
fn new_state_defaults() {
    let s = GraphState::new(vec![width(&[0.0, 1.0, 0.0])]);
    assert_eq!(s.graph_mode(), GraphMode::Normal);
    assert_eq!(s.show(), Show::Complex);
    assert!(!s.is_3d());
    assert!(s.lines() && s.anti_alias());
    assert!(!s.lines_disabled() && !s.axis_disabled() && !s.coord_disabled());
    assert!(!s.view_x() && !s.scale_axis());
    assert_eq!(s.slice(), 0);
    assert!(s.needs_texture());
    assert_eq!(s.data().len(), 1);
}

#[test]
fn dimensionality_follows_data() {
    assert!(!is_3d::<f32>(&[]));
    assert!(!is_3d(&[width(&[1.0]), GraphType::Coord(vec![(0.5, Complex::Imag(1.0))])]));
    assert!(is_3d(&[width(&[1.0]), grid(4)]));
    assert!(is_3d(&[GraphType::Coord3D(vec![(0.0, 0.0, Complex::Real(1.0))])]));
    let mut s = GraphState::new(vec![width(&[1.0])]);
    assert!(!s.is_3d());
    s.push_data(grid(4));
    assert!(s.is_3d());
    assert_eq!(s.data().len(), 2);
    s.clear_data();
    assert!(!s.is_3d());
    assert!(s.data().is_empty());
    s.set_data(vec![grid(9)]);
    assert!(s.is_3d());
}

#[test]
fn replacing_data_drops_texture() {
    let mut s = GraphState::new(vec![grid(4)]);
    s.set_mode(GraphMode::DomainColoring);
    s.store_texture(texture());
    assert!(!s.needs_texture());
    assert!(s.cache().is_some());
    s.set_data(vec![grid(9)]);
    assert!(s.needs_texture());
    assert!(s.cache().is_none());
}

#[test]
fn extending_or_clearing_data_drops_texture() {
    let mut s = GraphState::new(vec![grid(4)]);
    s.store_texture(texture());
    s.push_data(grid(4));
    assert!(s.needs_texture());
    s.store_texture(texture());
    s.clear_data();
    assert!(s.needs_texture());
}

#[test]
fn smoothing_drops_texture() {
    let mut s = GraphState::new(vec![grid(4)]);
    s.store_texture(texture());
    s.set_anti_alias(false);
    assert!(!s.anti_alias());
    assert!(s.needs_texture());
    s.store_texture(texture());
    s.apply_keys(&KeyPresses { toggle_anti_alias: true, ..KeyPresses::default() });
    assert!(s.anti_alias());
    assert!(s.needs_texture());
}

#[test]
fn set_mode_forces_2d() {
    let mut s = GraphState::new(vec![grid(4)]);
    assert!(s.is_3d());
    s.set_mode(GraphMode::DomainColoring);
    assert!(!s.is_3d());
    s.set_mode(GraphMode::Slice);
    assert!(!s.is_3d());
    s.set_mode(GraphMode::Flatten);
    assert!(s.is_3d());
    s.set_mode(GraphMode::Normal);
    assert!(s.is_3d());
    assert_eq!(s.graph_mode(), GraphMode::Normal);
}

#[test]
fn setters() {
    let mut s = GraphState::new(vec![width(&[1.0])]);
    s.set_lines(false);
    s.set_scale_axis(true);
    s.disable_lines(true);
    s.disable_axis(true);
    s.disable_coord(true);
    assert!(!s.lines() && s.scale_axis());
    assert!(s.lines_disabled() && s.axis_disabled() && s.coord_disabled());
}

#[test]
fn toggle_keys() {
    let mut s = GraphState::new(vec![width(&[1.0])]);
    let keys = KeyPresses {
        toggle_grid: true,
        toggle_axis: true,
        toggle_coord: true,
        toggle_scale_axis: true,
        toggle_view_x: true,
        toggle_lines: true,
        cycle_show: true,
        ..KeyPresses::default()
    };
    s.apply_keys(&keys);
    assert!(s.lines_disabled() && s.axis_disabled() && s.coord_disabled());
    assert!(s.scale_axis() && s.view_x() && !s.lines());
    assert_eq!(s.show(), Show::Real);
    s.apply_keys(&keys);
    assert!(!s.lines_disabled() && !s.axis_disabled() && !s.coord_disabled());
    assert!(!s.scale_axis() && !s.view_x() && s.lines());
    assert_eq!(s.show(), Show::Imag);
}

#[test]
fn mode_key_cycles_with_dimensionality() {
    let mut s = GraphState::new(vec![grid(4)]);
    let fwd = KeyPresses { cycle_mode: true, ..KeyPresses::default() };
    let back = KeyPresses { cycle_mode: true, shift: true, ..KeyPresses::default() };
    s.apply_keys(&fwd);
    assert_eq!((s.graph_mode(), s.is_3d()), (GraphMode::Slice, false));
    s.apply_keys(&fwd);
    s.apply_keys(&fwd);
    assert_eq!((s.graph_mode(), s.is_3d()), (GraphMode::SliceDepth, true));
    s.apply_keys(&back);
    s.apply_keys(&back);
    s.apply_keys(&back);
    assert_eq!((s.graph_mode(), s.is_3d()), (GraphMode::Normal, true));
    s.cycle_mode(true);
    assert_eq!((s.graph_mode(), s.is_3d()), (GraphMode::DomainColoring, false));
}

#[test]
fn slice_keys_step_and_saturate() {
    let up = KeyPresses { slice_up: true, ..KeyPresses::default() };
    let up4 = KeyPresses { slice_up: true, shift: true, ..KeyPresses::default() };
    let down = KeyPresses { slice_down: true, ..KeyPresses::default() };
    let down4 = KeyPresses { slice_down: true, shift: true, ..KeyPresses::default() };
    assert_eq!(step_slice(0, &up), 1);
    assert_eq!(step_slice(0, &up4), 4);
    assert_eq!(step_slice(5, &down), 4);
    assert_eq!(step_slice(2, &down4), 0);
    assert_eq!(step_slice(0, &down), 0);
    assert_eq!(step_slice(usize::MAX, &up), usize::MAX);
    assert_eq!(step_slice(3, &KeyPresses::default()), 3);
    let mut s = GraphState::new(vec![grid(9)]);
    s.apply_keys(&up4);
    s.apply_keys(&up);
    assert_eq!(s.slice(), 5);
    s.apply_keys(&down);
    assert_eq!(s.slice(), 4);
}

#[test]
fn slice_is_clamped_to_grid() {
    let mut s = GraphState::new(vec![grid(9)]);
    let up4 = KeyPresses { slice_up: true, shift: true, ..KeyPresses::default() };
    s.apply_keys(&up4);
    assert_eq!(s.clamp_slice(3), 2);
    assert_eq!(s.slice(), 2);
    assert_eq!(s.clamp_slice(10), 2);
}

#[test]
fn complex_channels() {
    assert_eq!(Complex::Real(1.5f32).to_options(), (Some(1.5), None));
    assert_eq!(Complex::Imag(2.0f32).to_options(), (None, Some(2.0)));
    assert_eq!(Complex::Complex(1.0f32, -1.0).to_options(), (Some(1.0), Some(-1.0)));
    assert_eq!(Complex::from(Some(1.0f32), None).unwrap().to_options(), (Some(1.0), None));
    assert_eq!(Complex::from(None, Some(3.0f32)).unwrap().to_options(), (None, Some(3.0)));
    assert_eq!(Complex::from(Some(1.0f32), Some(2.0)).unwrap().to_options(), (Some(1.0), Some(2.0)));
    assert!(Complex::<f32>::from(None, None).is_none());
}
