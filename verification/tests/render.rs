use tilt_level::cycle::{Controller, CycleEvent};
use tilt_level::frame::Frame;
use tilt_level::grid::GridCoordinate;
use tilt_level::level::Level;
use tilt_level::mode::{ButtonState, SensitivityMode};
use tilt_level::sample::AccelSample;

fn single(row: usize, col: usize) -> [[u8; 5]; 5] {
    let mut cells = [[0u8; 5]; 5];
    cells[row][col] = 1;
    cells
}

fn lit_cells(frame: &Frame) -> usize {
    let mut count = 0;
    for row in 0..5 {
        for col in 0..5 {
            if frame.is_lit(row, col) {
                count += 1;
            }
        }
    }
    count
}

fn none_pressed() -> ButtonState {
    ButtonState { a_pressed: false, b_pressed: false }
}

fn reading(x_mg: i32, y_mg: i32, z_mg: i32, buttons: ButtonState) -> CycleEvent {
    CycleEvent::Sample { sample: AccelSample::new(x_mg, y_mg, z_mg), buttons }
}

#[test]
fn single_frame_has_exactly_one_lit_cell() {
    for row in 0..5 {
        for col in 0..5 {
            let frame = Frame::single(row, col);
            assert_eq!(frame.cells, single(row, col));
            assert_eq!(lit_cells(&frame), 1);
            assert!(frame.is_lit(row, col));
        }
    }
}

#[test]
fn new_level_holds_frames_for_100_ms_at_the_centre() {
    let level = Level::new();
    assert_eq!(level.delay(), 100);
    assert_eq!(level.cursor(), GridCoordinate { x: 0, y: 0 });
}

#[test]
fn set_delay_changes_only_the_delay() {
    let mut level = Level::new();
    level.set(1, -1);
    level.set_delay(200);
    assert_eq!(level.delay(), 200);
    assert_eq!(level.cursor(), GridCoordinate { x: 1, y: -1 });
    let shown = level.set(0, 0);
    assert_eq!(shown.persist_ms, 200);
}

#[test]
fn set_lights_the_cell_offset_from_the_centre() {
    let mut level = Level::new();
    let shown = level.set(0, 1);
    assert_eq!(shown.frame.cells, single(2, 3));
    assert_eq!(shown.persist_ms, 100);
    assert_eq!(level.cursor(), GridCoordinate { x: 0, y: 1 });
    let shown = level.set(-2, 2);
    assert_eq!(shown.frame.cells, single(0, 4));
    assert_eq!(level.cursor(), GridCoordinate { x: -2, y: 2 });
}

#[test]
fn set_clamps_each_axis() {
    let mut level = Level::new();
    let shown = level.set(0, 10);
    assert_eq!(shown.frame.cells, single(2, 4));
    assert_eq!(level.cursor(), GridCoordinate { x: 0, y: 2 });
    let shown = level.set(-128, 127);
    assert_eq!(shown.frame.cells, single(0, 4));
    assert_eq!(level.cursor(), GridCoordinate { x: -2, y: 2 });
    let shown = level.set(3, -3);
    assert_eq!(shown.frame.cells, single(4, 0));
    assert_eq!(level.cursor(), GridCoordinate { x: 2, y: -2 });
}

#[test]
fn draw_lights_the_indexed_cell() {
    let mut level = Level::new();
    let shown = level.draw(4, 1);
    assert_eq!(shown.frame.cells, single(4, 1));
    assert_eq!(shown.persist_ms, 100);
    assert_eq!(level.cursor(), GridCoordinate { x: 2, y: -1 });
}

#[test]
fn new_controller_starts_coarse() {
    let controller = Controller::new(Level::new());
    assert_eq!(controller.mode(), SensitivityMode::Coarse);
    assert_eq!(controller.cursor(), GridCoordinate { x: 0, y: 0 });
    assert_eq!(controller.delay(), 100);
}

#[test]
fn cycle_with_quarter_g_tilt_in_coarse_mode() {
    let mut controller = Controller::new(Level::new());
    let action = controller.run_one_cycle(reading(-250, 0, -1000, none_pressed()));
    let shown = action.expect("a cursor is shown");
    assert_eq!(shown.frame.cells, single(2, 3));
    assert_eq!(shown.persist_ms, 100);
    assert_eq!(controller.cursor(), GridCoordinate { x: 0, y: 1 });
    assert_eq!(controller.mode(), SensitivityMode::Coarse);
}

#[test]
fn cycle_with_quarter_g_tilt_in_fine_mode() {
    let mut controller = Controller::new(Level::new());
    let b_only = ButtonState { a_pressed: false, b_pressed: true };
    let action = controller.run_one_cycle(reading(-250, 0, -1000, b_only));
    let shown = action.expect("a cursor is shown");
    assert_eq!(shown.frame.cells, single(2, 4));
    assert_eq!(controller.cursor(), GridCoordinate { x: 0, y: 2 });
    assert_eq!(controller.mode(), SensitivityMode::Fine);
}

#[test]
fn cycle_with_extreme_tilt_pins_the_cursor() {
    let mut controller = Controller::new(Level::new());
    let action = controller.run_one_cycle(reading(-10000, 0, -1000, none_pressed()));
    assert_eq!(action.expect("a cursor is shown").frame.cells, single(2, 4));
    let action = controller.run_one_cycle(reading(10000, 10000, -1, none_pressed()));
    assert_eq!(action.expect("a cursor is shown").frame.cells, single(4, 0));
    assert_eq!(controller.cursor(), GridCoordinate { x: 2, y: -2 });
}

#[test]
fn closed_gate_renders_nothing_and_keeps_the_cursor() {
    let mut controller = Controller::new(Level::new());
    controller.run_one_cycle(reading(-250, 250, -1000, none_pressed()));
    let before = controller.cursor();
    assert_eq!(before, GridCoordinate { x: 1, y: 1 });
    for z_mg in [0, 1, 1000, i32::MAX] {
        let action = controller.run_one_cycle(reading(500, -500, z_mg, none_pressed()));
        assert!(action.is_none());
        assert_eq!(controller.cursor(), before);
    }
}

#[test]
fn closed_gate_still_updates_the_mode() {
    let mut controller = Controller::new(Level::new());
    let b_only = ButtonState { a_pressed: false, b_pressed: true };
    let action = controller.run_one_cycle(reading(0, 0, 1000, b_only));
    assert!(action.is_none());
    assert_eq!(controller.mode(), SensitivityMode::Fine);
}

#[test]
fn failed_read_changes_nothing() {
    let mut controller = Controller::new(Level::new());
    controller.set_delay(200);
    let b_only = ButtonState { a_pressed: false, b_pressed: true };
    controller.run_one_cycle(reading(-30, 40, -1000, b_only));
    let before = controller;
    assert_eq!(before.cursor(), GridCoordinate { x: 2, y: 1 });
    let action = controller.run_one_cycle(CycleEvent::ReadFailed);
    assert!(action.is_none());
    assert_eq!(controller, before);
    assert_eq!(controller.cursor(), before.cursor());
    assert_eq!(controller.mode(), SensitivityMode::Fine);
    assert_eq!(controller.delay(), 200);
}

#[test]
fn mode_is_latched_across_cycles() {
    let mut controller = Controller::new(Level::new());
    let a_only = ButtonState { a_pressed: true, b_pressed: false };
    let b_only = ButtonState { a_pressed: false, b_pressed: true };
    let both = ButtonState { a_pressed: true, b_pressed: true };
    controller.run_one_cycle(reading(0, 0, -1000, b_only));
    assert_eq!(controller.mode(), SensitivityMode::Fine);
    controller.run_one_cycle(reading(0, 0, -1000, none_pressed()));
    assert_eq!(controller.mode(), SensitivityMode::Fine);
    controller.run_one_cycle(reading(0, 0, -1000, both));
    assert_eq!(controller.mode(), SensitivityMode::Fine);
    controller.run_one_cycle(reading(0, 0, -1000, a_only));
    assert_eq!(controller.mode(), SensitivityMode::Coarse);
    controller.run_one_cycle(reading(0, 0, -1000, none_pressed()));
    assert_eq!(controller.mode(), SensitivityMode::Coarse);
    controller.run_one_cycle(reading(0, 0, -1000, both));
    assert_eq!(controller.mode(), SensitivityMode::Coarse);
}

#[test]
fn delay_set_on_the_controller_reaches_the_command() {
    let mut controller = Controller::new(Level::new());
    controller.set_delay(200);
    let action = controller.run_one_cycle(reading(0, 0, -1000, none_pressed()));
    let shown = action.expect("a cursor is shown");
    assert_eq!(shown.persist_ms, 200);
    assert_eq!(shown.frame.cells, single(2, 2));
}
