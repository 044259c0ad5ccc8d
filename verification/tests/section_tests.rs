use hyperion_core::section::{BlockState, Section};

fn create_test_section() -> Section {
    Section::new()
}

#[test]
fn test_section_set_new_block() {
    let mut section = create_test_section();
    let new_state = BlockState::stone();

    let result = section.set_delta(0, new_state);
    assert_eq!(result, BlockState::air());
    assert_eq!(section.block_states.get(0), new_state);
    assert_eq!(section.changed.len(), 1);
    assert!(section.changed_since_last_tick.contains(0));
}

#[test]
fn test_section_set_same_block() {
    let mut section = create_test_section();
    let state = BlockState::stone();

    section.set_delta(0, state);
    let result = section.set_delta(0, state);
    assert_eq!(result, state);
    assert_eq!(section.changed.len(), 1);
}

#[test]
fn test_section_set_revert_block() {
    let mut section = create_test_section();
    let new_state = BlockState::stone();

    section.set_delta(0, new_state);
    let result = section.set_delta(0, BlockState::air());
    assert_eq!(result, new_state);
    assert!(section.changed.contains(0));
    assert!(section.changed_since_last_tick.contains(0));
}

#[test]
fn test_section_set_multiple_blocks() {
    let mut section = create_test_section();
    let states = [BlockState::stone(), BlockState::dirt(), BlockState::grass_block()];

    for (i, &state) in states.iter().enumerate() {
        section.set_delta(i as u16, state);
    }

    assert_eq!(section.changed.len(), 3);
    assert_eq!(section.changed_since_last_tick.len(), 3);

    for (i, &state) in states.iter().enumerate() {
        assert_eq!(section.block_states.get(i), state);
    }
}

#[test]
fn test_section_set_boundary_values() {
    let mut section = create_test_section();
    let state = BlockState::stone();

    // Test setting the first block
    section.set_delta(0, state);
    assert_eq!(section.block_states.get(0), state);

    // Test setting the last block (assuming 4096 blocks per section)
    section.set_delta(4095, state);
    assert_eq!(section.block_states.get(4095), state);
}

#[test]
fn test_reset_tick_deltas() {
    let mut section = create_test_section();

    section.set_delta(0, BlockState::stone());
    section.set_delta(1, BlockState::dirt());
    assert_eq!(section.changed_since_last_tick.len(), 2);

    section.reset_tick_deltas();
    assert!(section.changed_since_last_tick.is_empty());
    assert_eq!(section.changed.len(), 2);
}

#[test]
fn test_section_set_multiple_changes() {
    let mut section = create_test_section();

    section.set_delta(0, BlockState::stone());
    section.set_delta(0, BlockState::dirt());
    section.set_delta(0, BlockState::grass_block());

    assert_eq!(section.changed.len(), 1);
    assert_eq!(section.block_states.get(0), BlockState::grass_block());
}

#[test]
fn test_section_set_without_delta_tracking() {
    let mut section = create_test_section();

    let prev = section.set(7, BlockState::stone());
    assert_eq!(prev, BlockState::air());
    assert_eq!(section.block_states.get(7), BlockState::stone());
    assert!(section.changed.is_empty());
    assert!(section.changed_since_last_tick.is_empty());
}
