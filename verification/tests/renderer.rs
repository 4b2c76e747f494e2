use glcubes::buffers::{Buffer, SharedBufferLayout, VertexBuilder, UBO};
use glcubes::input::{CameraMove, InputState, Key, KeyAction, WindowEvent};
use glcubes::textures::TextureManager;
use glcubes::{clamp, size_of, GL_FLOAT, GL_INT};

#[test]
fn clamp_inside_bounds() {
    assert_eq!(clamp(2, 1, 3), 2);
    assert_eq!(clamp(1, 1, 3), 1);
    assert_eq!(clamp(3, 1, 3), 3);
}

#[test]
fn clamp_outside_bounds() {
    assert_eq!(clamp(0, 1, 3), 1);
    assert_eq!(clamp(9, 1, 3), 3);
    assert_eq!(clamp(usize::MAX, 0, usize::MAX), usize::MAX);
}

#[test]
fn clamp_crossed_bounds() {
    assert_eq!(clamp(5, 10, 2), 10);
    assert_eq!(clamp(20, 10, 2), 2);
}

#[test]
fn component_sizes_are_four_bytes() {
    assert_eq!(size_of(GL_FLOAT), 4);
    assert_eq!(size_of(GL_INT), 4);
}

#[test]
fn shared_buffer_packs_indices_first() {
    let layout = SharedBufferLayout::new(80, 24);
    assert_eq!(layout.total_bytes(), 104);
    assert_eq!(layout.index_offset(), 0);
    assert_eq!(layout.vertex_offset(), 24);
}

#[test]
fn shared_buffer_empty_regions() {
    let layout = SharedBufferLayout::new(0, 0);
    assert_eq!(layout.total_bytes(), 0);
    assert_eq!(layout.vertex_offset(), 0);
}

#[test]
fn vertex_builder_lays_attributes_behind_each_other() {
    let (builder, binding) = VertexBuilder::bind_buffers(Buffer(3), 24, 9);
    assert_eq!(binding.buffer, 3);
    assert_eq!(binding.first_vertex_offset, 24);
    assert_eq!(binding.stride, 20);

    let (builder, position) = builder.attribute(3, GL_FLOAT);
    let (builder, texcoord) = builder.attribute(2, GL_FLOAT);
    let (_builder, color) = builder.attribute(3, GL_FLOAT);

    assert_eq!(position.vao, 9);
    assert_eq!(position.index, 0);
    assert_eq!(position.size, 3);
    assert_eq!(position.relative_offset, 0);

    assert_eq!(texcoord.index, 1);
    assert_eq!(texcoord.relative_offset, 12);

    assert_eq!(color.index, 2);
    assert_eq!(color.relative_offset, 20);
    assert_eq!(color.gl_type, GL_FLOAT);
}

#[test]
fn ubo_cursor_advances_by_attribute_size() {
    let mut block = UBO::new(Buffer(7), 192);
    assert_eq!(block.offset, 0);
    assert_eq!(block.size, 192);

    assert_eq!(block.next_attribute(64), 0);
    assert_eq!(block.next_attribute(64), 64);
    assert_eq!(block.offset, 128);
}

#[test]
fn ubo_reduced_write_keeps_the_cursor() {
    let mut block = UBO::new(Buffer(7), 192);
    block.next_attribute(64);
    block.next_attribute(64);

    assert_eq!(block.next_attribute_reduced(64), 128);
    assert_eq!(block.offset, 128);
    assert_eq!(block.next_attribute_reduced(64), 128);
    assert_eq!(block.offset, 128);
}

#[test]
fn ubo_clear_rewinds_to_the_start() {
    let mut block = UBO::new(Buffer(7), 192);
    block.next_attribute(64);
    block.clear();
    assert_eq!(block.offset, 0);
    assert_eq!(block.size, 192);
    assert_eq!(block.next_attribute(64), 0);
}

#[test]
fn ubo_can_fill_to_capacity() {
    let mut block = UBO::new(Buffer(1), 128);
    assert_eq!(block.next_attribute(128), 0);
    assert_eq!(block.offset, 128);
}

#[test]
fn escape_asks_the_window_to_close() {
    let mut input = InputState::new();
    assert!(!input.should_close());
    input.handle_key(Key::Escape, KeyAction::Press);
    assert!(input.should_close());
    assert!(!input.w && !input.a && !input.s && !input.d);
}

#[test]
fn pressing_and_releasing_movement_keys() {
    let mut input = InputState::new();
    input.handle_key(Key::W, KeyAction::Press);
    input.handle_key(Key::D, KeyAction::Press);
    assert!(input.w && input.d);

    input.handle_key(Key::D, KeyAction::Release);
    assert!(input.w && !input.d);

    input.handle_key(Key::A, KeyAction::Repeat);
    assert!(input.a);

    input.handle_key(Key::Other, KeyAction::Press);
    assert!(input.w && input.a && !input.s && !input.d && !input.should_close());
}

#[test]
fn key_presses_orders_and_drops_one_shot_moves() {
    let mut input = InputState::new();
    input.handle_key(Key::D, KeyAction::Press);
    input.handle_key(Key::S, KeyAction::Press);
    input.handle_key(Key::A, KeyAction::Press);
    input.handle_key(Key::W, KeyAction::Press);

    let moves = input.key_presses();
    assert_eq!(
        moves,
        vec![
            CameraMove::Forward,
            CameraMove::Backwards,
            CameraMove::Left,
            CameraMove::Right,
        ]
    );

    assert!(!input.w && !input.s && input.a && input.d);
    let again = input.key_presses();
    assert_eq!(again, vec![CameraMove::Left, CameraMove::Right]);
}

#[test]
fn key_presses_with_nothing_held() {
    let mut input = InputState::new();
    let moves = input.key_presses();
    assert!(moves.is_empty());
}

#[test]
fn events_update_state_or_ask_for_a_resize() {
    let mut input = InputState::new();

    let resize = input.handle_event(WindowEvent::Key(Key::W, KeyAction::Press));
    assert_eq!(resize, None);
    assert!(input.w);

    let resize = input.handle_event(WindowEvent::FramebufferSize(1280, 720));
    assert_eq!(resize, Some((1280, 720)));
    assert!(input.w);

    let resize = input.handle_event(WindowEvent::CursorPos);
    assert_eq!(resize, None);
    let resize = input.handle_event(WindowEvent::Other);
    assert_eq!(resize, None);
    assert!(input.w && !input.should_close());
}

#[test]
fn texture_manager_keeps_the_order_of_addition() {
    let mut manager = TextureManager::new();
    assert_eq!(manager.len(), 0);

    manager.add_texture(11);
    manager.add_texture(22);
    assert_eq!(manager.len(), 2);
    assert_eq!(manager.index(0), 11);
    assert_eq!(manager.index(1), 22);
    assert_eq!(manager.textures, vec![11, 22]);
}
