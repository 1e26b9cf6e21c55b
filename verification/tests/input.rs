use rustednes_cosmic::input::{keymap, Button, KeyCode};

#[test]
fn keymap_maps_every_bound_key() {
    assert_eq!(keymap(KeyCode::KeyX), Some(Button::A));
    assert_eq!(keymap(KeyCode::KeyZ), Some(Button::B));
    assert_eq!(keymap(KeyCode::Space), Some(Button::Select));
    assert_eq!(keymap(KeyCode::Enter), Some(Button::Start));
    assert_eq!(keymap(KeyCode::ArrowUp), Some(Button::Up));
    assert_eq!(keymap(KeyCode::ArrowDown), Some(Button::Down));
    assert_eq!(keymap(KeyCode::ArrowLeft), Some(Button::Left));
    assert_eq!(keymap(KeyCode::ArrowRight), Some(Button::Right));
}

#[test]
fn keymap_leaves_other_keys_unbound() {
    assert_eq!(keymap(KeyCode::Other), None);
}
