use openttd_savegame::gfx::{Colour, Rect};
use openttd_savegame::video::{DirtyRect, Event, KeyModifiers, MouseButton, Palette, WindowEvent};
use openttd_savegame::widgets::{PanelWidget, WidgetBase, WidgetType};

#[test]
fn test_dirty_rect_empty() {
    let rect = DirtyRect::default();
    assert!(rect.is_empty());
}

#[test]
fn test_dirty_rect_expand() {
    let mut rect = DirtyRect::default();
    rect.expand(10, 20, 100, 200);
    assert!(!rect.is_empty());
    assert_eq!(rect.left, 10);
    assert_eq!(rect.top, 20);
    assert_eq!(rect.right, 100);
    assert_eq!(rect.bottom, 200);
    rect.expand(5, 15, 150, 250);
    assert_eq!(rect.left, 5);
    assert_eq!(rect.top, 15);
    assert_eq!(rect.right, 150);
    assert_eq!(rect.bottom, 250);
}

#[test]
fn test_dirty_rect_to_sdl() {
    let mut rect = DirtyRect::default();
    assert!(rect.to_sdl_rect().is_none());
    rect.expand(10, 20, 110, 120);
    let sdl_rect = rect.to_sdl_rect().unwrap();
    assert_eq!(sdl_rect.x, 10);
    assert_eq!(sdl_rect.y, 20);
    assert_eq!(sdl_rect.width, 100);
    assert_eq!(sdl_rect.height, 100);
    rect.clear();
    assert!(rect.is_empty());
    assert_eq!(rect, DirtyRect::default());
    assert_eq!(Rect::new(1, 2, 3, 4).width, 3);
}

#[test]
fn test_palette_dirty_tracking() {
    let mut palette = Palette::default();
    assert_eq!(palette.count_dirty, 0);
    palette.mark_dirty(10, 5);
    assert_eq!(palette.first_dirty, 10);
    assert_eq!(palette.count_dirty, 5);
    palette.mark_dirty(5, 3);
    assert_eq!(palette.first_dirty, 5);
    assert_eq!(palette.count_dirty, 10);
    palette.clear_dirty();
    assert_eq!(palette.count_dirty, 0);
}

#[test]
fn test_palette_set_color() {
    let mut palette = Palette::default();
    let red = Colour::rgb(255, 0, 0);
    palette.set_color(42, red);
    assert_eq!(palette.colors[42], red);
    assert_eq!(palette.first_dirty, 42);
    assert_eq!(palette.count_dirty, 1);
    assert_eq!(palette.colors[7], Colour::rgb(7, 7, 7));
    palette.set_color(300, red);
    assert_eq!(palette.count_dirty, 1);
}

#[test]
fn test_event_types() {
    let quit = Event::Quit;
    assert!(quit.is_quit());
    let motion = Event::MouseMotion { x: 100, y: 200, xrel: 5, yrel: -3 };
    assert!(!motion.is_quit());
    let left_down = Event::MouseButtonDown { button: MouseButton::Left, x: 50, y: 75 };
    assert!(!left_down.is_quit());
    let key_down = Event::KeyDown {
        keycode: 65,
        scancode: 4,
        modifiers: KeyModifiers { shift: true, ctrl: false, alt: false, gui: false },
    };
    assert!(!key_down.is_fullscreen_toggle());
    let fullscreen = Event::KeyDown {
        keycode: 13,
        scancode: 40,
        modifiers: KeyModifiers { shift: false, ctrl: false, alt: true, gui: false },
    };
    assert!(fullscreen.is_fullscreen_toggle());
    let text = Event::TextInput { text: "Hello".to_string() };
    assert!(!text.is_quit());
    let window = Event::Window(WindowEvent::SizeChanged { width: 1024, height: 768 });
    assert!(!window.is_quit());
}

#[test]
fn test_key_modifiers() {
    let none = KeyModifiers::default();
    assert!(!none.shift);
    assert!(!none.ctrl);
    assert!(!none.alt);
    assert!(!none.gui);
    let all = KeyModifiers { shift: true, ctrl: true, alt: true, gui: true };
    assert!(all.shift);
    assert!(all.ctrl);
    assert!(all.alt);
    assert!(all.gui);
}

#[test]
fn test_mouse_buttons() {
    let buttons = vec![
        MouseButton::Left,
        MouseButton::Right,
        MouseButton::Middle,
        MouseButton::X1,
        MouseButton::X2,
    ];
    for (i, button) in buttons.iter().enumerate() {
        for (j, other) in buttons.iter().enumerate() {
            if i == j {
                assert_eq!(button, other);
            } else {
                assert_ne!(button, other);
            }
        }
    }
}

#[test]
fn test_window_events() {
    let events = vec![
        WindowEvent::Exposed,
        WindowEvent::SizeChanged { width: 800, height: 600 },
        WindowEvent::MouseEnter,
        WindowEvent::MouseLeave,
        WindowEvent::FocusGained,
        WindowEvent::FocusLost,
    ];
    for event in events {
        let wrapped = Event::Window(event);
        assert!(!wrapped.is_quit());
    }
}

#[test]
fn test_widget_base() {
    let widget = WidgetBase::new(1, WidgetType::Panel);
    assert_eq!(widget.id, 1);
    assert_eq!(widget.widget_type, WidgetType::Panel);
    assert!(widget.visible);
    assert!(widget.enabled);
}

#[test]
fn test_panel_widget() {
    let panel = PanelWidget::new(1).with_colour(Colour::rgba(100, 100, 100, 255)).with_border(false);
    assert_eq!(panel.base.id, 1);
    assert_eq!(panel.base.widget_type, WidgetType::Panel);
    assert!(panel.base.visible);
    assert!(panel.base.enabled);
}
