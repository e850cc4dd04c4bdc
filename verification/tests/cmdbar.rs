use cmdbar::config::{launch_config, platform_window_config, window_config};
use cmdbar::state::{CommandBar, Message};
use cmdbar::style::{ApplicationStyles, Rgba, SearchInputStyles};
use cmdbar::view::field_layout;

#[test]
fn new_bar_is_empty() {
    let bar = CommandBar::new();
    assert_eq!(bar.text, "");
}

#[test]
fn title_is_cmdbar() {
    let bar = CommandBar::new();
    assert_eq!(bar.title(), "cmdbar");
}

#[test]
fn update_stores_the_event_text() {
    let mut bar = CommandBar::new();
    bar.update(Message::InputChanged(String::from("open terminal")));
    assert_eq!(bar.text, "open terminal");
}

#[test]
fn update_replaces_earlier_text() {
    let mut bar = CommandBar::new();
    bar.update(Message::InputChanged(String::from("first")));
    bar.update(Message::InputChanged(String::from("second")));
    assert_eq!(bar.text, "second");
}

#[test]
fn update_accepts_empty_text() {
    let mut bar = CommandBar::new();
    bar.update(Message::InputChanged(String::from("something")));
    bar.update(Message::InputChanged(String::new()));
    assert_eq!(bar.text, "");
}

#[test]
fn field_appearance_is_bare_in_every_state() {
    let styles = SearchInputStyles;
    let active = styles.active();
    assert_eq!(active.background, Rgba { red: 0, green: 0, blue: 0, alpha: 0 });
    assert_eq!(active.border_radius, 0);
    assert_eq!(active.border_width, 0);
    assert_eq!(active.border_color, Rgba { red: 0, green: 0, blue: 0, alpha: 0 });
    assert_eq!(active.icon_color, Rgba { red: 0, green: 0, blue: 0, alpha: 0 });
    assert_eq!(styles.focused(), active);
    assert_eq!(styles.hovered(), active);
    assert_eq!(styles.disabled(), active);
}

#[test]
fn field_colors() {
    let styles = SearchInputStyles;
    assert_eq!(
        styles.placeholder_color(),
        Rgba { red: 65, green: 65, blue: 65, alpha: 255 }
    );
    assert_eq!(
        styles.value_color(),
        Rgba { red: 255, green: 255, blue: 255, alpha: 255 }
    );
    assert_eq!(
        styles.disabled_color(),
        Rgba { red: 0, green: 0, blue: 0, alpha: 0 }
    );
    assert_eq!(
        styles.selection_color(),
        Rgba { red: 116, green: 164, blue: 188, alpha: 255 }
    );
}

#[test]
fn window_is_painted_transparent() {
    let appearance = ApplicationStyles.appearance();
    assert_eq!(
        appearance.background_color,
        Rgba { red: 0, green: 0, blue: 0, alpha: 0 }
    );
    assert_eq!(
        appearance.text_color,
        Rgba { red: 0, green: 0, blue: 0, alpha: 0 }
    );
}

#[test]
fn platform_config_strips_the_titlebar_only_on_macos() {
    let mac = platform_window_config(true);
    assert!(mac.title_hidden);
    assert!(mac.titlebar_transparent);
    assert!(mac.fullsize_content_view);

    let other = platform_window_config(false);
    assert!(!other.title_hidden);
    assert!(!other.titlebar_transparent);
    assert!(!other.fullsize_content_view);
}

#[test]
fn window_config_is_a_fixed_topmost_strip() {
    let window = window_config(false);
    assert_eq!(window.width, 800);
    assert_eq!(window.height, 50);
    assert!(window.visible);
    assert!(!window.resizable);
    assert!(window.decorations);
    assert!(window.transparent);
    assert!(window.always_on_top);
    assert!(!window.close_button);
    assert!(!window.minimize_button);
    assert!(!window.maximize_button);
}

#[test]
fn launch_config_values() {
    let launch = launch_config(true);
    assert_eq!(launch.window, window_config(true));
    assert_eq!(launch.text_size_points, 18);
    assert!(launch.antialiasing);
    assert!(launch.exit_on_close_request);
}

#[test]
fn field_layout_values() {
    let layout = field_layout();
    assert_eq!(layout.placeholder, "Search");
    assert_eq!(layout.padding, 8);
    assert_eq!(layout.font_family, "SF Pro Text");
    assert!(layout.bold);
    assert!(!layout.monospaced);
    assert!(layout.fill_width);
    assert!(layout.center_x);
    assert!(layout.center_y);
}
