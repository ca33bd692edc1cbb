use ui_widgets::avatar::AvatarProps;
use ui_widgets::avatar::AvatarSize;
use ui_widgets::avatar::DisplayMode;
use ui_widgets::avatar::DisplayState;
use ui_widgets::avatar::derive_initials;
use ui_widgets::avatar::parse_size;
use ui_widgets::avatar::resolve_container_class;
use ui_widgets::avatar::resolve_display_mode;
use ui_widgets::avatar::resolve_fallback_text;
use ui_widgets::avatar::resolve_fallback_text_class;

fn props(
    alt: &str,
    src: Option<&str>,
    fallback: Option<&str>,
    size: AvatarSize,
    class: Option<&str>,
) -> AvatarProps {
    AvatarProps {
        alt: alt.to_string(),
        src: src.map(|s| s.to_string()),
        fallback: fallback.map(|s| s.to_string()),
        size,
        class: class.map(|s| s.to_string()),
    }
}

#[test]
fn test_avatar_size_default() {
    let size = AvatarSize::default();
    assert_eq!(size, AvatarSize::Default);
}

#[test]
fn test_avatar_size_classes() {
    assert_eq!(AvatarSize::Sm.classes(), "h-8 w-8");
    assert_eq!(AvatarSize::Default.classes(), "h-10 w-10");
    assert_eq!(AvatarSize::Lg.classes(), "h-12 w-12");
}

#[test]
fn test_avatar_text_sizes() {
    assert_eq!(AvatarSize::Sm.text_size(), "text-xs");
    assert_eq!(AvatarSize::Default.text_size(), "text-sm");
    assert_eq!(AvatarSize::Lg.text_size(), "text-base");
}

#[test]
fn test_all_sizes_have_classes() {
    let sizes = vec![AvatarSize::Sm, AvatarSize::Default, AvatarSize::Lg];

    for size in sizes {
        assert!(!size.classes().is_empty(), "Size {:?} should have classes", size);
        assert!(!size.text_size().is_empty(), "Size {:?} should have text size", size);
    }
}

#[test]
fn test_initial_state_with_source() {
    let p = props("User", Some("https://x/y.png"), None, AvatarSize::Default, None);
    let s = DisplayState::initialize(&p);
    assert!(s.image_loaded);
    assert!(!s.image_error);
}

#[test]
fn test_initial_state_without_source() {
    let p = props("User", None, None, AvatarSize::Default, None);
    let s = DisplayState::initialize(&p);
    assert!(!s.image_loaded);
    assert!(!s.image_error);
}

#[test]
fn test_display_mode_image_iff_source_and_no_error() {
    let with_src = props("User", Some("https://x/y.png"), None, AvatarSize::Default, None);
    let without_src = props("User", None, None, AvatarSize::Default, None);
    let clean = DisplayState { image_loaded: true, image_error: false };
    let errored = DisplayState { image_loaded: false, image_error: true };
    let pending = DisplayState { image_loaded: false, image_error: false };

    assert_eq!(resolve_display_mode(&with_src, &clean), DisplayMode::Image);
    assert_eq!(resolve_display_mode(&with_src, &pending), DisplayMode::Image);
    assert_eq!(resolve_display_mode(&with_src, &errored), DisplayMode::Fallback);
    assert_eq!(resolve_display_mode(&without_src, &clean), DisplayMode::Fallback);
    assert_eq!(resolve_display_mode(&without_src, &pending), DisplayMode::Fallback);
    assert_eq!(resolve_display_mode(&without_src, &errored), DisplayMode::Fallback);
}

#[test]
fn test_fallback_text_derivations() {
    let two_words = props("John Doe", None, None, AvatarSize::Default, None);
    assert_eq!(resolve_fallback_text(&two_words), "JD");

    let one_word = props("alice", None, None, AvatarSize::Default, None);
    assert_eq!(resolve_fallback_text(&one_word), "A");

    let empty = props("", None, None, AvatarSize::Default, None);
    assert_eq!(resolve_fallback_text(&empty), "");

    let explicit = props("ignored", None, Some("XY"), AvatarSize::Default, None);
    assert_eq!(resolve_fallback_text(&explicit), "XY");
}

#[test]
fn test_fallback_text_uppercases_initials() {
    let p = props("john doe", None, None, AvatarSize::Default, None);
    assert_eq!(resolve_fallback_text(&p), "JD");
}

#[test]
fn test_fallback_text_edge_cases() {
    let spaces = props("   ", None, None, AvatarSize::Default, None);
    assert_eq!(resolve_fallback_text(&spaces), "");

    let three_words = props("Ada Byron Lovelace", None, None, AvatarSize::Default, None);
    assert_eq!(resolve_fallback_text(&three_words), "AB");

    let empty_fallback = props("John Doe", None, Some(""), AvatarSize::Default, None);
    assert_eq!(resolve_fallback_text(&empty_fallback), "JD");
}

#[test]
fn test_derive_initials() {
    assert_eq!(derive_initials("John Doe"), "JD");
    assert_eq!(derive_initials("  mixed   spacing  here "), "ms");
    assert_eq!(derive_initials(""), "");
}

#[test]
fn test_load_and_error_idempotent() {
    let mut once = DisplayState { image_loaded: false, image_error: true };
    let mut twice = once;
    once.on_image_load();
    twice.on_image_load();
    twice.on_image_load();
    assert_eq!(once, twice);

    let mut once = DisplayState { image_loaded: true, image_error: false };
    let mut twice = once;
    once.on_image_error();
    twice.on_image_error();
    twice.on_image_error();
    assert_eq!(once, twice);
}

#[test]
fn test_last_event_wins() {
    let mut s = DisplayState { image_loaded: true, image_error: false };
    s.on_image_error();
    s.on_image_load();
    assert_eq!(s, DisplayState { image_loaded: true, image_error: false });

    let mut s = DisplayState { image_loaded: true, image_error: false };
    s.on_image_load();
    s.on_image_error();
    assert_eq!(s, DisplayState { image_loaded: false, image_error: true });
}

#[test]
fn test_container_class_formats() {
    let p = props("User", Some("https://x/y.png"), None, AvatarSize::Default, None);
    let clean = DisplayState { image_loaded: true, image_error: false };
    assert_eq!(
        resolve_container_class(&p, &clean),
        "relative flex shrink-0 overflow-hidden rounded-full h-10 w-10 "
    );

    let errored = DisplayState { image_loaded: false, image_error: true };
    assert_eq!(
        resolve_container_class(&p, &errored),
        "relative flex shrink-0 overflow-hidden rounded-full h-10 w-10 bg-muted"
    );

    let with_extra = props("User", None, None, AvatarSize::Sm, Some("ring-2"));
    let pending = DisplayState { image_loaded: false, image_error: false };
    assert_eq!(
        resolve_container_class(&with_extra, &pending),
        "relative flex shrink-0 overflow-hidden rounded-full h-8 w-8 bg-muted ring-2"
    );
}

#[test]
fn test_fallback_text_class_formats() {
    let p = props("User", None, None, AvatarSize::Lg, None);
    assert_eq!(
        resolve_fallback_text_class(&p),
        "flex h-full w-full items-center justify-center font-medium text-base"
    );
}

#[test]
fn test_parse_size() {
    assert_eq!(parse_size("sm"), AvatarSize::Sm);
    assert_eq!(parse_size("SM"), AvatarSize::Sm);
    assert_eq!(parse_size("Lg"), AvatarSize::Lg);
    assert_eq!(parse_size("default"), AvatarSize::Default);
    assert_eq!(parse_size("huge"), AvatarSize::Default);
}

#[test]
fn test_scenario_image_then_error() {
    let p = props("User Avatar", Some("https://x/y.png"), None, AvatarSize::Default, None);
    let mut s = DisplayState::initialize(&p);
    assert_eq!(resolve_display_mode(&p, &s), DisplayMode::Image);
    s.on_image_error();
    assert_eq!(resolve_display_mode(&p, &s), DisplayMode::Fallback);
    assert_eq!(resolve_fallback_text(&p), "UA");
}

#[test]
fn test_scenario_explicit_fallback() {
    let p = props("John Doe", None, Some("JD"), AvatarSize::Default, None);
    let mut s = DisplayState::initialize(&p);
    assert_eq!(resolve_display_mode(&p, &s), DisplayMode::Fallback);
    s.on_image_load();
    s.on_image_error();
    assert_eq!(resolve_display_mode(&p, &s), DisplayMode::Fallback);
    assert_eq!(resolve_fallback_text(&p), "JD");
}
