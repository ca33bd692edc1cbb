use ui_widgets::separator::SeparatorOrientation;
use ui_widgets::separator::separator_class;

#[test]
fn test_orientation_default() {
    assert_eq!(SeparatorOrientation::default(), SeparatorOrientation::Horizontal);
}

#[test]
fn test_orientation_classes() {
    assert!(SeparatorOrientation::Horizontal.classes().contains("w-full"));
    assert!(SeparatorOrientation::Vertical.classes().contains("h-full"));
}

#[test]
fn test_aria_orientation() {
    assert_eq!(SeparatorOrientation::Horizontal.aria_orientation(), "horizontal");
    assert_eq!(SeparatorOrientation::Vertical.aria_orientation(), "vertical");
}

#[test]
fn test_separator_class_formats() {
    assert_eq!(
        separator_class(SeparatorOrientation::Horizontal, &None),
        "shrink-0 bg-border h-[1px] w-full"
    );
    assert_eq!(
        separator_class(SeparatorOrientation::Vertical, &Some("mx-2".to_string())),
        "shrink-0 bg-border h-full w-[1px] mx-2"
    );
}
