use scapsrc::frame::BackendPixelTag;
use scapsrc::settings::{PropertyError, PropertyId, PropertyValue, Settings};

#[test]
fn defaults() {
    let s = Settings::default();
    assert_eq!(s.property(PropertyId::Fps), PropertyValue::UInt(25));
    assert_eq!(s.property(PropertyId::ShowCursor), PropertyValue::Bool(true));
    assert_eq!(s.property(PropertyId::PerformInternalPreroll), PropertyValue::Bool(false));
    assert_eq!(PropertyId::Fps.default_value(), PropertyValue::UInt(25));
    assert_eq!(PropertyId::ShowCursor.default_value(), PropertyValue::Bool(true));
    assert_eq!(PropertyId::PerformInternalPreroll.default_value(), PropertyValue::Bool(false));
}

#[test]
fn property_round_trip() {
    let mut s = Settings::default();
    assert_eq!(s.set_property(PropertyId::Fps, PropertyValue::UInt(30)), Ok(()));
    assert_eq!(s.set_property(PropertyId::ShowCursor, PropertyValue::Bool(false)), Ok(()));
    assert_eq!(s.property(PropertyId::Fps), PropertyValue::UInt(30));
    assert_eq!(s.property(PropertyId::ShowCursor), PropertyValue::Bool(false));
    assert_eq!(s.property(PropertyId::PerformInternalPreroll), PropertyValue::Bool(false));
    assert_eq!(s.set_property(PropertyId::PerformInternalPreroll, PropertyValue::Bool(true)), Ok(()));
    assert!(s.perform_internal_preroll);
}

#[test]
fn zero_fps_is_refused() {
    let mut s = Settings::default();
    assert_eq!(s.set_property(PropertyId::Fps, PropertyValue::UInt(0)), Err(PropertyError::OutOfRange));
    assert_eq!(s.fps, 25);
    assert_eq!(s.set_property(PropertyId::Fps, PropertyValue::UInt(1)), Ok(()));
    assert_eq!(s.fps, 1);
}

#[test]
fn wrong_type_is_refused() {
    let mut s = Settings::default();
    assert_eq!(s.set_property(PropertyId::Fps, PropertyValue::Bool(true)), Err(PropertyError::WrongType));
    assert_eq!(
        s.set_property(PropertyId::ShowCursor, PropertyValue::UInt(0)),
        Err(PropertyError::WrongType)
    );
    assert_eq!(s, Settings::default());
}

#[test]
fn names_round_trip() {
    for id in [PropertyId::Fps, PropertyId::ShowCursor, PropertyId::PerformInternalPreroll] {
        assert_eq!(PropertyId::from_name(id.name()), Some(id));
    }
    assert_eq!(PropertyId::from_name("fps"), Some(PropertyId::Fps));
    assert_eq!(PropertyId::from_name("show-cursor"), Some(PropertyId::ShowCursor));
    assert_eq!(
        PropertyId::from_name("perform-internal-preroll"),
        Some(PropertyId::PerformInternalPreroll)
    );
    assert_eq!(PropertyId::from_name("fps2"), None);
    assert_eq!(PropertyId::from_name(""), None);
    assert_eq!(PropertyId::from_name("select-target-cb"), None);
}

#[test]
fn backend_options_follow_settings() {
    let mut s = Settings::default();
    s.set_property(PropertyId::Fps, PropertyValue::UInt(60)).unwrap();
    s.set_property(PropertyId::ShowCursor, PropertyValue::Bool(false)).unwrap();
    let o = s.backend_options();
    assert_eq!(o.fps, 60);
    assert!(!o.show_cursor);
    assert!(o.show_highlight);
    assert_eq!(o.output_layout, BackendPixelTag::Bgr0);
}
