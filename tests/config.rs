use libsekiro::config::{Indicator, IndicatorConfig, IndicatorType, PlaceholderOption};

#[test]
fn default_indicators() {
    let d = Indicator::default_set();
    assert_eq!(d.len(), 7);
    assert_eq!(d[0], Indicator { indicator: IndicatorType::GameVersion, enabled: true });
    assert_eq!(d[1], Indicator { indicator: IndicatorType::Igt, enabled: true });
    assert!(d[2..].iter().all(|i| !i.enabled));
}

#[test]
fn indicator_keys() {
    let ok = Indicator::from_config(IndicatorConfig { indicator: "framecount".to_string(), enabled: true });
    assert_eq!(ok, Ok(Indicator { indicator: IndicatorType::FrameCount, enabled: true }));
    let err = Indicator::from_config(IndicatorConfig { indicator: "speed".to_string(), enabled: false });
    assert_eq!(err, Err("Unrecognized indicator: speed".to_string()));
}

#[test]
fn placeholder_option() {
    assert_eq!(PlaceholderOption::Data(3).into_option(), Some(3));
    assert_eq!(PlaceholderOption::<u8>::Placeholder(true).into_option(), None);
}
