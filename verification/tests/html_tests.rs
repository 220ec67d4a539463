//! Tests of the page scraper and the remaining small conversions.

use edgecore::adc::{
    adc_to_millivolts, classify_soil, duty_from_sample, keep_watering_alarm, light_leds,
    needs_water_alert, voltmeter_leds, SoilLevel,
};
use edgecore::html::{extract_by_id, scan_chunk, ChunkScan};
use edgecore::sdtime::{DummyTimesource, SdTimestamp};

#[test]
fn extracts_simple_element_content() {
    let html = r#"<html><div id="clk_hm">12:34</div></html>"#;
    let content = extract_by_id(html, "clk_hm").unwrap();
    assert_eq!(content.as_str(), "12:34");
}

#[test]
fn extracts_with_attributes_after_the_tag_name() {
    let html = r#"<span class="big" id="ij0">56</span>"#;
    let content = extract_by_id(html, "ij0").unwrap();
    assert_eq!(content.as_str(), "56");
}

#[test]
fn skips_a_self_closing_tag_and_finds_a_later_one() {
    let html = r#"<img id="x"/><p id="x">later</p>"#;
    let content = extract_by_id(html, "x").unwrap();
    assert_eq!(content.as_str(), "later");
}

#[test]
fn returns_nothing_without_a_closing_tag() {
    let html = r#"<div id="x">never closed"#;
    assert!(extract_by_id(html, "x").is_none());
}

#[test]
fn returns_nothing_when_the_id_is_absent() {
    let html = r#"<div id="other">text</div>"#;
    assert!(extract_by_id(html, "x").is_none());
}

#[test]
fn skips_content_that_does_not_fit_and_takes_a_later_match() {
    let long = "y".repeat(300);
    let html = format!(
        r#"<div id="x">{}</div><div id="x">short</div>"#,
        long
    );
    let content = extract_by_id(&html, "x").unwrap();
    assert_eq!(content.as_str(), "short");
}

#[test]
fn content_at_the_capacity_boundary() {
    let exactly = "z".repeat(256);
    let html = format!(r#"<div id="x">{}</div>"#, exactly);
    let content = extract_by_id(&html, "x").unwrap();
    assert_eq!(content.as_str(), exactly.as_str());

    let over = "z".repeat(257);
    let html = format!(r#"<div id="x">{}</div>"#, over);
    assert!(extract_by_id(&html, "x").is_none());
}

#[test]
fn scan_chunk_combines_both_fields() {
    let chunk = r#"<span id="clk_hm">12:34</span><span id="ij0">56</span>"#;
    match scan_chunk(chunk) {
        ChunkScan::Found(text) => assert_eq!(text.as_str(), "12:34:56"),
        _ => panic!("expected a combined reading"),
    }
}

#[test]
fn scan_chunk_keeps_reading_when_a_field_is_missing() {
    let chunk = r#"<span id="clk_hm">12:34</span>"#;
    assert!(matches!(scan_chunk(chunk), ChunkScan::NotYet));
}

#[test]
fn scan_chunk_reports_an_oversized_combination() {
    let chunk = format!(
        r#"<i id="clk_hm">{}</i><i id="ij0">{}</i>"#,
        "1".repeat(20),
        "2".repeat(20)
    );
    assert!(matches!(scan_chunk(&chunk), ChunkScan::TooLong));
}

#[test]
fn millivolt_scale() {
    assert_eq!(adc_to_millivolts(0), 0);
    assert_eq!(adc_to_millivolts(4095), 3300);
    assert_eq!(adc_to_millivolts(2048), 1650);
}

#[test]
fn duty_scale() {
    assert_eq!(duty_from_sample(0), 0);
    assert_eq!(duty_from_sample(4095), 31);
    assert_eq!(duty_from_sample(2047), 15);
}

#[test]
fn light_led_thresholds() {
    assert_eq!(light_leds(999), (false, false, false));
    assert_eq!(light_leds(1000), (true, false, false));
    assert_eq!(light_leds(1999), (true, false, false));
    assert_eq!(light_leds(2000), (true, true, false));
    assert_eq!(light_leds(3000), (true, true, true));
}

#[test]
fn soil_classes() {
    assert_eq!(classify_soil(1499), SoilLevel::Wet);
    assert_eq!(classify_soil(1500), SoilLevel::Ideal);
    assert_eq!(classify_soil(3200), SoilLevel::Ideal);
    assert_eq!(classify_soil(3201), SoilLevel::NeedsWater);
}

#[test]
fn voltmeter_led_thresholds() {
    assert_eq!(voltmeter_leds(500), (false, false, false, false, false, false));
    assert_eq!(voltmeter_leds(501), (true, false, false, false, false, false));
    assert_eq!(voltmeter_leds(2501), (true, true, true, true, true, false));
    assert_eq!(voltmeter_leds(3300), (true, true, true, true, true, true));
}

#[test]
fn water_alert_fires_on_the_transition_into_dryness() {
    // First reading ever, dark enough, dry soil: alarm.
    assert!(needs_water_alert(2000, 3300, None));
    // Previous reading was wet: still a fresh transition.
    assert!(needs_water_alert(2000, 3300, Some(3000)));
    // Already dry before: no second alarm.
    assert!(!needs_water_alert(2000, 3300, Some(3250)));
    // Too bright, or soil not dry: no alarm.
    assert!(!needs_water_alert(2800, 3300, None));
    assert!(!needs_water_alert(2000, 3200, None));
}

#[test]
fn watering_alarm_continues_only_while_dark_and_dry() {
    assert!(keep_watering_alarm(2800, 3201));
    assert!(!keep_watering_alarm(2801, 3201));
    assert!(!keep_watering_alarm(2800, 3200));
}

#[test]
fn dummy_timesource_reports_the_epoch() {
    let ts = DummyTimesource::default().get_timestamp();
    assert_eq!(
        ts,
        SdTimestamp {
            year_since_1970: 0,
            zero_indexed_month: 0,
            zero_indexed_day: 0,
            hours: 0,
            minutes: 0,
            seconds: 0,
        }
    );
}
