//! Pure conversions of raw ADC samples used by the sensor examples: a
//! voltmeter scale, a PWM duty mapping, and the light and soil-moisture
//! threshold classifications.

use vstd::prelude::*;

verus! {

/// Millivolts for a raw 12-bit sample against the 3300 mV reference.
pub fn adc_to_millivolts(sample: u16) -> (millivolts: u32)
    ensures
        millivolts == sample * 3300 / 4095,
{
    sample as u32 * 3300 / 4095
}

/// Map a raw 12-bit sample onto the five-bit PWM duty range 0..=31.
pub fn duty_from_sample(sample: u16) -> (duty: u8)
    requires
        sample <= 4095,
    ensures
        duty == sample * 31 / 4095,
        duty <= 31,
{
    proof {
        assert(sample * 31 / 4095 <= 31) by (nonlinear_arith)
            requires
                sample <= 4095,
        ;
    }
    ((sample as u32 * 31) / 4095) as u8
}

/// Which of the three indicator LEDs are lit for a light reading: none in
/// the dark, then one, two, and all three as the reading passes the
/// thresholds 1000, 2000 and 3000.
pub fn light_leds(reading: u16) -> (leds: (bool, bool, bool))
    ensures
        leds.0 == (reading >= 1000),
        leds.1 == (reading >= 2000),
        leds.2 == (reading >= 3000),
{
    if reading < 1000 {
        (false, false, false)
    } else if reading < 2000 {
        (true, false, false)
    } else if reading < 3000 {
        (true, true, false)
    } else {
        (true, true, true)
    }
}

/// The soil-moisture classes reported by the moisture example.
#[derive(PartialEq, Eq, Structural, Clone, Copy, Debug)]
pub enum SoilLevel {
    /// Reading below 1500.
    Wet,
    /// Reading from 1500 to 3200 inclusive.
    Ideal,
    /// Reading above 3200.
    NeedsWater,
}

/// Classify a raw soil-moisture reading.
pub fn classify_soil(reading: u16) -> (level: SoilLevel)
    ensures
        level == SoilLevel::Wet <==> reading < 1500,
        level == SoilLevel::Ideal <==> 1500 <= reading <= 3200,
        level == SoilLevel::NeedsWater <==> reading > 3200,
{
    if reading < 1500 {
        SoilLevel::Wet
    } else if reading <= 3200 {
        SoilLevel::Ideal
    } else {
        SoilLevel::NeedsWater
    }
}

/// Whether the plant monitor raises its dry-soil alarm: only while the
/// light reading is under 2800, the soil reads dry, and the previous
/// reading did not already read dry (or there was none) — so the alarm
/// fires once per transition into dryness.
pub fn needs_water_alert(light: u16, moisture: u16, prev_moisture: Option<u16>) -> (alert: bool)
    ensures
        alert == (light < 2800 && moisture > 3200 && (prev_moisture is None
            || prev_moisture->Some_0 <= 3200)),
{
    let was_wet = match prev_moisture {
        Option::Some(prev) => prev <= 3200,
        Option::None => true,
    };
    light < 2800 && moisture > 3200 && was_wet
}

/// Whether the plant monitor stays in its alarm loop after a fresh pair
/// of readings: only while the soil still reads dry and the light
/// reading has not passed 2800.
pub fn keep_watering_alarm(light: u16, moisture: u16) -> (keep: bool)
    ensures
        keep == (moisture > 3200 && light <= 2800),
{
    moisture > 3200 && light <= 2800
}

/// Which of the voltmeter's six LEDs are lit for a voltage in millivolts:
/// one more for each 500 mV step above the first.
pub fn voltmeter_leds(millivolts: u32) -> (leds: (bool, bool, bool, bool, bool, bool))
    ensures
        leds.0 == (millivolts > 500),
        leds.1 == (millivolts > 1000),
        leds.2 == (millivolts > 1500),
        leds.3 == (millivolts > 2000),
        leds.4 == (millivolts > 2500),
        leds.5 == (millivolts > 3000),
{
    (
        millivolts > 500,
        millivolts > 1000,
        millivolts > 1500,
        millivolts > 2000,
        millivolts > 2500,
        millivolts > 3000,
    )
}

} // verus!
