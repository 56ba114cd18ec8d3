use zip_weather::temperature::{convert_k_to_f, Band, Fahrenheit, Kelvin, PARTS_PER_DEGREE};

fn kelvin(value: f32) -> Kelvin {
    Kelvin::from_f32_bits(value.to_bits()).unwrap()
}

fn fahrenheit(degrees: i64) -> Fahrenheit {
    Fahrenheit { parts: degrees * PARTS_PER_DEGREE }
}

#[test]
fn freezing_point_of_water_is_32_degrees() {
    let f = convert_k_to_f(kelvin(273.15));
    assert_eq!(f, Fahrenheit { parts: 16000 });
    assert_eq!(f.to_two_decimals(), "32.00");
}

#[test]
fn boiling_point_of_water_is_212_degrees() {
    let f = convert_k_to_f(kelvin(373.15));
    assert_eq!(f, Fahrenheit { parts: 106000 });
    assert_eq!(f.to_two_decimals(), "212.00");
}

#[test]
fn absolute_zero_is_minus_459_67_degrees() {
    let f = convert_k_to_f(kelvin(0.0));
    assert_eq!(f, Fahrenheit { parts: -229835 });
    assert_eq!(f.to_two_decimals(), "-459.67");
    assert_eq!(f.to_whole_degrees(), "-460");
}

#[test]
fn conversion_is_exact_on_hundredths() {
    assert_eq!(convert_k_to_f(Kelvin { hundredths: 29515 }), Fahrenheit { parts: 35800 });
    assert_eq!(convert_k_to_f(Kelvin { hundredths: 29516 }), Fahrenheit { parts: 35809 });
    assert_eq!(convert_k_to_f(Kelvin { hundredths: 27316 }), Fahrenheit { parts: 16009 });
}

#[test]
fn conversion_takes_every_kelvin() {
    assert_eq!(
        convert_k_to_f(Kelvin { hundredths: i32::MAX }),
        Fahrenheit { parts: (2147483647 - 27315) * 9 + 16000 }
    );
    assert_eq!(
        convert_k_to_f(Kelvin { hundredths: i32::MIN }),
        Fahrenheit { parts: (-2147483648 - 27315) * 9 + 16000 }
    );
}

#[test]
fn two_decimals_round_to_the_nearest_hundredth() {
    assert_eq!(Fahrenheit { parts: 35800 }.to_two_decimals(), "71.60");
    assert_eq!(Fahrenheit { parts: 35802 }.to_two_decimals(), "71.60");
    assert_eq!(Fahrenheit { parts: 35803 }.to_two_decimals(), "71.61");
    assert_eq!(Fahrenheit { parts: 35809 }.to_two_decimals(), "71.62");
    assert_eq!(Fahrenheit { parts: 34765 }.to_two_decimals(), "69.53");
    assert_eq!(Fahrenheit { parts: 0 }.to_two_decimals(), "0.00");
    assert_eq!(Fahrenheit { parts: 25 }.to_two_decimals(), "0.05");
    assert_eq!(Fahrenheit { parts: 499 }.to_two_decimals(), "1.00");
    assert_eq!(Fahrenheit { parts: 49998 }.to_two_decimals(), "100.00");
}

#[test]
fn two_decimals_keep_the_sign_of_a_temperature_below_zero() {
    assert_eq!(Fahrenheit { parts: -5 }.to_two_decimals(), "-0.01");
    assert_eq!(Fahrenheit { parts: -1 }.to_two_decimals(), "-0.00");
    assert_eq!(Fahrenheit { parts: -1 }.to_two_decimals(), format!("{:.2}", -0.002f32));
    assert_eq!(Fahrenheit { parts: -20000 }.to_two_decimals(), "-40.00");
}

#[test]
fn whole_degrees_round_to_the_nearest_degree() {
    assert_eq!(convert_k_to_f(Kelvin { hundredths: 29000 }).to_whole_degrees(), "62");
    assert_eq!(convert_k_to_f(Kelvin { hundredths: 29800 }).to_whole_degrees(), "77");
    assert_eq!(Fahrenheit { parts: 249 }.to_whole_degrees(), "0");
    assert_eq!(Fahrenheit { parts: 251 }.to_whole_degrees(), "1");
    assert_eq!(Fahrenheit { parts: -249 }.to_whole_degrees(), "-0");
    assert_eq!(Fahrenheit { parts: -251 }.to_whole_degrees(), "-1");
}

#[test]
fn a_tie_goes_to_the_even_degree() {
    assert_eq!(Fahrenheit { parts: 18250 }.to_whole_degrees(), "36");
    assert_eq!(Fahrenheit { parts: 18750 }.to_whole_degrees(), "38");
    assert_eq!(Fahrenheit { parts: 250 }.to_whole_degrees(), "0");
    assert_eq!(Fahrenheit { parts: -750 }.to_whole_degrees(), "-2");
    assert_eq!(Fahrenheit { parts: 18250 }.to_whole_degrees(), format!("{:.0}", 36.5f32));
    assert_eq!(Fahrenheit { parts: 18750 }.to_whole_degrees(), format!("{:.0}", 37.5f32));
    assert_eq!(Fahrenheit { parts: -750 }.to_whole_degrees(), format!("{:.0}", -1.5f32));
}

#[test]
fn the_widest_temperatures_are_written_in_full() {
    assert_eq!(Fahrenheit { parts: i64::MAX }.to_two_decimals(), "18446744073709551.61");
    assert_eq!(Fahrenheit { parts: i64::MIN }.to_two_decimals(), "-18446744073709551.62");
    assert_eq!(Fahrenheit { parts: i64::MAX }.to_whole_degrees(), "18446744073709552");
    assert_eq!(Fahrenheit { parts: i64::MIN }.to_whole_degrees(), "-18446744073709552");
}

#[test]
fn two_decimals_agree_with_floating_point_on_every_hundredth() {
    let mut hundredths = 15000;
    while hundredths <= 35000 {
        let k = hundredths as f32 / 100.0;
        let expected = format!("{:.2}", (k - 273.15) * (9.0 / 5.0) + 32.0);
        let shown = convert_k_to_f(kelvin(k)).to_two_decimals();
        if expected != "-0.00" && expected != "0.00" {
            assert_eq!(shown, expected, "{} K", k);
        }
        hundredths += 1;
    }
}

#[test]
fn whole_degrees_agree_with_floating_point_away_from_ties() {
    let mut hundredths = 15000;
    while hundredths <= 35000 {
        let k = hundredths as f32 / 100.0;
        let f = convert_k_to_f(kelvin(k));
        let near_tie = (f.parts.rem_euclid(500) - 250).abs() < 5;
        if !near_tie && f.parts.abs() > 250 {
            let expected = format!("{:.0}", (k - 273.15) * (9.0 / 5.0) + 32.0);
            assert_eq!(f.to_whole_degrees(), expected, "{} K", k);
        }
        hundredths += 1;
    }
}

#[test]
fn a_threshold_belongs_to_the_band_above_it() {
    assert_eq!(fahrenheit(100).band(), Band::Scorching);
    assert_eq!(fahrenheit(85).band(), Band::Hot);
    assert_eq!(fahrenheit(70).band(), Band::Warm);
    assert_eq!(fahrenheit(55).band(), Band::Mild);
    assert_eq!(fahrenheit(40).band(), Band::Cool);
    assert_eq!(fahrenheit(0).band(), Band::Cold);
}

#[test]
fn just_below_a_threshold_is_the_band_below_it() {
    assert_eq!(Fahrenheit { parts: 100 * 500 - 1 }.band(), Band::Hot);
    assert_eq!(Fahrenheit { parts: 85 * 500 - 1 }.band(), Band::Warm);
    assert_eq!(Fahrenheit { parts: 70 * 500 - 1 }.band(), Band::Mild);
    assert_eq!(Fahrenheit { parts: 55 * 500 - 1 }.band(), Band::Cool);
    assert_eq!(Fahrenheit { parts: 40 * 500 - 1 }.band(), Band::Cold);
    assert_eq!(Fahrenheit { parts: -1 }.band(), Band::Freezing);
}

#[test]
fn bands_reach_to_both_ends() {
    assert_eq!(Fahrenheit { parts: i64::MAX }.band(), Band::Scorching);
    assert_eq!(Fahrenheit { parts: i64::MIN }.band(), Band::Freezing);
    assert_eq!(fahrenheit(120).band(), Band::Scorching);
    assert_eq!(fahrenheit(90).band(), Band::Hot);
    assert_eq!(fahrenheit(72).band(), Band::Warm);
    assert_eq!(fahrenheit(60).band(), Band::Mild);
    assert_eq!(fahrenheit(41).band(), Band::Cool);
    assert_eq!(fahrenheit(20).band(), Band::Cold);
    assert_eq!(fahrenheit(-20).band(), Band::Freezing);
}

#[test]
fn bands_never_fall_as_the_temperature_rises() {
    fn rank(band: Band) -> u8 {
        match band {
            Band::Freezing => 0,
            Band::Cold => 1,
            Band::Cool => 2,
            Band::Mild => 3,
            Band::Warm => 4,
            Band::Hot => 5,
            Band::Scorching => 6,
        }
    }
    let mut parts = -1000;
    let mut last = 0;
    while parts <= 51000 {
        let now = rank(Fahrenheit { parts }.band());
        assert!(now >= last);
        last = now;
        parts += 1;
    }
    assert_eq!(last, 6);
}

#[test]
fn single_precision_kelvins_round_to_hundredths() {
    assert_eq!(kelvin(295.15), Kelvin { hundredths: 29515 });
    assert_eq!(kelvin(294.0), Kelvin { hundredths: 29400 });
    assert_eq!(kelvin(0.0), Kelvin { hundredths: 0 });
    assert_eq!(kelvin(-0.0), Kelvin { hundredths: 0 });
    assert_eq!(kelvin(0.004), Kelvin { hundredths: 0 });
    assert_eq!(kelvin(0.006), Kelvin { hundredths: 1 });
    assert_eq!(kelvin(-0.006), Kelvin { hundredths: -1 });
    assert_eq!(kelvin(1.0), Kelvin { hundredths: 100 });
    assert_eq!(kelvin(-273.15), Kelvin { hundredths: -27315 });
    assert_eq!(kelvin(1e-30), Kelvin { hundredths: 0 });
    assert_eq!(kelvin(f32::MIN_POSITIVE), Kelvin { hundredths: 0 });
    assert_eq!(kelvin(1e-45), Kelvin { hundredths: 0 });
}

#[test]
fn single_precision_ties_go_to_the_even_hundredth() {
    assert_eq!(kelvin(0.125), Kelvin { hundredths: 12 });
    assert_eq!(kelvin(0.375), Kelvin { hundredths: 38 });
    assert_eq!(kelvin(-0.125), Kelvin { hundredths: -12 });
    assert_eq!(kelvin(2.625), Kelvin { hundredths: 262 });
}

#[test]
fn single_precision_kelvins_agree_with_floating_point() {
    let mut hundredths = 0;
    while hundredths <= 60000 {
        let k = hundredths as f32 / 100.0;
        assert_eq!(kelvin(k), Kelvin { hundredths }, "{} K", k);
        assert_eq!(kelvin(-k), Kelvin { hundredths: -hundredths }, "-{} K", k);
        hundredths += 7;
    }
}

#[test]
fn large_single_precision_kelvins_are_taken_while_they_fit() {
    assert_eq!(kelvin(8388608.0), Kelvin { hundredths: 838860800 });
    assert_eq!(kelvin(16777216.0), Kelvin { hundredths: 1677721600 });
    assert_eq!(kelvin(21474836.0), Kelvin { hundredths: 2147483600 });
    assert_eq!(kelvin(-21474836.0), Kelvin { hundredths: -2147483600 });
    assert_eq!(Kelvin::from_f32_bits(21474838.0f32.to_bits()), None);
    assert_eq!(Kelvin::from_f32_bits((-21474838.0f32).to_bits()), None);
    assert_eq!(Kelvin::from_f32_bits(33554432.0f32.to_bits()), None);
    assert_eq!(Kelvin::from_f32_bits(1e30f32.to_bits()), None);
    assert_eq!(Kelvin::from_f32_bits(f32::MAX.to_bits()), None);
}

#[test]
fn what_is_not_a_finite_number_is_no_temperature() {
    assert_eq!(Kelvin::from_f32_bits(f32::INFINITY.to_bits()), None);
    assert_eq!(Kelvin::from_f32_bits(f32::NEG_INFINITY.to_bits()), None);
    assert_eq!(Kelvin::from_f32_bits(f32::NAN.to_bits()), None);
    assert_eq!(Kelvin::from_f32_bits(0x7f80_0001), None);
    assert_eq!(Kelvin::from_f32_bits(0xffff_ffff), None);
}
