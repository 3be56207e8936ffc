use rev_led_driver::Pattern;

fn table() -> Vec<(Pattern, u8)> {
    vec![
        (Pattern::Rainbow, 1),
        (Pattern::RainbowParty, 3),
        (Pattern::RainbowOcean, 5),
        (Pattern::RainbowLava, 7),
        (Pattern::RainbowForest, 9),
        (Pattern::RainbowGlitter, 11),
        (Pattern::Confetti, 13),
        (Pattern::RedShot, 15),
        (Pattern::BlueShot, 17),
        (Pattern::WhiteShot, 19),
        (Pattern::SinelonRainbow, 21),
        (Pattern::SinelonParty, 23),
        (Pattern::SinelonOcean, 25),
        (Pattern::SinelonLava, 27),
        (Pattern::SinelonForest, 29),
        (Pattern::BpmRainbow, 31),
        (Pattern::BpmOcean, 35),
        (Pattern::BpmLava, 37),
        (Pattern::BpmForest, 39),
        (Pattern::FireMedium, 41),
        (Pattern::FireLarge, 43),
        (Pattern::TwinklesRainbow, 45),
        (Pattern::TwinklesParty, 47),
        (Pattern::TwinklesOcean, 49),
        (Pattern::TwinklesLava, 51),
        (Pattern::TwinklesForest, 53),
        (Pattern::WavesRainbow, 55),
        (Pattern::WavesParty, 57),
        (Pattern::WavesOcean, 59),
        (Pattern::WavesLava, 61),
        (Pattern::WavesForest, 63),
        (Pattern::LarsonRed, 65),
        (Pattern::LarsonGray, 67),
        (Pattern::ChaseRed, 69),
        (Pattern::ChaseBlue, 71),
        (Pattern::ChaseGray, 73),
        (Pattern::HeartbeatRed, 75),
        (Pattern::HeartbeatBlue, 77),
        (Pattern::HeartbeatWhite, 79),
        (Pattern::HeartbeatGray, 81),
        (Pattern::BreathRed, 83),
        (Pattern::BreathBlue, 85),
        (Pattern::BreathGray, 87),
        (Pattern::StrobeBlue, 91),
        (Pattern::StrobeGold, 93),
        (Pattern::StrobeWhite, 95),
        (Pattern::Color1BlendToBlack, 97),
        (Pattern::Color1Larson, 99),
        (Pattern::Color1Chase, 101),
        (Pattern::Color1HeartbeatSlow, 103),
        (Pattern::Color1HeartbeatMedium, 105),
        (Pattern::Color1HeartbeatFast, 107),
        (Pattern::Color1BreathSlow, 109),
        (Pattern::Color1BreathFast, 111),
        (Pattern::Color1Shot, 113),
        (Pattern::Color1Strobe, 115),
        (Pattern::Color2BlendToBlack, 117),
        (Pattern::Color2Larson, 119),
        (Pattern::Color2Chase, 121),
        (Pattern::Color2HeartbeatSlow, 123),
        (Pattern::Color2HeartbeatMedium, 125),
        (Pattern::Color2HeartbeatFast, 127),
        (Pattern::Color2BreathSlow, 129),
        (Pattern::Color2BreathFast, 131),
        (Pattern::Color2Shot, 133),
        (Pattern::Color2Strobe, 135),
        (Pattern::Sparkle1On2, 137),
        (Pattern::Sparkle2On1, 139),
        (Pattern::Gradient1And2, 141),
        (Pattern::Bpm1And2, 143),
        (Pattern::EndBlend1And2, 145),
        (Pattern::EndBlend, 147),
        (Pattern::Color1And2NoBlend, 149),
        (Pattern::Twinkle1And2, 151),
        (Pattern::Waves1And2, 153),
        (Pattern::Sinelon1And2, 155),
        (Pattern::HotPink, 157),
        (Pattern::DarkRed, 159),
        (Pattern::Red, 161),
        (Pattern::RedOrange, 163),
        (Pattern::Orange, 165),
        (Pattern::Gold, 167),
        (Pattern::Yellow, 169),
        (Pattern::LawnGreen, 171),
        (Pattern::Lime, 173),
        (Pattern::DarkGreen, 175),
        (Pattern::Green, 177),
        (Pattern::BlueGreen, 179),
        (Pattern::Aqua, 181),
        (Pattern::SkyBlue, 183),
        (Pattern::DarkBlue, 185),
        (Pattern::Blue, 187),
        (Pattern::BlueViolet, 189),
        (Pattern::Violet, 191),
        (Pattern::White, 193),
        (Pattern::Gray, 195),
        (Pattern::DarkGray, 197),
        (Pattern::Black, 199),
    ]
}

#[test]
fn as_duty_test() {
    assert_eq!(Pattern::Color1Larson.as_duty(u8::MAX), 126);
}

#[test]
fn raw_codes_match_colour_table() {
    for (p, code) in table().iter() {
        assert_eq!(p.raw_code(), *code);
    }
}

#[test]
fn raw_codes_are_odd_and_below_two_hundred() {
    for (p, _) in table().iter() {
        let c = p.raw_code();
        assert!(c >= 1 && c <= 199);
        assert_eq!(c % 2, 1);
    }
}

#[test]
fn raw_codes_are_distinct() {
    let all = table();
    for (i, (p, _)) in all.iter().enumerate() {
        for (q, _) in all.iter().skip(i + 1) {
            assert_ne!(p.raw_code(), q.raw_code());
            assert_ne!(p, q);
        }
    }
}

#[test]
fn percentage_scenarios() {
    assert_eq!(Pattern::FireMedium.percentage_hundredths(), -59);
    assert_eq!(Pattern::Aqua.percentage_hundredths(), 81);
    assert_eq!(Pattern::Rainbow.percentage_hundredths(), -99);
    assert_eq!(Pattern::Black.percentage_hundredths(), 99);
}

#[test]
fn abs_percentage_scenarios() {
    assert_eq!(Pattern::Color1Larson.abs_percentage_thousandths(), 495);
    assert_eq!(Pattern::Color1Chase.abs_percentage_thousandths(), 505);
    assert_eq!(Pattern::Rainbow.abs_percentage_thousandths(), 5);
    assert_eq!(Pattern::Black.abs_percentage_thousandths(), 995);
}

#[test]
fn percentage_is_code_minus_hundred() {
    for (p, code) in table().iter() {
        assert_eq!(p.percentage_hundredths(), *code as i16 - 100);
    }
}

#[test]
fn abs_percentage_rescales_percentage() {
    for (p, _) in table().iter() {
        let signed = p.percentage_hundredths() as i32;
        let unit = p.abs_percentage_thousandths() as i32;
        assert_eq!(unit * 2, (signed + 100) * 10);
    }
}

#[test]
fn abs_percentage_in_unit_range() {
    for (p, _) in table().iter() {
        let unit = p.abs_percentage_thousandths();
        assert!(unit <= 1000);
    }
}

#[test]
fn percentage_floats_agree_with_exact_values() {
    for (p, code) in table().iter() {
        let signed = (*code as f32 - 100.0) / 100.0;
        let unit = (signed + 1.0) / 2.0;
        assert!((p.percentage_hundredths() as f32 / 100.0 - signed).abs() < 1e-6);
        assert!((p.abs_percentage_thousandths() as f32 / 1000.0 - unit).abs() < 1e-6);
    }
}

#[test]
fn duty_on_zero_max_is_zero() {
    assert_eq!(Pattern::Black.as_duty(0u8), 0);
    assert_eq!(Pattern::Black.as_duty(0u16), 0);
    assert_eq!(Pattern::White.as_duty(0u32), 0);
    assert_eq!(Pattern::Aqua.as_duty(0u64), 0);
    assert_eq!(Pattern::Rainbow.as_duty(0usize), 0);
}

#[test]
fn duty_on_other_widths() {
    assert_eq!(Pattern::Aqua.as_duty(1000u16), 905);
    assert_eq!(Pattern::Color1Chase.as_duty(200u32), 101);
    assert_eq!(Pattern::FireMedium.as_duty(u16::MAX), 13434);
    assert_eq!(Pattern::Black.as_duty(u64::MAX), 18354510353341003856);
    assert_eq!(Pattern::Rainbow.as_duty(1usize), 0);
}

#[test]
fn duty_never_exceeds_max() {
    for (p, code) in table().iter() {
        for max in [1u32, 7, 200, 255, 4095, 65535, u32::MAX] {
            let d = p.as_duty(max);
            assert!(d <= max);
            assert_eq!(d as u64, *code as u64 * max as u64 / 200);
        }
    }
}
