use vstd::prelude::*;

verus! {

/// One output mode of the REV 11-1105 LED driver.
///
/// Each mode is bound to a fixed code in `0..200`, as given in the driver's
/// colour table. The code is not a PWM value: it is turned into a duty cycle
/// with the conversions below.
#[derive(Debug, Clone, Copy, PartialEq, Eq)]
pub enum Pattern {
    Rainbow,
    RainbowParty,
    RainbowOcean,
    RainbowLava,
    RainbowForest,
    RainbowGlitter,
    Confetti,
    RedShot,
    BlueShot,
    WhiteShot,
    SinelonRainbow,
    SinelonParty,
    SinelonOcean,
    SinelonLava,
    SinelonForest,
    BpmRainbow,
    BpmOcean,
    BpmLava,
    BpmForest,
    FireMedium,
    FireLarge,
    TwinklesRainbow,
    TwinklesParty,
    TwinklesOcean,
    TwinklesLava,
    TwinklesForest,
    WavesRainbow,
    WavesParty,
    WavesOcean,
    WavesLava,
    WavesForest,
    LarsonRed,
    LarsonGray,
    ChaseRed,
    ChaseBlue,
    ChaseGray,
    HeartbeatRed,
    HeartbeatBlue,
    HeartbeatWhite,
    HeartbeatGray,
    BreathRed,
    BreathBlue,
    BreathGray,
    StrobeBlue,
    StrobeGold,
    StrobeWhite,
    Color1BlendToBlack,
    Color1Larson,
    Color1Chase,
    Color1HeartbeatSlow,
    Color1HeartbeatMedium,
    Color1HeartbeatFast,
    Color1BreathSlow,
    Color1BreathFast,
    Color1Shot,
    Color1Strobe,
    Color2BlendToBlack,
    Color2Larson,
    Color2Chase,
    Color2HeartbeatSlow,
    Color2HeartbeatMedium,
    Color2HeartbeatFast,
    Color2BreathSlow,
    Color2BreathFast,
    Color2Shot,
    Color2Strobe,
    Sparkle1On2,
    Sparkle2On1,
    Gradient1And2,
    Bpm1And2,
    EndBlend1And2,
    EndBlend,
    Color1And2NoBlend,
    Twinkle1And2,
    Waves1And2,
    Sinelon1And2,
    HotPink,
    DarkRed,
    Red,
    RedOrange,
    Orange,
    Gold,
    Yellow,
    LawnGreen,
    Lime,
    DarkGreen,
    Green,
    BlueGreen,
    Aqua,
    SkyBlue,
    DarkBlue,
    Blue,
    BlueViolet,
    Violet,
    White,
    Gray,
    DarkGray,
    Black,
}

/// The mode that a code of the colour table stands for, if any.
///
/// Codes that the table leaves out (even codes, and 33 and 89) stand for none.
pub open spec fn pattern_of_code(c: u8) -> Option<Pattern> {
    match c {
        1 => Some(Pattern::Rainbow),
        3 => Some(Pattern::RainbowParty),
        5 => Some(Pattern::RainbowOcean),
        7 => Some(Pattern::RainbowLava),
        9 => Some(Pattern::RainbowForest),
        11 => Some(Pattern::RainbowGlitter),
        13 => Some(Pattern::Confetti),
        15 => Some(Pattern::RedShot),
        17 => Some(Pattern::BlueShot),
        19 => Some(Pattern::WhiteShot),
        21 => Some(Pattern::SinelonRainbow),
        23 => Some(Pattern::SinelonParty),
        25 => Some(Pattern::SinelonOcean),
        27 => Some(Pattern::SinelonLava),
        29 => Some(Pattern::SinelonForest),
        31 => Some(Pattern::BpmRainbow),
        35 => Some(Pattern::BpmOcean),
        37 => Some(Pattern::BpmLava),
        39 => Some(Pattern::BpmForest),
        41 => Some(Pattern::FireMedium),
        43 => Some(Pattern::FireLarge),
        45 => Some(Pattern::TwinklesRainbow),
        47 => Some(Pattern::TwinklesParty),
        49 => Some(Pattern::TwinklesOcean),
        51 => Some(Pattern::TwinklesLava),
        53 => Some(Pattern::TwinklesForest),
        55 => Some(Pattern::WavesRainbow),
        57 => Some(Pattern::WavesParty),
        59 => Some(Pattern::WavesOcean),
        61 => Some(Pattern::WavesLava),
        63 => Some(Pattern::WavesForest),
        65 => Some(Pattern::LarsonRed),
        67 => Some(Pattern::LarsonGray),
        69 => Some(Pattern::ChaseRed),
        71 => Some(Pattern::ChaseBlue),
        73 => Some(Pattern::ChaseGray),
        75 => Some(Pattern::HeartbeatRed),
        77 => Some(Pattern::HeartbeatBlue),
        79 => Some(Pattern::HeartbeatWhite),
        81 => Some(Pattern::HeartbeatGray),
        83 => Some(Pattern::BreathRed),
        85 => Some(Pattern::BreathBlue),
        87 => Some(Pattern::BreathGray),
        91 => Some(Pattern::StrobeBlue),
        93 => Some(Pattern::StrobeGold),
        95 => Some(Pattern::StrobeWhite),
        97 => Some(Pattern::Color1BlendToBlack),
        99 => Some(Pattern::Color1Larson),
        101 => Some(Pattern::Color1Chase),
        103 => Some(Pattern::Color1HeartbeatSlow),
        105 => Some(Pattern::Color1HeartbeatMedium),
        107 => Some(Pattern::Color1HeartbeatFast),
        109 => Some(Pattern::Color1BreathSlow),
        111 => Some(Pattern::Color1BreathFast),
        113 => Some(Pattern::Color1Shot),
        115 => Some(Pattern::Color1Strobe),
        117 => Some(Pattern::Color2BlendToBlack),
        119 => Some(Pattern::Color2Larson),
        121 => Some(Pattern::Color2Chase),
        123 => Some(Pattern::Color2HeartbeatSlow),
        125 => Some(Pattern::Color2HeartbeatMedium),
        127 => Some(Pattern::Color2HeartbeatFast),
        129 => Some(Pattern::Color2BreathSlow),
        131 => Some(Pattern::Color2BreathFast),
        133 => Some(Pattern::Color2Shot),
        135 => Some(Pattern::Color2Strobe),
        137 => Some(Pattern::Sparkle1On2),
        139 => Some(Pattern::Sparkle2On1),
        141 => Some(Pattern::Gradient1And2),
        143 => Some(Pattern::Bpm1And2),
        145 => Some(Pattern::EndBlend1And2),
        147 => Some(Pattern::EndBlend),
        149 => Some(Pattern::Color1And2NoBlend),
        151 => Some(Pattern::Twinkle1And2),
        153 => Some(Pattern::Waves1And2),
        155 => Some(Pattern::Sinelon1And2),
        157 => Some(Pattern::HotPink),
        159 => Some(Pattern::DarkRed),
        161 => Some(Pattern::Red),
        163 => Some(Pattern::RedOrange),
        165 => Some(Pattern::Orange),
        167 => Some(Pattern::Gold),
        169 => Some(Pattern::Yellow),
        171 => Some(Pattern::LawnGreen),
        173 => Some(Pattern::Lime),
        175 => Some(Pattern::DarkGreen),
        177 => Some(Pattern::Green),
        179 => Some(Pattern::BlueGreen),
        181 => Some(Pattern::Aqua),
        183 => Some(Pattern::SkyBlue),
        185 => Some(Pattern::DarkBlue),
        187 => Some(Pattern::Blue),
        189 => Some(Pattern::BlueViolet),
        191 => Some(Pattern::Violet),
        193 => Some(Pattern::White),
        195 => Some(Pattern::Gray),
        197 => Some(Pattern::DarkGray),
        199 => Some(Pattern::Black),
        _ => None,
    }
}

impl Pattern {
    /// The code that the driver's colour table gives this mode.
    pub open spec fn code(self) -> nat {
        match self {
            Pattern::Rainbow => 1,
            Pattern::RainbowParty => 3,
            Pattern::RainbowOcean => 5,
            Pattern::RainbowLava => 7,
            Pattern::RainbowForest => 9,
            Pattern::RainbowGlitter => 11,
            Pattern::Confetti => 13,
            Pattern::RedShot => 15,
            Pattern::BlueShot => 17,
            Pattern::WhiteShot => 19,
            Pattern::SinelonRainbow => 21,
            Pattern::SinelonParty => 23,
            Pattern::SinelonOcean => 25,
            Pattern::SinelonLava => 27,
            Pattern::SinelonForest => 29,
            Pattern::BpmRainbow => 31,
            Pattern::BpmOcean => 35,
            Pattern::BpmLava => 37,
            Pattern::BpmForest => 39,
            Pattern::FireMedium => 41,
            Pattern::FireLarge => 43,
            Pattern::TwinklesRainbow => 45,
            Pattern::TwinklesParty => 47,
            Pattern::TwinklesOcean => 49,
            Pattern::TwinklesLava => 51,
            Pattern::TwinklesForest => 53,
            Pattern::WavesRainbow => 55,
            Pattern::WavesParty => 57,
            Pattern::WavesOcean => 59,
            Pattern::WavesLava => 61,
            Pattern::WavesForest => 63,
            Pattern::LarsonRed => 65,
            Pattern::LarsonGray => 67,
            Pattern::ChaseRed => 69,
            Pattern::ChaseBlue => 71,
            Pattern::ChaseGray => 73,
            Pattern::HeartbeatRed => 75,
            Pattern::HeartbeatBlue => 77,
            Pattern::HeartbeatWhite => 79,
            Pattern::HeartbeatGray => 81,
            Pattern::BreathRed => 83,
            Pattern::BreathBlue => 85,
            Pattern::BreathGray => 87,
            Pattern::StrobeBlue => 91,
            Pattern::StrobeGold => 93,
            Pattern::StrobeWhite => 95,
            Pattern::Color1BlendToBlack => 97,
            Pattern::Color1Larson => 99,
            Pattern::Color1Chase => 101,
            Pattern::Color1HeartbeatSlow => 103,
            Pattern::Color1HeartbeatMedium => 105,
            Pattern::Color1HeartbeatFast => 107,
            Pattern::Color1BreathSlow => 109,
            Pattern::Color1BreathFast => 111,
            Pattern::Color1Shot => 113,
            Pattern::Color1Strobe => 115,
            Pattern::Color2BlendToBlack => 117,
            Pattern::Color2Larson => 119,
            Pattern::Color2Chase => 121,
            Pattern::Color2HeartbeatSlow => 123,
            Pattern::Color2HeartbeatMedium => 125,
            Pattern::Color2HeartbeatFast => 127,
            Pattern::Color2BreathSlow => 129,
            Pattern::Color2BreathFast => 131,
            Pattern::Color2Shot => 133,
            Pattern::Color2Strobe => 135,
            Pattern::Sparkle1On2 => 137,
            Pattern::Sparkle2On1 => 139,
            Pattern::Gradient1And2 => 141,
            Pattern::Bpm1And2 => 143,
            Pattern::EndBlend1And2 => 145,
            Pattern::EndBlend => 147,
            Pattern::Color1And2NoBlend => 149,
            Pattern::Twinkle1And2 => 151,
            Pattern::Waves1And2 => 153,
            Pattern::Sinelon1And2 => 155,
            Pattern::HotPink => 157,
            Pattern::DarkRed => 159,
            Pattern::Red => 161,
            Pattern::RedOrange => 163,
            Pattern::Orange => 165,
            Pattern::Gold => 167,
            Pattern::Yellow => 169,
            Pattern::LawnGreen => 171,
            Pattern::Lime => 173,
            Pattern::DarkGreen => 175,
            Pattern::Green => 177,
            Pattern::BlueGreen => 179,
            Pattern::Aqua => 181,
            Pattern::SkyBlue => 183,
            Pattern::DarkBlue => 185,
            Pattern::Blue => 187,
            Pattern::BlueViolet => 189,
            Pattern::Violet => 191,
            Pattern::White => 193,
            Pattern::Gray => 195,
            Pattern::DarkGray => 197,
            Pattern::Black => 199,
        }
    }

    /// The signed duty `(code - 100) / 100`, counted in hundredths.
    pub open spec fn signed_hundredths(self) -> int {
        self.code() - 100
    }

    /// The duty rescaled into `[0, 1]`, `(percentage + 1) / 2`, counted in
    /// thousandths.
    pub open spec fn unit_thousandths(self) -> int {
        (self.signed_hundredths() + 100) * 10 / 2
    }

    /// The code of this mode in the driver's colour table.
    pub fn raw_code(&self) -> (r: u8)
        ensures
            r == self.code(),
    {
        match self {
            Pattern::Rainbow => 1,
            Pattern::RainbowParty => 3,
            Pattern::RainbowOcean => 5,
            Pattern::RainbowLava => 7,
            Pattern::RainbowForest => 9,
            Pattern::RainbowGlitter => 11,
            Pattern::Confetti => 13,
            Pattern::RedShot => 15,
            Pattern::BlueShot => 17,
            Pattern::WhiteShot => 19,
            Pattern::SinelonRainbow => 21,
            Pattern::SinelonParty => 23,
            Pattern::SinelonOcean => 25,
            Pattern::SinelonLava => 27,
            Pattern::SinelonForest => 29,
            Pattern::BpmRainbow => 31,
            Pattern::BpmOcean => 35,
            Pattern::BpmLava => 37,
            Pattern::BpmForest => 39,
            Pattern::FireMedium => 41,
            Pattern::FireLarge => 43,
            Pattern::TwinklesRainbow => 45,
            Pattern::TwinklesParty => 47,
            Pattern::TwinklesOcean => 49,
            Pattern::TwinklesLava => 51,
            Pattern::TwinklesForest => 53,
            Pattern::WavesRainbow => 55,
            Pattern::WavesParty => 57,
            Pattern::WavesOcean => 59,
            Pattern::WavesLava => 61,
            Pattern::WavesForest => 63,
            Pattern::LarsonRed => 65,
            Pattern::LarsonGray => 67,
            Pattern::ChaseRed => 69,
            Pattern::ChaseBlue => 71,
            Pattern::ChaseGray => 73,
            Pattern::HeartbeatRed => 75,
            Pattern::HeartbeatBlue => 77,
            Pattern::HeartbeatWhite => 79,
            Pattern::HeartbeatGray => 81,
            Pattern::BreathRed => 83,
            Pattern::BreathBlue => 85,
            Pattern::BreathGray => 87,
            Pattern::StrobeBlue => 91,
            Pattern::StrobeGold => 93,
            Pattern::StrobeWhite => 95,
            Pattern::Color1BlendToBlack => 97,
            Pattern::Color1Larson => 99,
            Pattern::Color1Chase => 101,
            Pattern::Color1HeartbeatSlow => 103,
            Pattern::Color1HeartbeatMedium => 105,
            Pattern::Color1HeartbeatFast => 107,
            Pattern::Color1BreathSlow => 109,
            Pattern::Color1BreathFast => 111,
            Pattern::Color1Shot => 113,
            Pattern::Color1Strobe => 115,
            Pattern::Color2BlendToBlack => 117,
            Pattern::Color2Larson => 119,
            Pattern::Color2Chase => 121,
            Pattern::Color2HeartbeatSlow => 123,
            Pattern::Color2HeartbeatMedium => 125,
            Pattern::Color2HeartbeatFast => 127,
            Pattern::Color2BreathSlow => 129,
            Pattern::Color2BreathFast => 131,
            Pattern::Color2Shot => 133,
            Pattern::Color2Strobe => 135,
            Pattern::Sparkle1On2 => 137,
            Pattern::Sparkle2On1 => 139,
            Pattern::Gradient1And2 => 141,
            Pattern::Bpm1And2 => 143,
            Pattern::EndBlend1And2 => 145,
            Pattern::EndBlend => 147,
            Pattern::Color1And2NoBlend => 149,
            Pattern::Twinkle1And2 => 151,
            Pattern::Waves1And2 => 153,
            Pattern::Sinelon1And2 => 155,
            Pattern::HotPink => 157,
            Pattern::DarkRed => 159,
            Pattern::Red => 161,
            Pattern::RedOrange => 163,
            Pattern::Orange => 165,
            Pattern::Gold => 167,
            Pattern::Yellow => 169,
            Pattern::LawnGreen => 171,
            Pattern::Lime => 173,
            Pattern::DarkGreen => 175,
            Pattern::Green => 177,
            Pattern::BlueGreen => 179,
            Pattern::Aqua => 181,
            Pattern::SkyBlue => 183,
            Pattern::DarkBlue => 185,
            Pattern::Blue => 187,
            Pattern::BlueViolet => 189,
            Pattern::Violet => 191,
            Pattern::White => 193,
            Pattern::Gray => 195,
            Pattern::DarkGray => 197,
            Pattern::Black => 199,
        }
    }

    /// The signed duty of this mode, `(code - 100) / 100`, in hundredths:
    /// from -99 (code 1) to 99 (code 199).
    pub fn percentage_hundredths(&self) -> (r: i16)
        ensures
            r == self.signed_hundredths(),
    {
        self.raw_code() as i16 - 100
    }

    /// The duty of this mode rescaled into `[0, 1]`, `(percentage + 1) / 2`,
    /// in thousandths: from 5 (code 1) to 995 (code 199).
    pub fn abs_percentage_thousandths(&self) -> (r: u16)
        ensures
            r == self.unit_thousandths(),
    {
        let p: i16 = self.percentage_hundredths();
        ((p + 100) as u16) * 10 / 2
    }
}

/// Every mode has a code in `0..200`, and that code is odd.
pub proof fn lemma_code_in_range(p: Pattern)
    ensures
        1 <= p.code() <= 199,
        p.code() % 2 == 1,
{
}

/// No two modes share a code: the code of a mode leads back to that mode.
pub proof fn lemma_code_identifies_pattern(p: Pattern)
    ensures
        pattern_of_code(p.code() as u8) == Some(p),
{
}

/// Two modes with the same code are the same mode.
pub proof fn lemma_code_injective(p: Pattern, q: Pattern)
    ensures
        p.code() == q.code() ==> p == q,
{
    lemma_code_identifies_pattern(p);
    lemma_code_identifies_pattern(q);
}

/// The signed duty is `(code - 100) / 100`, and the rescaled duty is
/// `(signed + 1) / 2`, which is `code / 200`.
pub proof fn lemma_abs_percentage_rescales_percentage(p: Pattern)
    ensures
        p.signed_hundredths() == p.code() - 100,
        p.unit_thousandths() * 2 == (p.signed_hundredths() + 100) * 10,
        p.unit_thousandths() == p.code() * 5,
{
}

/// The rescaled duty of every mode lies in `[0, 1]`, and the signed duty in
/// `[-1, 1]`.
pub proof fn lemma_percentages_in_range(p: Pattern)
    ensures
        0 <= p.unit_thousandths() <= 1000,
        -100 <= p.signed_hundredths() <= 100,
{
    lemma_code_in_range(p);
}

} // verus!
