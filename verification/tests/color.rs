use gitgarden::utils::color::{Rgb, RgbError};

#[test]
fn test_new() {
    let color = Rgb::new(255, 128, 64);
    assert_eq!(color.red, 255);
    assert_eq!(color.green, 128);
    assert_eq!(color.blue, 64);
}

#[test]
fn test_from_hex_valid() {
    let color = Rgb::try_from("#FF8040").unwrap();
    assert_eq!(color.red, 255);
    assert_eq!(color.green, 128);
    assert_eq!(color.blue, 64);
}

#[test]
fn test_try_from_invalid() {
    assert!(Rgb::try_from("FF8040").is_err());
    assert!(Rgb::try_from("#FF804").is_err());
    assert!(Rgb::try_from("#FF80ZZ").is_err());
}

#[test]
fn test_to_hex() {
    let color = Rgb::new(255, 128, 64);
    assert_eq!(color.to_string(), "#FF8040");
}

#[test]
fn test_interpolate() {
    let color1 = Rgb::new(0, 0, 0);
    let color2 = Rgb::new(255, 255, 255);

    let interpolated = color1.interpolate(&color2, 5000);
    assert_eq!(interpolated.red, 128);
    assert_eq!(interpolated.green, 128);
    assert_eq!(interpolated.blue, 128);

    let interpolated = color1.interpolate(&color2, 2500);
    assert_eq!(interpolated.red, 64);
    assert_eq!(interpolated.green, 64);
    assert_eq!(interpolated.blue, 64);

    let interpolated = color1.interpolate(&color2, 7500);
    assert_eq!(interpolated.red, 191);
    assert_eq!(interpolated.green, 191);
    assert_eq!(interpolated.blue, 191);
}

#[test]
fn each_error_has_its_input_and_its_words() {
    assert!(matches!(Rgb::try_from(""), Err(RgbError::InvalidFormat)));
    assert!(matches!(Rgb::try_from("FF8040"), Err(RgbError::InvalidFormat)));
    assert!(matches!(Rgb::try_from("#FF804"), Err(RgbError::InvalidFormat)));
    assert!(matches!(Rgb::try_from("#FF80400"), Err(RgbError::InvalidFormat)));
    assert!(matches!(Rgb::try_from("#FF80ZZ"), Err(RgbError::InvalidHexValue)));
    assert!(matches!(Rgb::try_from("#-18040"), Err(RgbError::InvalidHexValue)));
    assert!(matches!(Rgb::try_from("#FF80 4"), Err(RgbError::InvalidHexValue)));
    assert_eq!(
        RgbError::InvalidFormat.to_string(),
        "Invalid hex color format. Use #RRGGBB."
    );
    assert_eq!(RgbError::InvalidHexValue.to_string(), "Invalid hex value.");
}

#[test]
fn hex_is_read_as_std_reads_it() {
    for text in ["#000000", "#ffffff", "#aBcDeF", "#+1+a+F", "#0a0B0c", "#e5c77c"] {
        let color = Rgb::try_from(text).unwrap();
        assert_eq!(color.red, u8::from_str_radix(&text[1..3], 16).unwrap());
        assert_eq!(color.green, u8::from_str_radix(&text[3..5], 16).unwrap());
        assert_eq!(color.blue, u8::from_str_radix(&text[5..7], 16).unwrap());
    }
    for text in ["#++0000", "#+-0000", "#0+0000", "#g00000", "#00000/", "#00:000"] {
        assert!(matches!(Rgb::try_from(text), Err(RgbError::InvalidHexValue)));
    }
}

#[test]
fn hex_round_trips() {
    for (r, g, b) in [(0u8, 0u8, 0u8), (1, 2, 3), (15, 16, 17), (165, 197, 67), (255, 255, 255)] {
        let text = Rgb::new(r, g, b).to_string();
        assert_eq!(text, format!("#{:02X}{:02X}{:02X}", r, g, b));
        let back = Rgb::try_from(text.as_str()).unwrap();
        assert_eq!((back.red, back.green, back.blue), (r, g, b));
    }
}

#[test]
fn a_mix_reaches_both_ends_and_lies_between() {
    let dirt = Rgb::new(0xe5, 0xc7, 0x7c);
    let grass = Rgb::new(0xa5, 0xc5, 0x43);
    let none = dirt.interpolate(&grass, 0);
    assert_eq!((none.red, none.green, none.blue), (0xe5, 0xc7, 0x7c));
    let whole = dirt.interpolate(&grass, 10000);
    assert_eq!((whole.red, whole.green, whole.blue), (0xa5, 0xc5, 0x43));
    for share in (0..=10000).step_by(137) {
        let mix = dirt.interpolate(&grass, share);
        assert!(0xa5 <= mix.red && mix.red <= 0xe5);
        assert!(0xc5 <= mix.green && mix.green <= 0xc7);
        assert!(0x43 <= mix.blue && mix.blue <= 0x7c);
    }
}

#[test]
fn a_mix_rounds_halves_away_from_zero_and_stays_a_byte() {
    // 10 + (11 - 10) * 0.5 = 10.5
    assert_eq!(Rgb::new(10, 0, 0).interpolate(&Rgb::new(11, 0, 0), 5000).red, 11);
    // 11 + (10 - 11) * 0.5 = 10.5
    assert_eq!(Rgb::new(11, 0, 0).interpolate(&Rgb::new(10, 0, 0), 5000).red, 11);
    // 229 + (165 - 229) * 0.5479 = 193.9344
    assert_eq!(Rgb::new(229, 0, 0).interpolate(&Rgb::new(165, 0, 0), 5479).red, 194);
    // twice the way from 100 to 200 is 300, from 200 to 100 is 0, thrice is -100
    assert_eq!(Rgb::new(100, 0, 0).interpolate(&Rgb::new(200, 0, 0), 20000).red, 255);
    assert_eq!(Rgb::new(200, 0, 0).interpolate(&Rgb::new(100, 0, 0), 20000).red, 0);
    assert_eq!(Rgb::new(200, 0, 0).interpolate(&Rgb::new(100, 0, 0), 30000).red, 0);
    assert_eq!(Rgb::new(0, 0, 0).interpolate(&Rgb::new(255, 0, 0), u32::MAX).red, 255);
}
