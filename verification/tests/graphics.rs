use anbennar_wiki::graphics::SpriteType;
use anbennar_wiki::imagemagick::ImageMagick;
use anbennar_wiki::utils::translate;

#[test]
fn test_sprites() {
    let sprite = SpriteType::default();
    assert_eq!(sprite.name, "");
    assert_eq!(sprite.texture_file, "");
    let named = SpriteType { name: "GFX_flag".to_string(), texture_file: "gfx/flag.dds".to_string() };
    assert_ne!(named, sprite);
}

#[test]
fn test_convert() {
    let magick = ImageMagick::default();
    assert_eq!(magick.convert(true, true, ""), "");
    assert_eq!(magick.convert(true, false, "cannot read"), "cannot read");
    assert_eq!(magick.convert(false, false, "cannot read"), "error when converting");
}

#[test]
fn translate_puts_known_keys_into_words() {
    assert_eq!(translate("OR"), "One of the following");
    assert_eq!(translate("AND"), "All of the following");
    assert_eq!(translate("NOT"), "None of the following");
    assert_eq!(translate("has_dlc"), "Has DLC Enabled");
    assert_eq!(translate("has_reform"), "Have reform");
    assert_eq!(translate("culture_group"), "Culture Group");
    assert_eq!(translate("primary_culture"), "Primary Culture");
    assert_eq!(translate("technology_group"), "Technology Group");
    assert_eq!(translate("religion"), "religion");
    assert_eq!(translate("or"), "or");
    assert_eq!(translate(""), "");
}
