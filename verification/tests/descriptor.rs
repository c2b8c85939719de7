use core_text::descriptor::{
    debug_descriptor_lines, kCTFontFormatBitmap, kCTFontFormatOpenTypePostScript,
    kCTFontFormatOpenTypeTrueType, kCTFontFormatPostScript, kCTFontFormatTrueType,
    kCTFontFormatUnrecognized, kCTFontDefaultOrientation, kCTFontHorizontalOrientation,
    kCTFontPriorityComputer, kCTFontPriorityDynamic, kCTFontPriorityNetwork,
    kCTFontPriorityProcess, kCTFontPrioritySystem, kCTFontPriorityUser,
    kCTFontVerticalOrientation, CTFontDescriptorMethods, FontAttribute, FontDescriptor,
};

fn sample() -> FontDescriptor {
    let mut d = FontDescriptor::new();
    d.set_attribute(FontAttribute::Name, "Helvetica-Bold".to_string());
    d.set_attribute(FontAttribute::DisplayName, "Helvetica Bold".to_string());
    d.set_attribute(FontAttribute::FamilyName, "Helvetica".to_string());
    d.set_attribute(FontAttribute::StyleName, "Bold".to_string());
    d.set_attribute(
        FontAttribute::Url,
        "file:///System/Library/Fonts/Helvetica.ttc".to_string(),
    );
    d
}

#[test]
fn value_constants() {
    assert_eq!(
        [
            kCTFontFormatUnrecognized,
            kCTFontFormatOpenTypePostScript,
            kCTFontFormatOpenTypeTrueType,
            kCTFontFormatTrueType,
            kCTFontFormatPostScript,
            kCTFontFormatBitmap
        ],
        [0, 1, 2, 3, 4, 5]
    );
    assert_eq!(
        [kCTFontDefaultOrientation, kCTFontHorizontalOrientation, kCTFontVerticalOrientation],
        [0, 1, 2]
    );
    assert_eq!(
        [
            kCTFontPrioritySystem,
            kCTFontPriorityNetwork,
            kCTFontPriorityComputer,
            kCTFontPriorityUser,
            kCTFontPriorityDynamic,
            kCTFontPriorityProcess
        ],
        [10000, 20000, 30000, 40000, 50000, 60000]
    );
}

#[test]
fn new_descriptor_has_no_attribute() {
    let d = FontDescriptor::new();
    assert_eq!(d.get_string_attribute(FontAttribute::Name), None);
    assert_eq!(d.get_string_attribute(FontAttribute::Url), None);
}

#[test]
fn read_gives_back_what_was_set() {
    let d = sample();
    assert_eq!(d.get_string_attribute(FontAttribute::Name), Some("Helvetica-Bold".to_string()));
    assert_eq!(d.get_string_attribute(FontAttribute::StyleName), Some("Bold".to_string()));
    assert_eq!(d.get_string_attribute(FontAttribute::Size), None);
}

#[test]
fn later_setting_replaces_earlier_one() {
    let mut d = sample();
    d.set_attribute(FontAttribute::StyleName, "Oblique".to_string());
    assert_eq!(d.get_string_attribute(FontAttribute::StyleName), Some("Oblique".to_string()));
    assert_eq!(d.get_string_attribute(FontAttribute::Name), Some("Helvetica-Bold".to_string()));
    assert_eq!(d.style_name(), "Oblique");
}

#[test]
fn names_come_from_their_attributes() {
    let d = sample();
    assert_eq!(d.font_name(), "Helvetica-Bold");
    assert_eq!(d.style_name(), "Bold");
    assert_eq!(d.display_name(), "Helvetica Bold");
    assert_eq!(d.font_path(), "file:///System/Library/Fonts/Helvetica.ttc");
}

#[test]
fn family_name_reads_the_display_name_attribute() {
    let d = sample();
    assert_eq!(d.family_name(), "Helvetica Bold");
    assert_ne!(d.family_name(), "Helvetica");
}

#[test]
fn debug_lines_label_each_value() {
    let d = sample();
    let lines = debug_descriptor_lines(&d);
    assert_eq!(
        lines,
        vec![
            "family: Helvetica Bold".to_string(),
            "name: Helvetica-Bold".to_string(),
            "style: Bold".to_string(),
            "display: Helvetica Bold".to_string(),
            "path: file:///System/Library/Fonts/Helvetica.ttc".to_string(),
        ]
    );
}
