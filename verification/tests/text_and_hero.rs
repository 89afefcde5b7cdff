use showcase::hero::{
    destination_index, destination_title, far_color, far_destination_index, far_tag, swatch_color, tag,
    FAR_COUNT, SWATCH_COUNT,
};
use showcase::palette::Rgb;
use showcase::text::{decimal_text, join2, join3, signed_text};

#[test]
fn decimal_text_renders_digits() {
    assert_eq!(decimal_text(0), "0");
    assert_eq!(decimal_text(7), "7");
    assert_eq!(decimal_text(10), "10");
    assert_eq!(decimal_text(10_000), "10000");
    assert_eq!(decimal_text(u64::MAX), u64::MAX.to_string());
}

#[test]
fn signed_text_renders_sign() {
    assert_eq!(signed_text(0), "0");
    assert_eq!(signed_text(42), "42");
    assert_eq!(signed_text(-5), "-5");
    assert_eq!(signed_text(i64::MIN), i64::MIN.to_string());
    assert_eq!(signed_text(i64::MAX), i64::MAX.to_string());
}

#[test]
fn joins_concatenate() {
    assert_eq!(join2("ab", "cd"), "abcd");
    assert_eq!(join3("a", "", "c"), "ac");
}

#[test]
fn hero_tags_name_their_swatch() {
    assert_eq!(tag(0), "hero-swatch-0");
    assert_eq!(tag(3), "hero-swatch-3");
    assert_eq!(far_tag(1), "hero-far-1");
    assert_ne!(tag(1), far_tag(1));
    assert_ne!(tag(1), tag(2));
}

#[test]
fn hero_swatch_colours() {
    assert_eq!(SWATCH_COUNT, 4);
    assert_eq!(FAR_COUNT, 2);
    assert_eq!(swatch_color(0), Rgb { r: 86, g: 118, b: 220 });
    assert_eq!(swatch_color(1), Rgb { r: 214, g: 106, b: 92 });
    assert_eq!(swatch_color(2), Rgb { r: 94, g: 176, b: 128 });
    assert_eq!(swatch_color(3), Rgb { r: 198, g: 150, b: 74 });
    assert_eq!(far_color(0), Rgb { r: 72, g: 160, b: 168 });
    assert_eq!(far_color(1), Rgb { r: 206, g: 138, b: 60 });
    for i in 0..SWATCH_COUNT {
        for n in 0..FAR_COUNT {
            assert_ne!(swatch_color(i), far_color(n));
        }
    }
}

#[test]
fn hero_destination_clamps_payload() {
    assert_eq!(destination_index(2), 2);
    assert_eq!(destination_index(9), 3);
    assert_eq!(far_destination_index(0), 0);
    assert_eq!(far_destination_index(5), 1);
    assert_eq!(destination_title(1), "Swatch 1");
    assert_eq!(destination_title(100), "Swatch 3");
}
