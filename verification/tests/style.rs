use cursive_markup::html::{Annotation, RichConverter};
use cursive_markup::style::{
    COLOR_SECONDARY, EFFECT_BOLD, EFFECT_ITALIC, EFFECT_STRIKETHROUGH, EFFECT_UNDERLINE,
};
use cursive_markup::Style;

#[test]
fn combine_unions_effects_and_overrides_color() {
    let a = Style { effects: EFFECT_UNDERLINE, color: 2 };
    let b = Style { effects: EFFECT_BOLD, color: 0 };
    assert_eq!(a.combine(b), Style { effects: EFFECT_UNDERLINE | EFFECT_BOLD, color: 2 });
    let c = Style { effects: 0, color: COLOR_SECONDARY };
    assert_eq!(a.combine(c), Style { effects: EFFECT_UNDERLINE, color: COLOR_SECONDARY });
}

#[test]
fn merge_folds_left_to_right() {
    let styles = vec![
        Style { effects: EFFECT_ITALIC, color: 3 },
        Style { effects: EFFECT_BOLD, color: 0 },
        Style { effects: 0, color: COLOR_SECONDARY },
    ];
    assert_eq!(
        Style::merge(&styles),
        Style { effects: EFFECT_ITALIC | EFFECT_BOLD, color: COLOR_SECONDARY }
    );
    assert_eq!(Style::merge(&Vec::new()), Style { effects: 0, color: 0 });
}

#[test]
fn rich_converter_styles() {
    let c = RichConverter;
    assert_eq!(c.get_style(&Annotation::Plain), None);
    assert_eq!(
        c.get_style(&Annotation::Link("x".to_string())),
        Some(Style { effects: EFFECT_UNDERLINE, color: 0 })
    );
    assert_eq!(c.get_style(&Annotation::Image), None);
    assert_eq!(
        c.get_style(&Annotation::Emphasis),
        Some(Style { effects: EFFECT_ITALIC, color: 0 })
    );
    assert_eq!(c.get_style(&Annotation::Strong), Some(Style { effects: EFFECT_BOLD, color: 0 }));
    assert_eq!(
        c.get_style(&Annotation::Strikeout),
        Some(Style { effects: EFFECT_STRIKETHROUGH, color: 0 })
    );
    assert_eq!(c.get_style(&Annotation::Code), Some(Style { effects: 0, color: COLOR_SECONDARY }));
    assert_eq!(c.get_style(&Annotation::Preformat(false)), None);
    assert_eq!(c.get_style(&Annotation::Preformat(true)), None);
}

#[test]
fn rich_converter_links() {
    let c = RichConverter;
    let link = Annotation::Link("https://example.com".to_string());
    assert_eq!(c.get_link(&link).map(|s| s.as_str()), Some("https://example.com"));
    assert_eq!(c.get_link(&Annotation::Plain), None);
    assert_eq!(c.get_link(&Annotation::Strong), None);
}
