use mad_emit::expr::{Expr, Root, VocabItem};
use mad_emit::rebuild::{compound_of, line_of, text_of};
use mad_emit::render::render;
use mad_emit::tree::{
    Alignment, Composite, CompositeStyle, Compound, Line, TableRow, TableRule, Text,
};
use mad_emit::Emitter;

fn compound(src: &str, bold: bool, italic: bool, code: bool, strikeout: bool) -> Compound {
    Compound { src: src.to_string(), bold, italic, code, strikeout }
}

fn paragraph(src: &str) -> Composite {
    Composite {
        style: CompositeStyle::Paragraph,
        compounds: vec![compound(src, false, false, false, false)],
    }
}

#[test]
fn single_paragraph_code() {
    let t = Text { lines: vec![Line::Normal(paragraph("hi"))] };
    let e = Emitter::new(Root::Direct);
    let code = e.text_code(&t);
    assert_eq!(
        code,
        "::minimad::Text { lines: ::std::vec![::minimad::Line::Normal(::minimad::Composite { \
         style: ::minimad::CompositeStyle::Paragraph, compounds: ::std::vec![::minimad::Compound \
         { src: \"hi\", bold: false, italic: false, code: false, strikeout: false }] })] }"
    );
}

#[test]
fn horizontal_rule_is_bare_variant() {
    let e = Emitter::new(Root::Direct);
    let code = e.line_code(&Line::HorizontalRule);
    assert_eq!(code, "::minimad::Line::HorizontalRule");
    assert!(!code.contains('('));
}

#[test]
fn header_level_is_kept() {
    let e = Emitter::new(Root::Direct);
    let line = Line::Normal(Composite { style: CompositeStyle::Header(2), compounds: vec![] });
    let code = e.line_code(&line);
    assert_eq!(
        code,
        "::minimad::Line::Normal(::minimad::Composite { style: \
         ::minimad::CompositeStyle::Header(2u8), compounds: ::std::vec![] })"
    );
}

#[test]
fn byte_literals_cover_all_widths() {
    let e = Emitter::new(Root::Direct);
    for (level, text) in [(0u8, "0u8"), (7u8, "7u8"), (42u8, "42u8"), (255u8, "255u8")] {
        let line = Line::Normal(Composite {
            style: CompositeStyle::ListItem(level),
            compounds: vec![],
        });
        let code = e.line_code(&line);
        assert!(code.contains(&format!("::minimad::CompositeStyle::ListItem({text})")));
    }
}

#[test]
fn table_rule_keeps_column_order() {
    let e = Emitter::new(Root::Direct);
    let line = Line::TableRule(TableRule {
        cells: vec![Alignment::Left, Alignment::Center, Alignment::Right],
    });
    let code = e.line_code(&line);
    assert_eq!(
        code,
        "::minimad::Line::TableRule(::minimad::TableRule { cells: \
         ::std::vec![::minimad::Alignment::Left, ::minimad::Alignment::Center, \
         ::minimad::Alignment::Right] })"
    );
}

#[test]
fn text_is_escaped_in_the_literal() {
    let e = Emitter::new(Root::Direct);
    let c = compound("a\"b\\c\nd\te\rf", true, false, true, false);
    let expr = e.compound_expr(&c);
    let code = render(&expr);
    assert_eq!(
        code,
        "::minimad::Compound { src: \"a\\\"b\\\\c\\nd\\te\\rf\", bold: true, italic: false, \
         code: true, strikeout: false }"
    );
    let back = compound_of(&expr).expect("a compound emission evaluates");
    assert_eq!(back, c);
}

fn sample_text() -> Text {
    Text {
        lines: vec![
            Line::Normal(Composite {
                style: CompositeStyle::Header(1),
                compounds: vec![compound("Title", true, false, false, false)],
            }),
            Line::Normal(Composite {
                style: CompositeStyle::Paragraph,
                compounds: vec![
                    compound("plain ", false, false, false, false),
                    compound("struck", false, true, false, true),
                ],
            }),
            Line::TableRow(TableRow {
                cells: vec![paragraph("cell a"), paragraph("cell b")],
            }),
            Line::TableRule(TableRule {
                cells: vec![Alignment::Unspecified, Alignment::Center],
            }),
            Line::HorizontalRule,
            Line::CodeFence(Composite {
                style: CompositeStyle::Code,
                compounds: vec![compound("let x = 1;", false, false, true, false)],
            }),
            Line::Normal(Composite {
                style: CompositeStyle::Quote,
                compounds: vec![compound("quoted", false, false, false, false)],
            }),
            Line::Normal(Composite {
                style: CompositeStyle::ListItem(3),
                compounds: vec![compound("item", false, false, false, false)],
            }),
        ],
    }
}

#[test]
fn round_trip_rebuilds_an_equal_tree() {
    let t = sample_text();
    let e = Emitter::new(Root::Direct);
    let expr = e.text_expr(&t);
    let back = text_of(&expr).expect("an emission evaluates");
    assert_eq!(back, t);
}

#[test]
fn round_trip_outlives_the_input() {
    let t = Text { lines: vec![Line::Normal(paragraph("gone"))] };
    let e = Emitter::new(Root::Reexport);
    let expr = e.text_expr(&t);
    drop(t);
    let back = text_of(&expr).expect("an emission evaluates");
    assert_eq!(back.lines.len(), 1);
    match &back.lines[0] {
        Line::Normal(c) => {
            assert_eq!(c.compounds[0].src, "gone");
        }
        other => panic!("unexpected line {other:?}"),
    }
}

#[test]
fn empty_text_emits_an_empty_list() {
    let t = Text { lines: vec![] };
    let e = Emitter::new(Root::Direct);
    assert_eq!(e.text_code(&t), "::minimad::Text { lines: ::std::vec![] }");
    let back = text_of(&e.text_expr(&t)).expect("an emission evaluates");
    assert_eq!(back, t);
}

#[test]
fn emission_is_deterministic() {
    let t = sample_text();
    let e = Emitter::new(Root::Direct);
    assert_eq!(e.text_expr(&t), e.text_expr(&t));
    assert_eq!(e.text_code(&t), e.text_code(&t));
}

#[test]
fn switching_the_root_changes_only_path_prefixes() {
    let t = sample_text();
    let direct = Emitter::new(Root::Direct).text_code(&t);
    let reexported = Emitter::new(Root::Reexport).text_code(&t);
    assert_eq!(direct.replace("::minimad::", "::mad_emit::"), reexported);
    assert_ne!(direct, reexported);
}

#[test]
fn every_line_variant_round_trips() {
    let e = Emitter::new(Root::Direct);
    let lines = vec![
        Line::Normal(paragraph("n")),
        Line::TableRow(TableRow { cells: vec![] }),
        Line::TableRule(TableRule { cells: vec![Alignment::Right] }),
        Line::HorizontalRule,
        Line::CodeFence(Composite { style: CompositeStyle::Code, compounds: vec![] }),
    ];
    for l in &lines {
        let expr = e.line_expr(l);
        let back = line_of(&expr).expect("a line emission evaluates");
        assert_eq!(&back, l);
    }
}

#[test]
fn foreign_expressions_evaluate_to_nothing() {
    assert!(text_of(&Expr::BoolLit(true)).is_none());
    assert!(line_of(&Expr::ByteLit(3)).is_none());
    assert!(compound_of(&Expr::Unit(Root::Direct, VocabItem::AlignLeft)).is_none());
    let wrong = Expr::Fields(Root::Direct, VocabItem::TextTy, vec![]);
    assert!(text_of(&wrong).is_none());
}

#[test]
fn emitted_text_lexes_as_tokens() {
    let t = sample_text();
    let e = Emitter::new(Root::Direct);
    let code = e.text_code(&t);
    let tokens = e.text_tokens(&t).expect("emitted code lexes");
    let reparsed: proc_macro2::TokenStream = code.parse().expect("emitted code lexes");
    assert_eq!(tokens.to_string(), reparsed.to_string());
    assert!(tokens.to_string().contains("Compound"));
}

#[test]
fn line_tokens_lex_for_each_variant() {
    let e = Emitter::new(Root::Reexport);
    let tokens = e.line_tokens(&Line::HorizontalRule).expect("emitted code lexes");
    assert_eq!(tokens.to_string().replace(' ', ""), "::mad_emit::Line::HorizontalRule");
}
