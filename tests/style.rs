use bixolon::command::character::UnderlineThickness;
use bixolon::command::ESC;
use bixolon::style::text::{StyledNode, Styleable};
use bixolon::style::{style_transition_commands, StyleCommand, StyleSet};

const BOLD_ON: [u8; 3] = [ESC, b'E', 1];
const BOLD_OFF: [u8; 3] = [ESC, b'E', 0];
const UL_ONE: [u8; 3] = [ESC, b'-', 1];
const UL_TWO: [u8; 3] = [ESC, b'-', 2];
const UL_OFF: [u8; 3] = [ESC, b'-', 0];

fn count(bytes: &[u8], pattern: &[u8]) -> usize {
    bytes.windows(pattern.len()).filter(|w| *w == pattern).count()
}

fn cat(parts: &[&[u8]]) -> Vec<u8> {
    let mut out = Vec::new();
    for p in parts {
        out.extend_from_slice(p);
    }
    out
}

#[test]
fn text_node_renders_plain() {
    let node = StyledNode::text("Hello");
    assert_eq!(node.render(), b"Hello");
}

#[test]
fn bold_renders_with_commands() {
    let node = "Hello".bold();
    let output = node.render();
    assert!(output.starts_with(&[ESC, b'E', 1]));
    assert!(output.windows(5).any(|w| w == b"Hello"));
    assert!(output.ends_with(&[ESC, b'E', 0]));
}

#[test]
fn underlined_renders_with_commands() {
    let node = "Hello".underlined();
    let output = node.render();
    assert!(output.starts_with(&[ESC, b'-', 1]));
    assert!(output.ends_with(&[ESC, b'-', 0]));
}

#[test]
fn nested_styles_both_apply() {
    let node = "Hello".bold().with_style(StyleSet::default().with_underline(true));
    let output = node.render();
    let underline_on_pos = output.windows(3).position(|w| w == [ESC, b'-', 1]);
    let bold_on_pos = output.windows(3).position(|w| w == [ESC, b'E', 1]);
    assert!(underline_on_pos.is_some());
    assert!(bold_on_pos.is_some());
}

#[test]
fn append_creates_siblings() {
    let node = "Hello ".bold().append("World".underlined());
    let output = node.render();
    assert!(output.windows(6).any(|w| w == b"Hello "));
    assert!(output.windows(5).any(|w| w == b"World"));
}

#[test]
fn render_line_appends_lf() {
    let node = StyledNode::text("Hello");
    let output = node.render_line();
    assert!(output.ends_with(&[0x0A]));
}

#[test]
fn complex_nesting_resolves_correctly() {
    let outer = StyleSet::default().with_bold(true);
    let inner = StyleSet::default().with_underline(true);
    let node = StyledNode::Styled {
        style: outer,
        children: vec![StyledNode::Styled {
            style: inner,
            children: vec![StyledNode::Text("test".to_string())],
        }],
    };
    let output = node.render();
    assert!(output.windows(3).any(|w| w == [ESC, b'E', 1]));
    assert!(output.windows(3).any(|w| w == [ESC, b'-', 1]));
    assert!(output.windows(3).any(|w| w == [ESC, b'E', 0]));
    assert!(output.windows(3).any(|w| w == [ESC, b'-', 0]));
}

#[test]
fn style_reset_after_pop() {
    let underline_style = StyleSet::default().with_underline(true);
    let bold_style = StyleSet::default().with_bold(true);
    let node = StyledNode::Styled {
        style: underline_style,
        children: vec![
            StyledNode::Text("A".to_string()),
            StyledNode::Styled {
                style: bold_style,
                children: vec![StyledNode::Text("B".to_string())],
            },
            StyledNode::Text("C".to_string()),
        ],
    };
    let output = node.render();
    let bytes: &[u8] = &output;
    let underline_on_count = bytes.windows(3).filter(|w| *w == [ESC, b'-', 1]).count();
    let underline_off_count = bytes.windows(3).filter(|w| *w == [ESC, b'-', 0]).count();
    assert_eq!(underline_on_count, 1);
    assert_eq!(underline_off_count, 1);
}

// Scenarios.

#[test]
fn plain_text_renders_five_bytes() {
    let out = StyledNode::text("Hello").render();
    assert_eq!(out, b"Hello".to_vec());
    assert_eq!(out.len(), 5);
}

#[test]
fn bold_text_renders_exactly() {
    assert_eq!("Hello".bold().render(), cat(&[&BOLD_ON, b"Hello", &BOLD_OFF]));
}

#[test]
fn siblings_render_exactly() {
    let out = "A".bold().append("B".underlined()).render();
    assert_eq!(out, cat(&[&BOLD_ON, b"A", &BOLD_OFF, &UL_ONE, b"B", &UL_OFF]));
    assert_eq!(count(&out, &UL_ONE) + count(&out, &UL_TWO), 1);
    assert_eq!(count(&out, &UL_OFF), 1);
}

#[test]
fn underline_scope_around_bold_renders_exactly() {
    let node = StyledNode::text("A")
        .append("B".bold())
        .append(StyledNode::text("C"))
        .underlined();
    let out = node.render();
    assert_eq!(out, cat(&[&UL_ONE, b"A", &BOLD_ON, b"B", &BOLD_OFF, b"C", &UL_OFF]));
    assert_eq!(count(&out, &UL_ONE), 1);
    assert_eq!(count(&out, &UL_OFF), 1);
}

#[test]
fn test_plain_text_println() {
    let output = "Hello".into_node().render_line();
    assert_eq!(output, b"Hello\x0A".to_vec());
}

#[test]
fn test_bold_text_println() {
    let output = "Hello".bold().render_line();
    let expected = vec![
        0x1B, b'E', 1, b'H', b'e', b'l', b'l', b'o', 0x1B, b'E', 0, 0x0A,
    ];
    assert_eq!(output, expected);
}

#[test]
fn test_underlined_text_println() {
    let output = "Hello".underlined().render_line();
    let expected = vec![
        0x1B, b'-', 1, b'H', b'e', b'l', b'l', b'o', 0x1B, b'-', 0, 0x0A,
    ];
    assert_eq!(output, expected);
}

#[test]
fn test_nested_bold_underline() {
    let output = "outer ".bold().append("inner".underlined()).render_line();
    let expected = vec![
        0x1B, b'E', 1, b'o', b'u', b't', b'e', b'r', b' ', 0x1B, b'E', 0, 0x1B, b'-', 1, b'i',
        b'n', b'n', b'e', b'r', 0x1B, b'-', 0, 0x0A,
    ];
    assert_eq!(output, expected);
}

#[test]
fn test_sibling_styles_isolated() {
    let output = "A".bold().append("B".underlined()).render_line();
    let expected = vec![
        0x1B, b'E', 1, b'A', 0x1B, b'E', 0, 0x1B, b'-', 1, b'B', 0x1B, b'-', 0, 0x0A,
    ];
    assert_eq!(output, expected);
}

#[test]
fn receipt_total_line_renders_exactly() {
    let out = "Total".bold().append("     $25.00".bold()).render_line();
    let expected = cat(&[&BOLD_ON, b"Total", &BOLD_OFF, &BOLD_ON, b"     $25.00", &BOLD_OFF, &[0x0A]]);
    assert_eq!(out, expected);
}

// Properties on concrete trees.

#[test]
fn render_ends_in_baseline() {
    let node = "x"
        .double_underlined()
        .with_style(StyleSet::default().with_underline(true))
        .append("y".reversed().upside_down().rotated().double_strike());
    let out = node.render();
    // Every attribute that was turned on is turned off again.
    assert!(out.ends_with(&[ESC, b'G', 0]));
    assert_eq!(count(&out, &UL_OFF), 1);
    assert_eq!(count(&out, &[0x1D, b'B', 1]), count(&out, &[0x1D, b'B', 0]));
    assert_eq!(count(&out, &[ESC, b'{', 1]), count(&out, &[ESC, b'{', 0]));
    assert_eq!(count(&out, &[ESC, b'V', 1]), count(&out, &[ESC, b'V', 0]));
    assert_eq!(count(&out, &[ESC, b'G', 1]), count(&out, &[ESC, b'G', 0]));
}

#[test]
fn double_then_single_underline_steps_down_silently() {
    // One dot outside, two dots inside: leaving the inner scope emits
    // nothing, and the end of the outer scope turns the underline off.
    let node = StyledNode::text("a")
        .append("b".double_underlined())
        .append(StyledNode::text("c"))
        .underlined();
    let out = node.render();
    assert_eq!(out, cat(&[&UL_ONE, b"a", &UL_TWO, b"b", b"c", &UL_OFF]));
}

#[test]
fn append_is_concatenation_of_renders() {
    let a = "left".bold().with_style(StyleSet::default().with_reverse(true));
    let b = "right".underlined();
    let a_alone = "left".bold().with_style(StyleSet::default().with_reverse(true)).render();
    let b_alone = "right".underlined().render();
    assert_eq!(a.append(b).render(), cat(&[&a_alone, &b_alone]));
}

#[test]
fn outer_bold_is_set_once() {
    let inner = "x".underlined().append("y".reversed());
    let out = inner.bold().render();
    assert_eq!(count(&out, &BOLD_ON), 1);
    assert_eq!(count(&out, &BOLD_OFF), 1);
    assert!(out.starts_with(&BOLD_ON));
    assert!(out.ends_with(&BOLD_OFF));
}

#[test]
fn bold_inside_bold_adds_nothing() {
    let out = "x".bold().bold().render();
    assert_eq!(out, cat(&[&BOLD_ON, b"x", &BOLD_OFF]));
}

#[test]
fn empty_group_still_toggles() {
    let node = StyledNode::Styled { style: StyleSet::default().with_bold(true), children: vec![] };
    assert_eq!(node.render(), cat(&[&BOLD_ON, &BOLD_OFF]));
}

#[test]
fn render_is_deterministic() {
    let node = "a".bold().append("b".double_underlined().reversed());
    assert_eq!(node.render(), node.render());
}

#[test]
fn non_ascii_text_is_utf8() {
    assert_eq!(StyledNode::text("é").render(), vec![0xC3, 0xA9]);
}

#[test]
fn styled_helper_and_string_nodes() {
    let node = StyledNode::styled(StyleSet::default().with_double_strike(true), "z");
    assert_eq!(node.render(), cat(&[&[ESC, b'G', 1], b"z", &[ESC, b'G', 0]]));
    let owned = String::from("w").bold();
    assert_eq!(owned.render(), cat(&[&BOLD_ON, b"w", &BOLD_OFF]));
}

// Transitions.

#[test]
fn transition_order_is_fixed() {
    let before = StyleSet::default();
    let after = StyleSet::default()
        .with_rotated(true)
        .with_upside_down(true)
        .with_reverse(true)
        .with_double_strike(true)
        .with_double_underline(true)
        .with_bold(true);
    let cmds = style_transition_commands(&before, &after);
    assert_eq!(
        cmds,
        vec![
            StyleCommand::Bold(true),
            StyleCommand::Underline(UnderlineThickness::TwoDot),
            StyleCommand::DoubleStrike(true),
            StyleCommand::Reverse(true),
            StyleCommand::UpsideDown(true),
            StyleCommand::Rotated(true),
        ]
    );
    assert_eq!(style_transition_commands(&after, &after), vec![]);
}

#[test]
fn underline_transitions() {
    let none = StyleSet::default();
    let one = none.with_underline(true);
    let two = none.with_double_underline(true);
    assert_eq!(style_transition_commands(&none, &one), vec![StyleCommand::Underline(UnderlineThickness::OneDot)]);
    assert_eq!(style_transition_commands(&one, &two), vec![StyleCommand::Underline(UnderlineThickness::TwoDot)]);
    assert_eq!(style_transition_commands(&two, &one), vec![]);
    assert_eq!(style_transition_commands(&two, &none), vec![StyleCommand::Underline(UnderlineThickness::Off)]);
    assert_eq!(style_transition_commands(&one, &none), vec![StyleCommand::Underline(UnderlineThickness::Off)]);
}

#[test]
fn combination_is_or_and_strongest_underline() {
    let stack = vec![
        StyleSet::default().with_double_underline(true),
        StyleSet::default().with_bold(true),
        StyleSet::default().with_underline(true),
    ];
    let eff = StyleSet::from_stack(&stack);
    assert!(eff.bold);
    assert_eq!(eff.underline, UnderlineThickness::TwoDot);
    assert!(!eff.reverse);
    assert_eq!(StyleSet::from_stack(&vec![]), StyleSet::default());
    let merged = StyleSet::default().with_reverse(true).merged(&StyleSet::default().with_rotated(true));
    assert!(merged.reverse && merged.rotated && !merged.bold);
}

#[test]
fn style_command_bytes() {
    assert_eq!(StyleCommand::Rotated(true).to_bytes(), vec![ESC, b'V', 1]);
    assert_eq!(StyleCommand::Reverse(false).to_bytes(), vec![0x1D, b'B', 0]);
    assert_eq!(StyleCommand::UpsideDown(true).to_bytes(), vec![ESC, b'{', 1]);
}
