//! The styled text tree and its renderer.
//!
//! A [`StyledNode`] is either a text leaf or a group that applies a style to
//! its children. Rendering walks the tree depth first, keeps the stack of
//! open scopes, and emits the minimal transition whenever the effective
//! style changes: on entering and on leaving each group. The output ends
//! with the device back in the baseline state.
use vstd::prelude::*;

use super::{
    combine, commands_bytes, push_transition, transition, StyleCommand, StyleSet,
};
use crate::command::basic::LineFeed;
use crate::command::character::UnderlineThickness;
use crate::command::Command;

verus! {

/// A node in the styled text tree.
#[derive(Debug, PartialEq, Eq)]
pub enum StyledNode {
    /// Plain text without styling.
    Text(String),
    /// Styled content with children.
    Styled {
        /// Style applied to children.
        style: StyleSet,
        /// Child nodes.
        children: Vec<StyledNode>,
    },
}

/// One piece of rendered output: literal text, or a style command.
pub enum Emission {
    /// Bytes of text, emitted verbatim.
    Text(Seq<u8>),
    /// A style command.
    Command(StyleCommand),
}

/// The bytes of a text leaf: the UTF-8 encoding of its characters.
pub open spec fn text_bytes(s: String) -> Seq<u8> {
    vstd::utf8::encode_utf8(s@)
}

/// The emissions of a command sequence.
pub open spec fn command_emissions(cmds: Seq<StyleCommand>) -> Seq<Emission>
    decreases cmds.len(),
{
    if cmds.len() == 0 {
        Seq::empty()
    } else {
        command_emissions(cmds.drop_last()).push(Emission::Command(cmds.last()))
    }
}

/// The bytes of a sequence of emissions, in order.
pub open spec fn emissions_bytes(e: Seq<Emission>) -> Seq<u8>
    decreases e.len(),
{
    if e.len() == 0 {
        Seq::empty()
    } else {
        emissions_bytes(e.drop_last()) + match e.last() {
            Emission::Text(t) => t,
            Emission::Command(c) => c.bytes(),
        }
    }
}

/// The style commands among a sequence of emissions, in order.
pub open spec fn emissions_commands(e: Seq<Emission>) -> Seq<StyleCommand>
    decreases e.len(),
{
    if e.len() == 0 {
        Seq::empty()
    } else {
        match e.last() {
            Emission::Text(_) => emissions_commands(e.drop_last()),
            Emission::Command(c) => emissions_commands(e.drop_last()).push(c),
        }
    }
}

/// What rendering `n` emits, inside scopes whose effective style is `outer`,
/// with the device in effective style `cur`; and the effective style after.
pub open spec fn trace(n: StyledNode, outer: StyleSet, cur: StyleSet) -> (Seq<Emission>, StyleSet)
    decreases n, 1nat, 0int,
{
    match n {
        StyledNode::Text(s) => (seq![Emission::Text(text_bytes(s))], cur),
        StyledNode::Styled { style, children } => {
            let inner = outer.merge(style);
            let body = children_trace(n, children.len() as int, inner, inner);
            (
                command_emissions(transition(cur, inner)) + body.0 + command_emissions(
                    transition(body.1, outer),
                ),
                outer,
            )
        },
    }
}

/// What rendering the first `k` children of group `n` emits, inside scopes
/// whose effective style is `outer`, from effective style `cur`; and the
/// effective style after.
pub open spec fn children_trace(n: StyledNode, k: int, outer: StyleSet, cur: StyleSet) -> (
    Seq<Emission>,
    StyleSet,
)
    decreases n, 0nat, k,
{
    match n {
        StyledNode::Text(_) => (Seq::empty(), cur),
        StyledNode::Styled { style, children } => {
            if k <= 0 || k > children.len() {
                (Seq::empty(), cur)
            } else {
                let prev = children_trace(n, k - 1, outer, cur);
                let last = trace(children@[k - 1], outer, prev.1);
                (prev.0 + last.0, last.1)
            }
        },
    }
}

/// The bytes of two emission sequences in a row are the bytes of each.
pub proof fn lemma_emissions_bytes_concat(a: Seq<Emission>, b: Seq<Emission>)
    ensures
        emissions_bytes(a + b) == emissions_bytes(a) + emissions_bytes(b),
    decreases b.len(),
{
    if b.len() == 0 {
        assert(a + b =~= a);
        assert(emissions_bytes(a) + emissions_bytes(b) =~= emissions_bytes(a));
    } else {
        assert((a + b).drop_last() =~= a + b.drop_last());
        lemma_emissions_bytes_concat(a, b.drop_last());
        assert(emissions_bytes(a + b) =~= emissions_bytes(a) + emissions_bytes(b));
    }
}

/// The commands of two emission sequences in a row are the commands of each.
pub proof fn lemma_emissions_commands_concat(a: Seq<Emission>, b: Seq<Emission>)
    ensures
        emissions_commands(a + b) == emissions_commands(a) + emissions_commands(b),
    decreases b.len(),
{
    if b.len() == 0 {
        assert(a + b =~= a);
        assert(emissions_commands(a) + emissions_commands(b) =~= emissions_commands(a));
    } else {
        assert((a + b).drop_last() =~= a + b.drop_last());
        lemma_emissions_commands_concat(a, b.drop_last());
        assert(emissions_commands(a + b) =~= emissions_commands(a) + emissions_commands(b));
    }
}

/// Emitting a command sequence emits its bytes and exactly its commands.
pub proof fn lemma_command_emissions(cmds: Seq<StyleCommand>)
    ensures
        emissions_bytes(command_emissions(cmds)) == commands_bytes(cmds),
        emissions_commands(command_emissions(cmds)) == cmds,
    decreases cmds.len(),
{
    if cmds.len() > 0 {
        lemma_command_emissions(cmds.drop_last());
        let e = command_emissions(cmds);
        assert(e.drop_last() =~= command_emissions(cmds.drop_last()));
        assert(cmds.drop_last().push(cmds.last()) =~= cmds);
    } else {
        assert(cmds =~= Seq::<StyleCommand>::empty());
    }
}

impl StyledNode {
    /// The emissions of rendering this tree on its own: its trace from the
    /// baseline, then the transition back to the baseline.
    pub open spec fn render_emissions(self) -> Seq<Emission> {
        let t = trace(self, StyleSet::baseline(), StyleSet::baseline());
        t.0 + command_emissions(transition(t.1, StyleSet::baseline()))
    }

    /// The bytes that rendering this tree produces.
    pub open spec fn rendered(self) -> Seq<u8> {
        emissions_bytes(self.render_emissions())
    }

    /// The style commands that rendering this tree produces, in order.
    pub open spec fn rendered_commands(self) -> Seq<StyleCommand> {
        emissions_commands(self.render_emissions())
    }

    /// Create a text node.
    pub fn text(s: &str) -> (r: Self)
        ensures
            r is Text,
            r->Text_0@ == s@,
    {
        StyledNode::Text(s.to_owned())
    }

    /// Create a styled node with a single text child.
    pub fn styled(style: StyleSet, content: &str) -> (r: Self)
        ensures
            r is Styled,
            r->style == style,
            r->children@.len() == 1,
            r->children@[0] is Text,
            r->children@[0]->Text_0@ == content@,
    {
        StyledNode::Styled { style, children: vec![StyledNode::Text(content.to_owned())] }
    }

    /// Wrap this node with additional style.
    pub fn with_style(self, style: StyleSet) -> (r: Self)
        ensures
            r is Styled,
            r->style == style,
            r->children@ == seq![self],
    {
        StyledNode::Styled { style, children: vec![self] }
    }

    /// Append another node as a sibling.
    ///
    /// Creates a neutral container, with the baseline style, so that styles
    /// do not leak between siblings.
    pub fn append(self, other: StyledNode) -> (r: Self)
        ensures
            r is Styled,
            r->style == StyleSet::baseline(),
            r->children@ == seq![self, other],
    {
        StyledNode::Styled { style: StyleSet::default(), children: vec![self, other] }
    }
    /// Render to bytes, including style commands.
    ///
    /// Returns the byte sequence ready to send to the printer.
    pub fn render(&self) -> (r: Vec<u8>)
        ensures
            r@ == self.rendered(),
    {
        let mut output: Vec<u8> = Vec::new();
        let mut style_stack: Vec<StyleSet> = Vec::new();
        style_stack.push(StyleSet::default());
        let mut current_effective = StyleSet::default();
        proof {
            assert(style_stack@.drop_last() =~= Seq::<StyleSet>::empty());
            lemma_merge_baseline(StyleSet::baseline());
            reveal_with_fuel(combine, 2);
            assert(combine(style_stack@) == StyleSet::baseline());
        }
        self.render_recursive(&mut output, &mut style_stack, &mut current_effective);
        let default_style = StyleSet::default();
        push_transition(&mut output, &current_effective, &default_style);
        proof {
            let t = trace(*self, StyleSet::baseline(), StyleSet::baseline());
            assert(output@ == emissions_bytes(t.0) + commands_bytes(transition(t.1, StyleSet::baseline())));
            let back = transition(t.1, StyleSet::baseline());
            lemma_command_emissions(back);
            lemma_emissions_bytes_concat(t.0, command_emissions(back));
            assert(output@ =~= self.rendered());
        }
        output
    }

    /// Render to bytes and append a line feed.
    pub fn render_line(&self) -> (r: Vec<u8>)
        ensures
            r@ == self.rendered().push(crate::command::LF),
    {
        let mut output = self.render();
        let lf = LineFeed.encode();
        output.extend_from_slice(lf.as_slice());
        assert(output@ =~= self.rendered().push(crate::command::LF));
        output
    }

    #[verifier::rlimit(50)]
    fn render_recursive(&self, output: &mut Vec<u8>, style_stack: &mut Vec<StyleSet>, current_effective: &mut StyleSet)
        ensures
            final(output)@ == old(output)@ + emissions_bytes(
                trace(*self, combine(old(style_stack)@), *old(current_effective)).0,
            ),
            *final(current_effective) == trace(*self, combine(old(style_stack)@), *old(current_effective)).1,
            final(style_stack)@ == old(style_stack)@,
        decreases self,
    {
        let ghost out0 = output@;
        let ghost stack0 = style_stack@;
        let ghost cur0 = *current_effective;
        let ghost outer = combine(style_stack@);
        match self {
            StyledNode::Text(text) => {
                push_text(output, text);
            },
            StyledNode::Styled { style, children } => {
                proof {
                    assert(self->style == *style);
                    assert(self->children == *children);
                }
                style_stack.push(*style);
                proof {
                    assert(style_stack@.drop_last() =~= stack0);
                }
                let new_effective = StyleSet::from_stack(style_stack);
                let ghost inner = new_effective;
                push_transition(output, current_effective, &new_effective);
                *current_effective = new_effective;
                let ghost enter = transition(cur0, inner);
                let mut i: usize = 0;
                while i < children.len()
                    invariant
                        0 <= i <= children@.len(),
                        *self is Styled,
                        self->style == *style,
                        self->children == *children,
                        style_stack@ == stack0.push(*style),
                        combine(style_stack@) == inner,
                        inner == outer.merge(*style),
                        output@ == out0 + commands_bytes(enter) + emissions_bytes(
                            children_trace(*self, i as int, inner, inner).0,
                        ),
                        *current_effective == children_trace(*self, i as int, inner, inner).1,
                    decreases children@.len() - i,
                {
                    let ghost before = output@;
                    let ghost prev = children_trace(*self, i as int, inner, inner);
                    proof {
                        assert(decreases_to!(*self => self->children));
                        assert(decreases_to!(*children => children@[i as int]));
                    }
                    children[i].render_recursive(output, style_stack, current_effective);
                    proof {
                        let last = trace(children@[i as int], inner, prev.1);
                        assert(output@ == before + emissions_bytes(last.0));
                        assert(children_trace(*self, i + 1, inner, inner) == (prev.0 + last.0, last.1));
                        lemma_emissions_bytes_concat(prev.0, last.0);
                        assert(output@ =~= out0 + commands_bytes(enter) + emissions_bytes(
                            children_trace(*self, i + 1, inner, inner).0,
                        ));
                    }
                    i = i + 1;
                }
                let ghost body = children_trace(*self, children@.len() as int, inner, inner);
                style_stack.pop();
                proof {
                    assert(style_stack@ =~= stack0);
                }
                let popped_effective = StyleSet::from_stack(style_stack);
                push_transition(output, current_effective, &popped_effective);
                *current_effective = popped_effective;
                proof {
                    let exit = transition(body.1, outer);
                    lemma_command_emissions(enter);
                    lemma_command_emissions(exit);
                    lemma_emissions_bytes_concat(command_emissions(enter), body.0);
                    lemma_emissions_bytes_concat(command_emissions(enter) + body.0, command_emissions(exit));
                    assert(output@ =~= out0 + emissions_bytes(trace(*self, outer, cur0).0));
                }
            },
        }
    }
}

/// Appends the bytes of a text leaf.
fn push_text(output: &mut Vec<u8>, text: &String)
    ensures
        final(output)@ == old(output)@ + emissions_bytes(seq![Emission::Text(text_bytes(*text))]),
{
    let bytes = text.as_str().as_bytes();
    output.extend_from_slice(bytes);
    proof {
        let e = seq![Emission::Text(text_bytes(*text))];
        assert(e.drop_last() =~= Seq::<Emission>::empty());
        assert(emissions_bytes(e.drop_last()) =~= Seq::<u8>::empty());
        assert(emissions_bytes(e) =~= text_bytes(*text));
    }
}

/// Ergonomic text styling, for string slices, strings and nodes.
pub trait Styleable: Sized {
    /// Whether `n` is the node that this value converts to.
    spec fn converts_to(&self, n: StyledNode) -> bool;

    /// Convert to a StyledNode.
    fn into_node(self) -> (r: StyledNode)
        ensures
            self.converts_to(r),
    ;

    /// Apply bold/emphasized style.
    fn bold(self) -> (r: StyledNode)
        ensures
            r is Styled,
            r->style == (StyleSet { bold: true, ..StyleSet::baseline() }),
            r->children@.len() == 1,
            self.converts_to(r->children@[0]),
    {
        let n = self.into_node();
        n.with_style(StyleSet::default().with_bold(true))
    }

    /// Apply underline style.
    fn underlined(self) -> (r: StyledNode)
        ensures
            r is Styled,
            r->style == (StyleSet { underline: UnderlineThickness::OneDot, ..StyleSet::baseline() }),
            r->children@.len() == 1,
            self.converts_to(r->children@[0]),
    {
        let n = self.into_node();
        n.with_style(StyleSet::default().with_underline(true))
    }

    /// Apply double underline style.
    fn double_underlined(self) -> (r: StyledNode)
        ensures
            r is Styled,
            r->style == (StyleSet { underline: UnderlineThickness::TwoDot, ..StyleSet::baseline() }),
            r->children@.len() == 1,
            self.converts_to(r->children@[0]),
    {
        let n = self.into_node();
        n.with_style(StyleSet::default().with_double_underline(true))
    }

    /// Apply reverse (white on black) style.
    fn reversed(self) -> (r: StyledNode)
        ensures
            r is Styled,
            r->style == (StyleSet { reverse: true, ..StyleSet::baseline() }),
            r->children@.len() == 1,
            self.converts_to(r->children@[0]),
    {
        let n = self.into_node();
        n.with_style(StyleSet::default().with_reverse(true))
    }

    /// Apply double-strike style.
    fn double_strike(self) -> (r: StyledNode)
        ensures
            r is Styled,
            r->style == (StyleSet { double_strike: true, ..StyleSet::baseline() }),
            r->children@.len() == 1,
            self.converts_to(r->children@[0]),
    {
        let n = self.into_node();
        n.with_style(StyleSet::default().with_double_strike(true))
    }

    /// Apply upside-down style.
    fn upside_down(self) -> (r: StyledNode)
        ensures
            r is Styled,
            r->style == (StyleSet { upside_down: true, ..StyleSet::baseline() }),
            r->children@.len() == 1,
            self.converts_to(r->children@[0]),
    {
        let n = self.into_node();
        n.with_style(StyleSet::default().with_upside_down(true))
    }

    /// Apply 90-degree rotation.
    fn rotated(self) -> (r: StyledNode)
        ensures
            r is Styled,
            r->style == (StyleSet { rotated: true, ..StyleSet::baseline() }),
            r->children@.len() == 1,
            self.converts_to(r->children@[0]),
    {
        let n = self.into_node();
        n.with_style(StyleSet::default().with_rotated(true))
    }

    /// Append another styled value as a sibling, in a neutral container.
    fn append(self, other: StyledNode) -> (r: StyledNode)
        ensures
            r is Styled,
            r->style == StyleSet::baseline(),
            r->children@.len() == 2,
            self.converts_to(r->children@[0]),
            r->children@[1] == other,
    {
        let n = self.into_node();
        n.append(other)
    }
}

impl<'a> Styleable for &'a str {
    open spec fn converts_to(&self, n: StyledNode) -> bool {
        n is Text && n->Text_0@ == self@
    }

    fn into_node(self) -> (r: StyledNode) {
        StyledNode::Text(self.to_owned())
    }
}

impl Styleable for String {
    open spec fn converts_to(&self, n: StyledNode) -> bool {
        n is Text && n->Text_0@ == self@
    }

    fn into_node(self) -> (r: StyledNode) {
        StyledNode::Text(self)
    }
}

impl Styleable for StyledNode {
    open spec fn converts_to(&self, n: StyledNode) -> bool {
        n == *self
    }

    fn into_node(self) -> (r: StyledNode) {
        self
    }
}

/// Merging the baseline into a style leaves it unchanged, and so does
/// merging a style into the baseline.
pub proof fn lemma_merge_baseline(s: StyleSet)
    ensures
        s.merge(StyleSet::baseline()) == s,
        StyleSet::baseline().merge(s) == s,
{
}

} // verus!
