//! What rendering guarantees, proved over the trace of a render.
//!
//! - the device ends where it started, in the baseline state;
//! - siblings in a neutral container render one after the other, each as it
//!   would render alone;
//! - an attribute that an outer scope turns on is set once on entry and once
//!   on exit, and never inside the scope;
//! - entering a scope that asks for an attribute already in effect emits no
//!   command for it;
//! - rendering is a function of the tree.
use vstd::prelude::*;

use super::text::{
    children_trace, command_emissions, emissions_commands, lemma_command_emissions,
    lemma_emissions_bytes_concat, lemma_emissions_commands_concat, lemma_merge_baseline, trace,
    Emission, StyledNode,
};
use super::{
    apply_all, commands_on, push_if, push_underline, transition, underline_target, Attribute,
    StyleCommand, StyleSet,
};
use crate::command::character::UnderlineThickness;

verus! {

/// Applying two command sequences in a row is applying each in turn.
pub proof fn lemma_apply_all_concat(s: StyleSet, x: Seq<StyleCommand>, y: Seq<StyleCommand>)
    ensures
        apply_all(s, x + y) == apply_all(apply_all(s, x), y),
    decreases y.len(),
{
    if y.len() == 0 {
        assert(x + y =~= x);
    } else {
        assert((x + y).drop_last() =~= x + y.drop_last());
        lemma_apply_all_concat(s, x, y.drop_last());
    }
}

/// The commands on one attribute of two sequences in a row are those of
/// each in turn.
pub proof fn lemma_commands_on_concat(x: Seq<StyleCommand>, y: Seq<StyleCommand>, a: Attribute)
    ensures
        commands_on(x + y, a) == commands_on(x, a) + commands_on(y, a),
    decreases y.len(),
{
    if y.len() == 0 {
        assert(x + y =~= x);
        assert(commands_on(x, a) + commands_on(y, a) =~= commands_on(x, a));
    } else {
        assert((x + y).drop_last() =~= x + y.drop_last());
        lemma_commands_on_concat(x, y.drop_last(), a);
        assert(commands_on(x + y, a) =~= commands_on(x, a) + commands_on(y, a));
    }
}

/// One more command, applied.
pub proof fn lemma_push_apply(d: StyleSet, t: Seq<StyleCommand>, c: StyleCommand)
    ensures
        apply_all(d, t.push(c)) == c.apply(apply_all(d, t)),
{
    assert(t.push(c).drop_last() =~= t);
}

/// A command on another attribute leaves the commands on `a` unchanged.
pub proof fn lemma_push_other(t: Seq<StyleCommand>, c: StyleCommand, a: Attribute)
    requires
        c.attribute() != a,
    ensures
        commands_on(t.push(c), a) == commands_on(t, a),
{
    assert(t.push(c).drop_last() =~= t);
}

/// A command on attribute `a` is kept among the commands on `a`.
pub proof fn lemma_push_same(t: Seq<StyleCommand>, c: StyleCommand, a: Attribute)
    requires
        c.attribute() == a,
    ensures
        commands_on(t.push(c), a) == commands_on(t, a).push(c),
{
    assert(t.push(c).drop_last() =~= t);
}

impl StyleCommand {
    /// The command that sets attribute `a` to its value in `s`.
    pub open spec fn setting(a: Attribute, s: StyleSet) -> StyleCommand {
        match a {
            Attribute::Bold => StyleCommand::Bold(s.bold),
            Attribute::Underline => StyleCommand::Underline(s.underline),
            Attribute::DoubleStrike => StyleCommand::DoubleStrike(s.double_strike),
            Attribute::Reverse => StyleCommand::Reverse(s.reverse),
            Attribute::UpsideDown => StyleCommand::UpsideDown(s.upside_down),
            Attribute::Rotated => StyleCommand::Rotated(s.rotated),
        }
    }
}

/// The device state after a transition, attribute by attribute.
#[verifier::rlimit(50)]
pub proof fn lemma_transition_apply(d: StyleSet, b: StyleSet, af: StyleSet)
    ensures
        apply_all(d, transition(b, af)) == (StyleSet {
            bold: if b.bold != af.bold { af.bold } else { d.bold },
            underline: match underline_target(b.underline, af.underline) {
                Some(u) => u,
                None => d.underline,
            },
            double_strike: if b.double_strike != af.double_strike { af.double_strike } else { d.double_strike },
            reverse: if b.reverse != af.reverse { af.reverse } else { d.reverse },
            upside_down: if b.upside_down != af.upside_down { af.upside_down } else { d.upside_down },
            rotated: if b.rotated != af.rotated { af.rotated } else { d.rotated },
        }),
{
    let e = Seq::<StyleCommand>::empty();
    let c1 = StyleCommand::Bold(af.bold);
    let t1 = push_if(e, b.bold != af.bold, c1);
    let t2 = push_underline(t1, underline_target(b.underline, af.underline));
    let c3 = StyleCommand::DoubleStrike(af.double_strike);
    let t3 = push_if(t2, b.double_strike != af.double_strike, c3);
    let c4 = StyleCommand::Reverse(af.reverse);
    let t4 = push_if(t3, b.reverse != af.reverse, c4);
    let c5 = StyleCommand::UpsideDown(af.upside_down);
    let t5 = push_if(t4, b.upside_down != af.upside_down, c5);
    let c6 = StyleCommand::Rotated(af.rotated);
    let t6 = push_if(t5, b.rotated != af.rotated, c6);
    assert(transition(b, af) == t6);
    lemma_push_apply(d, e, c1);
    if let Some(u) = underline_target(b.underline, af.underline) {
        lemma_push_apply(d, t1, StyleCommand::Underline(u));
    }
    lemma_push_apply(d, t2, c3);
    lemma_push_apply(d, t3, c4);
    lemma_push_apply(d, t4, c5);
    lemma_push_apply(d, t5, c6);
}

/// The commands of a transition on the bold attribute.
proof fn lemma_transition_on_bold(b: StyleSet, af: StyleSet)
    ensures
        commands_on(transition(b, af), Attribute::Bold) == push_if(Seq::empty(), b.bold != af.bold, StyleCommand::Bold(af.bold)),
{
    let a = Attribute::Bold;
    let e = Seq::<StyleCommand>::empty();
    let target = underline_target(b.underline, af.underline);
    let c1 = StyleCommand::Bold(af.bold);
    let t1 = push_if(e, b.bold != af.bold, c1);
    let t2 = push_underline(t1, target);
    let c3 = StyleCommand::DoubleStrike(af.double_strike);
    let t3 = push_if(t2, b.double_strike != af.double_strike, c3);
    let c4 = StyleCommand::Reverse(af.reverse);
    let t4 = push_if(t3, b.reverse != af.reverse, c4);
    let c5 = StyleCommand::UpsideDown(af.upside_down);
    let t5 = push_if(t4, b.upside_down != af.upside_down, c5);
    let c6 = StyleCommand::Rotated(af.rotated);
    let t6 = push_if(t5, b.rotated != af.rotated, c6);
    assert(transition(b, af) == t6);
    assert(commands_on(e, a) =~= e);
    if b.bold != af.bold {
        lemma_push_same(e, c1, a);
    }
    if let Some(u) = target {
        lemma_push_other(t1, StyleCommand::Underline(u), a);
    }
    if b.double_strike != af.double_strike {
        lemma_push_other(t2, c3, a);
    }
    if b.reverse != af.reverse {
        lemma_push_other(t3, c4, a);
    }
    if b.upside_down != af.upside_down {
        lemma_push_other(t4, c5, a);
    }
    if b.rotated != af.rotated {
        lemma_push_other(t5, c6, a);
    }
}

/// The commands of a transition on the underline attribute.
proof fn lemma_transition_on_underline(b: StyleSet, af: StyleSet)
    ensures
        commands_on(transition(b, af), Attribute::Underline) == push_underline(Seq::empty(), underline_target(b.underline, af.underline)),
{
    let a = Attribute::Underline;
    let e = Seq::<StyleCommand>::empty();
    let target = underline_target(b.underline, af.underline);
    let c1 = StyleCommand::Bold(af.bold);
    let t1 = push_if(e, b.bold != af.bold, c1);
    let t2 = push_underline(t1, target);
    let c3 = StyleCommand::DoubleStrike(af.double_strike);
    let t3 = push_if(t2, b.double_strike != af.double_strike, c3);
    let c4 = StyleCommand::Reverse(af.reverse);
    let t4 = push_if(t3, b.reverse != af.reverse, c4);
    let c5 = StyleCommand::UpsideDown(af.upside_down);
    let t5 = push_if(t4, b.upside_down != af.upside_down, c5);
    let c6 = StyleCommand::Rotated(af.rotated);
    let t6 = push_if(t5, b.rotated != af.rotated, c6);
    assert(transition(b, af) == t6);
    assert(commands_on(e, a) =~= e);
    if b.bold != af.bold {
        lemma_push_other(e, c1, a);
    }
    if let Some(u) = target {
        lemma_push_same(t1, StyleCommand::Underline(u), a);
    }
    if b.double_strike != af.double_strike {
        lemma_push_other(t2, c3, a);
    }
    if b.reverse != af.reverse {
        lemma_push_other(t3, c4, a);
    }
    if b.upside_down != af.upside_down {
        lemma_push_other(t4, c5, a);
    }
    if b.rotated != af.rotated {
        lemma_push_other(t5, c6, a);
    }
}

/// The commands of a transition on the double-strike attribute.
proof fn lemma_transition_on_double_strike(b: StyleSet, af: StyleSet)
    ensures
        commands_on(transition(b, af), Attribute::DoubleStrike) == push_if(Seq::empty(), b.double_strike != af.double_strike, StyleCommand::DoubleStrike(af.double_strike)),
{
    let a = Attribute::DoubleStrike;
    let e = Seq::<StyleCommand>::empty();
    let target = underline_target(b.underline, af.underline);
    let c1 = StyleCommand::Bold(af.bold);
    let t1 = push_if(e, b.bold != af.bold, c1);
    let t2 = push_underline(t1, target);
    let c3 = StyleCommand::DoubleStrike(af.double_strike);
    let t3 = push_if(t2, b.double_strike != af.double_strike, c3);
    let c4 = StyleCommand::Reverse(af.reverse);
    let t4 = push_if(t3, b.reverse != af.reverse, c4);
    let c5 = StyleCommand::UpsideDown(af.upside_down);
    let t5 = push_if(t4, b.upside_down != af.upside_down, c5);
    let c6 = StyleCommand::Rotated(af.rotated);
    let t6 = push_if(t5, b.rotated != af.rotated, c6);
    assert(transition(b, af) == t6);
    assert(commands_on(e, a) =~= e);
    if b.bold != af.bold {
        lemma_push_other(e, c1, a);
    }
    if let Some(u) = target {
        lemma_push_other(t1, StyleCommand::Underline(u), a);
    }
    if b.double_strike != af.double_strike {
        lemma_push_same(t2, c3, a);
    }
    if b.reverse != af.reverse {
        lemma_push_other(t3, c4, a);
    }
    if b.upside_down != af.upside_down {
        lemma_push_other(t4, c5, a);
    }
    if b.rotated != af.rotated {
        lemma_push_other(t5, c6, a);
    }
}

/// The commands of a transition on the reverse attribute.
proof fn lemma_transition_on_reverse(b: StyleSet, af: StyleSet)
    ensures
        commands_on(transition(b, af), Attribute::Reverse) == push_if(Seq::empty(), b.reverse != af.reverse, StyleCommand::Reverse(af.reverse)),
{
    let a = Attribute::Reverse;
    let e = Seq::<StyleCommand>::empty();
    let target = underline_target(b.underline, af.underline);
    let c1 = StyleCommand::Bold(af.bold);
    let t1 = push_if(e, b.bold != af.bold, c1);
    let t2 = push_underline(t1, target);
    let c3 = StyleCommand::DoubleStrike(af.double_strike);
    let t3 = push_if(t2, b.double_strike != af.double_strike, c3);
    let c4 = StyleCommand::Reverse(af.reverse);
    let t4 = push_if(t3, b.reverse != af.reverse, c4);
    let c5 = StyleCommand::UpsideDown(af.upside_down);
    let t5 = push_if(t4, b.upside_down != af.upside_down, c5);
    let c6 = StyleCommand::Rotated(af.rotated);
    let t6 = push_if(t5, b.rotated != af.rotated, c6);
    assert(transition(b, af) == t6);
    assert(commands_on(e, a) =~= e);
    if b.bold != af.bold {
        lemma_push_other(e, c1, a);
    }
    if let Some(u) = target {
        lemma_push_other(t1, StyleCommand::Underline(u), a);
    }
    if b.double_strike != af.double_strike {
        lemma_push_other(t2, c3, a);
    }
    if b.reverse != af.reverse {
        lemma_push_same(t3, c4, a);
    }
    if b.upside_down != af.upside_down {
        lemma_push_other(t4, c5, a);
    }
    if b.rotated != af.rotated {
        lemma_push_other(t5, c6, a);
    }
}

/// The commands of a transition on the upside-down attribute.
proof fn lemma_transition_on_upside_down(b: StyleSet, af: StyleSet)
    ensures
        commands_on(transition(b, af), Attribute::UpsideDown) == push_if(Seq::empty(), b.upside_down != af.upside_down, StyleCommand::UpsideDown(af.upside_down)),
{
    let a = Attribute::UpsideDown;
    let e = Seq::<StyleCommand>::empty();
    let target = underline_target(b.underline, af.underline);
    let c1 = StyleCommand::Bold(af.bold);
    let t1 = push_if(e, b.bold != af.bold, c1);
    let t2 = push_underline(t1, target);
    let c3 = StyleCommand::DoubleStrike(af.double_strike);
    let t3 = push_if(t2, b.double_strike != af.double_strike, c3);
    let c4 = StyleCommand::Reverse(af.reverse);
    let t4 = push_if(t3, b.reverse != af.reverse, c4);
    let c5 = StyleCommand::UpsideDown(af.upside_down);
    let t5 = push_if(t4, b.upside_down != af.upside_down, c5);
    let c6 = StyleCommand::Rotated(af.rotated);
    let t6 = push_if(t5, b.rotated != af.rotated, c6);
    assert(transition(b, af) == t6);
    assert(commands_on(e, a) =~= e);
    if b.bold != af.bold {
        lemma_push_other(e, c1, a);
    }
    if let Some(u) = target {
        lemma_push_other(t1, StyleCommand::Underline(u), a);
    }
    if b.double_strike != af.double_strike {
        lemma_push_other(t2, c3, a);
    }
    if b.reverse != af.reverse {
        lemma_push_other(t3, c4, a);
    }
    if b.upside_down != af.upside_down {
        lemma_push_same(t4, c5, a);
    }
    if b.rotated != af.rotated {
        lemma_push_other(t5, c6, a);
    }
}

/// The commands of a transition on the rotated attribute.
proof fn lemma_transition_on_rotated(b: StyleSet, af: StyleSet)
    ensures
        commands_on(transition(b, af), Attribute::Rotated) == push_if(Seq::empty(), b.rotated != af.rotated, StyleCommand::Rotated(af.rotated)),
{
    let a = Attribute::Rotated;
    let e = Seq::<StyleCommand>::empty();
    let target = underline_target(b.underline, af.underline);
    let c1 = StyleCommand::Bold(af.bold);
    let t1 = push_if(e, b.bold != af.bold, c1);
    let t2 = push_underline(t1, target);
    let c3 = StyleCommand::DoubleStrike(af.double_strike);
    let t3 = push_if(t2, b.double_strike != af.double_strike, c3);
    let c4 = StyleCommand::Reverse(af.reverse);
    let t4 = push_if(t3, b.reverse != af.reverse, c4);
    let c5 = StyleCommand::UpsideDown(af.upside_down);
    let t5 = push_if(t4, b.upside_down != af.upside_down, c5);
    let c6 = StyleCommand::Rotated(af.rotated);
    let t6 = push_if(t5, b.rotated != af.rotated, c6);
    assert(transition(b, af) == t6);
    assert(commands_on(e, a) =~= e);
    if b.bold != af.bold {
        lemma_push_other(e, c1, a);
    }
    if let Some(u) = target {
        lemma_push_other(t1, StyleCommand::Underline(u), a);
    }
    if b.double_strike != af.double_strike {
        lemma_push_other(t2, c3, a);
    }
    if b.reverse != af.reverse {
        lemma_push_other(t3, c4, a);
    }
    if b.upside_down != af.upside_down {
        lemma_push_other(t4, c5, a);
    }
    if b.rotated != af.rotated {
        lemma_push_same(t5, c6, a);
    }
}

/// The commands of a transition on one attribute: none when its level does
/// not change (or the underline steps down from two dots to one), else the
/// one command that sets it to its new value.
pub proof fn lemma_transition_on(b: StyleSet, af: StyleSet, a: Attribute)
    ensures
        commands_on(transition(b, af), a) == if b.level(a) == af.level(a) || (a == Attribute::Underline
            && b.underline == UnderlineThickness::TwoDot && af.underline == UnderlineThickness::OneDot) {
            Seq::<StyleCommand>::empty()
        } else {
            seq![StyleCommand::setting(a, af)]
        },
{
    match a {
        Attribute::Bold => lemma_transition_on_bold(b, af),
        Attribute::Underline => lemma_transition_on_underline(b, af),
        Attribute::DoubleStrike => lemma_transition_on_double_strike(b, af),
        Attribute::Reverse => lemma_transition_on_reverse(b, af),
        Attribute::UpsideDown => lemma_transition_on_upside_down(b, af),
        Attribute::Rotated => lemma_transition_on_rotated(b, af),
    }
}

/// The device state `d` agrees with the effective style `e`, but for an
/// underline that is still two dots where one dot is in effect (stepping
/// down from two dots to one emits nothing).
pub open spec fn tracks(d: StyleSet, e: StyleSet) -> bool {
    d == e || (e.underline == UnderlineThickness::OneDot && d == (StyleSet {
        underline: UnderlineThickness::TwoDot,
        ..e
    }))
}

/// A transition keeps the device in step with the effective style.
proof fn lemma_transition_tracks(d: StyleSet, b: StyleSet, af: StyleSet)
    requires
        tracks(d, b),
    ensures
        tracks(apply_all(d, transition(b, af)), af),
{
    lemma_transition_apply(d, b, af);
}

/// Rendering a node keeps the device in step with the effective style.
proof fn lemma_trace_tracks(n: StyledNode, outer: StyleSet, cur: StyleSet, d: StyleSet)
    requires
        tracks(d, cur),
    ensures
        tracks(apply_all(d, emissions_commands(trace(n, outer, cur).0)), trace(n, outer, cur).1),
    decreases n, 1nat, 0int,
{
    match n {
        StyledNode::Text(s) => {
            let e = trace(n, outer, cur).0;
            assert(e.drop_last() =~= Seq::<Emission>::empty());
            assert(emissions_commands(e) =~= Seq::<StyleCommand>::empty());
        },
        StyledNode::Styled { style, children } => {
            let inner = outer.merge(style);
            let body = children_trace(n, children.len() as int, inner, inner);
            let enter = transition(cur, inner);
            let exit = transition(body.1, outer);
            lemma_emissions_commands_concat(command_emissions(enter), body.0);
            lemma_emissions_commands_concat(command_emissions(enter) + body.0, command_emissions(exit));
            lemma_command_emissions(enter);
            lemma_command_emissions(exit);
            let bc = emissions_commands(body.0);
            lemma_apply_all_concat(d, enter, bc);
            lemma_apply_all_concat(d, enter + bc, exit);
            lemma_transition_tracks(d, cur, inner);
            let d1 = apply_all(d, enter);
            lemma_children_tracks(n, children.len() as int, inner, inner, d1);
            let d2 = apply_all(d1, bc);
            lemma_transition_tracks(d2, body.1, outer);
        },
    }
}

/// Rendering the first `k` children of a group keeps the device in step
/// with the effective style.
proof fn lemma_children_tracks(n: StyledNode, k: int, outer: StyleSet, cur: StyleSet, d: StyleSet)
    requires
        tracks(d, cur),
    ensures
        tracks(
            apply_all(d, emissions_commands(children_trace(n, k, outer, cur).0)),
            children_trace(n, k, outer, cur).1,
        ),
    decreases n, 0nat, k,
{
    match n {
        StyledNode::Text(_) => {
            assert(emissions_commands(Seq::<Emission>::empty()) =~= Seq::<StyleCommand>::empty());
        },
        StyledNode::Styled { style, children } => {
            if k <= 0 || k > children.len() {
                assert(emissions_commands(Seq::<Emission>::empty()) =~= Seq::<StyleCommand>::empty());
            } else {
                let prev = children_trace(n, k - 1, outer, cur);
                let last = trace(children@[k - 1], outer, prev.1);
                lemma_emissions_commands_concat(prev.0, last.0);
                lemma_apply_all_concat(d, emissions_commands(prev.0), emissions_commands(last.0));
                lemma_children_tracks(n, k - 1, outer, cur, d);
                let d1 = apply_all(d, emissions_commands(prev.0));
                lemma_trace_tracks(children@[k - 1], outer, prev.1, d1);
            }
        },
    }
}

/// Rendering any tree returns a device that starts in the baseline state to
/// the baseline state.
pub proof fn lemma_render_returns_to_baseline(n: StyledNode)
    ensures
        apply_all(StyleSet::baseline(), n.rendered_commands()) == StyleSet::baseline(),
{
    let base = StyleSet::baseline();
    let t = trace(n, base, base);
    let back = transition(t.1, base);
    lemma_emissions_commands_concat(t.0, command_emissions(back));
    lemma_command_emissions(back);
    lemma_apply_all_concat(base, emissions_commands(t.0), back);
    lemma_trace_tracks(n, base, base, base);
    lemma_transition_tracks(apply_all(base, emissions_commands(t.0)), t.1, base);
}

/// The effective style after rendering a node: the enclosing one for a
/// group, the current one for a text leaf.
pub proof fn lemma_trace_end(n: StyledNode, outer: StyleSet, cur: StyleSet)
    ensures
        trace(n, outer, cur).1 == if n is Text { cur } else { outer },
{
}

/// A transition between equal styles emits nothing.
pub proof fn lemma_transition_same(s: StyleSet)
    ensures
        transition(s, s) == Seq::<StyleCommand>::empty(),
        command_emissions(transition(s, s)) == Seq::<Emission>::empty(),
{
    assert(transition(s, s) =~= Seq::<StyleCommand>::empty());
}

/// Siblings in a neutral container (what `append` builds) render one after
/// the other, each exactly as it renders alone: no command or text of one
/// falls between those of the other.
pub proof fn lemma_append_renders_in_sequence(t: StyledNode, a: StyledNode, b: StyledNode)
    requires
        t is Styled,
        t->style == StyleSet::baseline(),
        t->children@ == seq![a, b],
    ensures
        t.rendered() == a.rendered() + b.rendered(),
{
    let base = StyleSet::baseline();
    lemma_merge_baseline(base);
    lemma_transition_same(base);
    let ta = trace(a, base, base);
    let tb = trace(b, base, base);
    lemma_trace_end(a, base, base);
    lemma_trace_end(b, base, base);
    let c0 = children_trace(t, 0, base, base);
    let c1 = children_trace(t, 1, base, base);
    let c2 = children_trace(t, 2, base, base);
    assert(c0.0 == Seq::<Emission>::empty() && c0.1 == base);
    assert(c1.0 =~= ta.0 && c1.1 == base);
    assert(c2.0 =~= ta.0 + tb.0 && c2.1 == base);
    let tt = trace(t, base, base);
    assert(tt.0 =~= ta.0 + tb.0);
    assert(tt.1 == base);
    let empty = Seq::<Emission>::empty();
    assert(t.render_emissions() =~= ta.0 + tb.0);
    assert(a.render_emissions() =~= ta.0);
    assert(b.render_emissions() =~= tb.0);
    lemma_emissions_bytes_concat(ta.0, tb.0);
}

/// No style inside `n` sets attribute `a` above level `lvl`.
pub open spec fn styles_at_most(n: StyledNode, a: Attribute, lvl: nat) -> bool
    decreases n, 1nat, 0int,
{
    match n {
        StyledNode::Text(_) => true,
        StyledNode::Styled { style, children } => style.level(a) <= lvl && children_at_most(
            n,
            children.len() as int,
            a,
            lvl,
        ),
    }
}

/// No style inside the first `k` children of group `n` sets attribute `a`
/// above level `lvl`.
pub open spec fn children_at_most(n: StyledNode, k: int, a: Attribute, lvl: nat) -> bool
    decreases n, 0nat, k,
{
    match n {
        StyledNode::Text(_) => true,
        StyledNode::Styled { style, children } => {
            if k <= 0 || k > children.len() {
                true
            } else {
                children_at_most(n, k - 1, a, lvl) && styles_at_most(children@[k - 1], a, lvl)
            }
        },
    }
}

/// Inside scopes that already hold attribute `a` at its level, a subtree
/// that asks for no more of it emits no command on `a`, and leaves `a` at
/// that level.
pub proof fn lemma_no_commands_inside(n: StyledNode, outer: StyleSet, cur: StyleSet, a: Attribute)
    requires
        outer.level(a) == cur.level(a),
        styles_at_most(n, a, outer.level(a)),
    ensures
        commands_on(emissions_commands(trace(n, outer, cur).0), a) == Seq::<StyleCommand>::empty(),
        trace(n, outer, cur).1.level(a) == outer.level(a),
    decreases n, 1nat, 0int,
{
    let e = Seq::<StyleCommand>::empty();
    match n {
        StyledNode::Text(s) => {
            let em = trace(n, outer, cur).0;
            assert(em.drop_last() =~= Seq::<Emission>::empty());
            assert(emissions_commands(Seq::<Emission>::empty()) =~= e);
            assert(emissions_commands(em) =~= e);
            assert(commands_on(e, a) =~= e);
        },
        StyledNode::Styled { style, children } => {
            let inner = outer.merge(style);
            assert(inner.level(a) == outer.level(a));
            let body = children_trace(n, children.len() as int, inner, inner);
            let enter = transition(cur, inner);
            let exit = transition(body.1, outer);
            lemma_children_no_commands(n, children.len() as int, inner, inner, a);
            lemma_transition_on(cur, inner, a);
            lemma_transition_on(body.1, outer, a);
            lemma_emissions_commands_concat(command_emissions(enter), body.0);
            lemma_emissions_commands_concat(command_emissions(enter) + body.0, command_emissions(exit));
            lemma_command_emissions(enter);
            lemma_command_emissions(exit);
            let bc = emissions_commands(body.0);
            lemma_commands_on_concat(enter, bc, a);
            lemma_commands_on_concat(enter + bc, exit, a);
            assert(commands_on(enter + bc + exit, a) =~= e);
        },
    }
}

/// The children of a group, under the same conditions.
pub proof fn lemma_children_no_commands(n: StyledNode, k: int, outer: StyleSet, cur: StyleSet, a: Attribute)
    requires
        outer.level(a) == cur.level(a),
        children_at_most(n, k, a, outer.level(a)),
    ensures
        commands_on(emissions_commands(children_trace(n, k, outer, cur).0), a) == Seq::<StyleCommand>::empty(),
        children_trace(n, k, outer, cur).1.level(a) == outer.level(a),
    decreases n, 0nat, k,
{
    let e = Seq::<StyleCommand>::empty();
    match n {
        StyledNode::Text(_) => {
            assert(emissions_commands(Seq::<Emission>::empty()) =~= e);
            assert(commands_on(e, a) =~= e);
        },
        StyledNode::Styled { style, children } => {
            if k <= 0 || k > children.len() {
                assert(emissions_commands(Seq::<Emission>::empty()) =~= e);
                assert(commands_on(e, a) =~= e);
            } else {
                let prev = children_trace(n, k - 1, outer, cur);
                let last = trace(children@[k - 1], outer, prev.1);
                lemma_children_no_commands(n, k - 1, outer, cur, a);
                lemma_no_commands_inside(children@[k - 1], outer, prev.1, a);
                lemma_emissions_commands_concat(prev.0, last.0);
                lemma_commands_on_concat(emissions_commands(prev.0), emissions_commands(last.0), a);
                assert(commands_on(emissions_commands(prev.0) + emissions_commands(last.0), a) =~= e);
            }
        },
    }
}

/// An outer scope that turns attribute `a` on, around a subtree that asks
/// for no more of it, sets `a` exactly twice in the whole render: on entry,
/// to the outer level, and on exit, back off; never around the inner
/// scopes.
pub proof fn lemma_outer_scope_sets_once(t: StyledNode, n: StyledNode, outer: StyleSet, a: Attribute)
    requires
        t is Styled,
        t->style == outer,
        t->children@ == seq![n],
        outer.level(a) > 0,
        styles_at_most(n, a, outer.level(a)),
    ensures
        commands_on(t.rendered_commands(), a) == seq![
            StyleCommand::setting(a, outer),
            StyleCommand::setting(a, StyleSet::baseline()),
        ],
{
    let base = StyleSet::baseline();
    let e = Seq::<StyleCommand>::empty();
    lemma_merge_baseline(outer);
    lemma_transition_same(base);
    let tn = trace(n, outer, outer);
    lemma_no_commands_inside(n, outer, outer, a);
    let c0 = children_trace(t, 0, outer, outer);
    let c1 = children_trace(t, 1, outer, outer);
    assert(c0.0 == Seq::<Emission>::empty() && c0.1 == outer);
    assert(c1.0 =~= tn.0 && c1.1 == tn.1);
    let enter = transition(base, outer);
    let exit = transition(tn.1, base);
    let tt = trace(t, base, base);
    assert(tt.0 == command_emissions(enter) + tn.0 + command_emissions(exit));
    assert(tt.1 == base);
    assert(t.render_emissions() =~= tt.0);
    lemma_emissions_commands_concat(command_emissions(enter), tn.0);
    lemma_emissions_commands_concat(command_emissions(enter) + tn.0, command_emissions(exit));
    lemma_command_emissions(enter);
    lemma_command_emissions(exit);
    let nc = emissions_commands(tn.0);
    lemma_commands_on_concat(enter, nc, a);
    lemma_commands_on_concat(enter + nc, exit, a);
    lemma_transition_on(base, outer, a);
    lemma_transition_on(tn.1, base, a);
    assert(commands_on(enter + nc + exit, a) =~= seq![
        StyleCommand::setting(a, outer),
        StyleCommand::setting(a, base),
    ]);
}

/// Entering a scope whose request for attribute `a` is already met by the
/// effective style emits no command on `a`.
pub proof fn lemma_reentering_active_is_silent(cur: StyleSet, s: StyleSet, a: Attribute)
    requires
        s.level(a) <= cur.level(a),
    ensures
        commands_on(transition(cur, cur.merge(s)), a) == Seq::<StyleCommand>::empty(),
{
    assert(cur.merge(s).level(a) == cur.level(a));
    lemma_transition_on(cur, cur.merge(s), a);
}

/// Rendering is a function of the tree: equal trees render to the same
/// bytes.
pub proof fn lemma_render_deterministic(n1: StyledNode, n2: StyledNode)
    requires
        n1 == n2,
    ensures
        n1.rendered() == n2.rendered(),
{
}

} // verus!
