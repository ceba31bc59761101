//! Attribute sets, the combination of nested scopes, and style transitions.
//!
//! An [`StyleSet`] records the independently switchable print attributes.
//! Nested scopes combine additively ([`combine`]): a boolean attribute is on
//! when any open scope turns it on, and the underline takes the strongest
//! level that any open scope asks for. Moving the device from one effective
//! style to another takes the commands of [`transition`], one per changed
//! attribute, in a fixed order.
use vstd::prelude::*;

use crate::command::character::{
    RotationMode, SetDoubleStrike, SetEmphasized, SetReverse, SetRotation, SetUnderline,
    SetUpsideDown, UnderlineThickness,
};
use crate::command::Command;

pub mod guarantees;
pub mod text;

verus! {

/// The strength of an underline thickness: 0 for none, 1 for one dot,
/// 2 for two dots.
pub open spec fn underline_level(u: UnderlineThickness) -> nat {
    match u {
        UnderlineThickness::Off => 0,
        UnderlineThickness::OneDot => 1,
        UnderlineThickness::TwoDot => 2,
    }
}

/// The stronger of two underline thicknesses.
pub open spec fn stronger_underline(a: UnderlineThickness, b: UnderlineThickness) -> UnderlineThickness {
    if underline_level(b) > underline_level(a) {
        b
    } else {
        a
    }
}

/// One independently switchable print attribute.
#[derive(Debug, Clone, Copy, PartialEq, Eq, Structural)]
pub enum Attribute {
    /// Emphasized (bold) printing.
    Bold,
    /// Underline, at one of two thicknesses.
    Underline,
    /// Double-strike printing.
    DoubleStrike,
    /// White on black printing.
    Reverse,
    /// Printing rotated by 180 degrees.
    UpsideDown,
    /// Printing rotated by 90 degrees clockwise.
    Rotated,
}

/// A set of print attributes.
///
/// The default value has every attribute off and no underline: the
/// baseline state of the device.
#[derive(Debug, Clone, Copy, PartialEq, Eq, Structural)]
pub struct StyleSet {
    /// Emphasized (bold) printing.
    pub bold: bool,
    /// Underline thickness.
    pub underline: UnderlineThickness,
    /// Double-strike printing.
    pub double_strike: bool,
    /// White on black printing.
    pub reverse: bool,
    /// Upside-down printing.
    pub upside_down: bool,
    /// 90-degree clockwise rotation.
    pub rotated: bool,
}

impl StyleSet {
    /// The baseline: every attribute off, no underline.
    pub open spec fn baseline() -> StyleSet {
        StyleSet {
            bold: false,
            underline: UnderlineThickness::Off,
            double_strike: false,
            reverse: false,
            upside_down: false,
            rotated: false,
        }
    }

    /// The level of one attribute in this set: 0 or 1 for a switch, the
    /// underline level for the underline.
    pub open spec fn level(self, a: Attribute) -> nat {
        match a {
            Attribute::Bold => if self.bold { 1 } else { 0 },
            Attribute::Underline => underline_level(self.underline),
            Attribute::DoubleStrike => if self.double_strike { 1 } else { 0 },
            Attribute::Reverse => if self.reverse { 1 } else { 0 },
            Attribute::UpsideDown => if self.upside_down { 1 } else { 0 },
            Attribute::Rotated => if self.rotated { 1 } else { 0 },
        }
    }

    /// The combination of an enclosing style with an inner one: each switch
    /// is on when either turns it on, and the underline is the stronger one.
    pub open spec fn merge(self, inner: StyleSet) -> StyleSet {
        StyleSet {
            bold: self.bold || inner.bold,
            underline: stronger_underline(self.underline, inner.underline),
            double_strike: self.double_strike || inner.double_strike,
            reverse: self.reverse || inner.reverse,
            upside_down: self.upside_down || inner.upside_down,
            rotated: self.rotated || inner.rotated,
        }
    }

    /// Set bold on or off.
    pub fn with_bold(self, on: bool) -> (r: Self)
        ensures
            r == (StyleSet { bold: on, ..self }),
    {
        StyleSet { bold: on, ..self }
    }

    /// Set a one-dot underline, or no underline.
    pub fn with_underline(self, on: bool) -> (r: Self)
        ensures
            r == (StyleSet {
                underline: if on { UnderlineThickness::OneDot } else { UnderlineThickness::Off },
                ..self
            }),
    {
        let underline = if on {
            UnderlineThickness::OneDot
        } else {
            UnderlineThickness::Off
        };
        StyleSet { underline, ..self }
    }

    /// Set a two-dot underline, or no underline.
    pub fn with_double_underline(self, on: bool) -> (r: Self)
        ensures
            r == (StyleSet {
                underline: if on { UnderlineThickness::TwoDot } else { UnderlineThickness::Off },
                ..self
            }),
    {
        let underline = if on {
            UnderlineThickness::TwoDot
        } else {
            UnderlineThickness::Off
        };
        StyleSet { underline, ..self }
    }

    /// Set double-strike on or off.
    pub fn with_double_strike(self, on: bool) -> (r: Self)
        ensures
            r == (StyleSet { double_strike: on, ..self }),
    {
        StyleSet { double_strike: on, ..self }
    }

    /// Set reverse (white on black) on or off.
    pub fn with_reverse(self, on: bool) -> (r: Self)
        ensures
            r == (StyleSet { reverse: on, ..self }),
    {
        StyleSet { reverse: on, ..self }
    }

    /// Set upside-down printing on or off.
    pub fn with_upside_down(self, on: bool) -> (r: Self)
        ensures
            r == (StyleSet { upside_down: on, ..self }),
    {
        StyleSet { upside_down: on, ..self }
    }

    /// Set 90-degree rotation on or off.
    pub fn with_rotated(self, on: bool) -> (r: Self)
        ensures
            r == (StyleSet { rotated: on, ..self }),
    {
        StyleSet { rotated: on, ..self }
    }

    /// The combination of this enclosing style with an inner one.
    pub fn merged(&self, inner: &StyleSet) -> (r: StyleSet)
        ensures
            r == self.merge(*inner),
    {
        let underline = match (self.underline, inner.underline) {
            (UnderlineThickness::Off, u) => u,
            (UnderlineThickness::OneDot, UnderlineThickness::TwoDot) => UnderlineThickness::TwoDot,
            (u, _) => u,
        };
        StyleSet {
            bold: self.bold || inner.bold,
            underline,
            double_strike: self.double_strike || inner.double_strike,
            reverse: self.reverse || inner.reverse,
            upside_down: self.upside_down || inner.upside_down,
            rotated: self.rotated || inner.rotated,
        }
    }

    /// The effective style of a stack of scopes, outermost first.
    pub fn from_stack(stack: &Vec<StyleSet>) -> (r: StyleSet)
        ensures
            r == combine(stack@),
    {
        let mut acc = StyleSet::default();
        let mut i: usize = 0;
        while i < stack.len()
            invariant
                i <= stack@.len(),
                acc == combine(stack@.subrange(0, i as int)),
            decreases stack@.len() - i,
        {
            proof {
                assert(stack@.subrange(0, i + 1).drop_last() =~= stack@.subrange(0, i as int));
            }
            acc = acc.merged(&stack[i]);
            i = i + 1;
        }
        proof {
            assert(stack@.subrange(0, stack@.len() as int) =~= stack@);
        }
        acc
    }
}

impl Default for StyleSet {
    /// The baseline: every attribute off, no underline.
    fn default() -> (r: StyleSet)
        ensures
            r == StyleSet::baseline(),
    {
        StyleSet {
            bold: false,
            underline: UnderlineThickness::Off,
            double_strike: false,
            reverse: false,
            upside_down: false,
            rotated: false,
        }
    }
}

/// The effective style of a stack of scopes, outermost first: the baseline
/// merged with each scope in turn.
pub open spec fn combine(stack: Seq<StyleSet>) -> StyleSet
    decreases stack.len(),
{
    if stack.len() == 0 {
        StyleSet::baseline()
    } else {
        combine(stack.drop_last()).merge(stack.last())
    }
}

/// A command that sets one print attribute.
#[derive(Debug, Clone, Copy, PartialEq, Eq, Structural)]
pub enum StyleCommand {
    /// Turn bold on or off.
    Bold(bool),
    /// Select an underline thickness (`Off` disables the underline).
    Underline(UnderlineThickness),
    /// Turn double-strike on or off.
    DoubleStrike(bool),
    /// Turn reverse printing on or off.
    Reverse(bool),
    /// Turn upside-down printing on or off.
    UpsideDown(bool),
    /// Turn 90-degree rotation on or off.
    Rotated(bool),
}

impl StyleCommand {
    /// The attribute that this command sets.
    pub open spec fn attribute(self) -> Attribute {
        match self {
            StyleCommand::Bold(_) => Attribute::Bold,
            StyleCommand::Underline(_) => Attribute::Underline,
            StyleCommand::DoubleStrike(_) => Attribute::DoubleStrike,
            StyleCommand::Reverse(_) => Attribute::Reverse,
            StyleCommand::UpsideDown(_) => Attribute::UpsideDown,
            StyleCommand::Rotated(_) => Attribute::Rotated,
        }
    }

    /// The device state after this command: the one attribute set, the
    /// others kept.
    pub open spec fn apply(self, s: StyleSet) -> StyleSet {
        match self {
            StyleCommand::Bold(on) => StyleSet { bold: on, ..s },
            StyleCommand::Underline(u) => StyleSet { underline: u, ..s },
            StyleCommand::DoubleStrike(on) => StyleSet { double_strike: on, ..s },
            StyleCommand::Reverse(on) => StyleSet { reverse: on, ..s },
            StyleCommand::UpsideDown(on) => StyleSet { upside_down: on, ..s },
            StyleCommand::Rotated(on) => StyleSet { rotated: on, ..s },
        }
    }

    /// The ESC/POS bytes of this command.
    pub open spec fn bytes(self) -> Seq<u8> {
        match self {
            StyleCommand::Bold(on) => SetEmphasized(on).encoding(),
            StyleCommand::Underline(u) => SetUnderline(u).encoding(),
            StyleCommand::DoubleStrike(on) => SetDoubleStrike(on).encoding(),
            StyleCommand::Reverse(on) => SetReverse(on).encoding(),
            StyleCommand::UpsideDown(on) => SetUpsideDown(on).encoding(),
            StyleCommand::Rotated(on) => SetRotation(rotation_mode(on)).encoding(),
        }
    }

    /// Encode this command to bytes.
    pub fn to_bytes(&self) -> (r: Vec<u8>)
        ensures
            r@ == self.bytes(),
    {
        match *self {
            StyleCommand::Bold(on) => SetEmphasized(on).encode(),
            StyleCommand::Underline(u) => SetUnderline(u).encode(),
            StyleCommand::DoubleStrike(on) => SetDoubleStrike(on).encode(),
            StyleCommand::Reverse(on) => SetReverse(on).encode(),
            StyleCommand::UpsideDown(on) => SetUpsideDown(on).encode(),
            StyleCommand::Rotated(on) => {
                let mode = if on {
                    RotationMode::Clockwise90
                } else {
                    RotationMode::Off
                };
                SetRotation(mode).encode()
            },
        }
    }
}

/// The rotation mode that a rotation switch selects.
pub open spec fn rotation_mode(on: bool) -> RotationMode {
    if on {
        RotationMode::Clockwise90
    } else {
        RotationMode::Off
    }
}

/// `cmds` followed by `c` when `cond` holds, else `cmds`.
pub open spec fn push_if(cmds: Seq<StyleCommand>, cond: bool, c: StyleCommand) -> Seq<StyleCommand> {
    if cond {
        cmds.push(c)
    } else {
        cmds
    }
}

/// The thickness that the underline command of a transition selects, if
/// there is one: one dot when going from none to one dot, two dots when
/// going up to two dots, and off when going to none. Going down from two
/// dots to one emits nothing.
pub open spec fn underline_target(before: UnderlineThickness, after: UnderlineThickness) -> Option<UnderlineThickness> {
    if after == UnderlineThickness::Off && before != UnderlineThickness::Off {
        Some(UnderlineThickness::Off)
    } else if after == UnderlineThickness::OneDot && before == UnderlineThickness::Off {
        Some(UnderlineThickness::OneDot)
    } else if after == UnderlineThickness::TwoDot && before != UnderlineThickness::TwoDot {
        Some(UnderlineThickness::TwoDot)
    } else {
        None
    }
}

/// `cmds` followed by the underline command that selects `target`, if any.
pub open spec fn push_underline(cmds: Seq<StyleCommand>, target: Option<UnderlineThickness>) -> Seq<StyleCommand> {
    match target {
        Some(u) => cmds.push(StyleCommand::Underline(u)),
        None => cmds,
    }
}

/// The commands that move the device from `before` to `after`: one per
/// changed attribute, in the order bold, underline, double-strike, reverse,
/// upside-down, rotated (an underline going down from two dots to one
/// emits nothing, see [`underline_target`]).
pub open spec fn transition(before: StyleSet, after: StyleSet) -> Seq<StyleCommand> {
    let t1 = push_if(Seq::empty(), before.bold != after.bold, StyleCommand::Bold(after.bold));
    let t2 = push_underline(t1, underline_target(before.underline, after.underline));
    let t3 = push_if(t2, before.double_strike != after.double_strike, StyleCommand::DoubleStrike(after.double_strike));
    let t4 = push_if(t3, before.reverse != after.reverse, StyleCommand::Reverse(after.reverse));
    let t5 = push_if(t4, before.upside_down != after.upside_down, StyleCommand::UpsideDown(after.upside_down));
    push_if(t5, before.rotated != after.rotated, StyleCommand::Rotated(after.rotated))
}

/// The bytes of a command sequence, in order.
pub open spec fn commands_bytes(cmds: Seq<StyleCommand>) -> Seq<u8>
    decreases cmds.len(),
{
    if cmds.len() == 0 {
        Seq::empty()
    } else {
        commands_bytes(cmds.drop_last()) + cmds.last().bytes()
    }
}

/// The device state after a command sequence, starting from `s`.
pub open spec fn apply_all(s: StyleSet, cmds: Seq<StyleCommand>) -> StyleSet
    decreases cmds.len(),
{
    if cmds.len() == 0 {
        s
    } else {
        cmds.last().apply(apply_all(s, cmds.drop_last()))
    }
}

/// The commands of a sequence that set attribute `a`, in order.
pub open spec fn commands_on(cmds: Seq<StyleCommand>, a: Attribute) -> Seq<StyleCommand>
    decreases cmds.len(),
{
    if cmds.len() == 0 {
        Seq::empty()
    } else if cmds.last().attribute() == a {
        commands_on(cmds.drop_last(), a).push(cmds.last())
    } else {
        commands_on(cmds.drop_last(), a)
    }
}

/// The minimal ordered command list that moves the device from the
/// effective style `before` to `after`.
pub fn style_transition_commands(before: &StyleSet, after: &StyleSet) -> (r: Vec<StyleCommand>)
    ensures
        r@ == transition(*before, *after),
{
    let mut cmds: Vec<StyleCommand> = Vec::new();
    if before.bold != after.bold {
        cmds.push(StyleCommand::Bold(after.bold));
    }
    let target = match (before.underline, after.underline) {
        (UnderlineThickness::OneDot, UnderlineThickness::Off)
        | (UnderlineThickness::TwoDot, UnderlineThickness::Off) => Some(UnderlineThickness::Off),
        (UnderlineThickness::Off, UnderlineThickness::OneDot) => Some(UnderlineThickness::OneDot),
        (UnderlineThickness::Off, UnderlineThickness::TwoDot)
        | (UnderlineThickness::OneDot, UnderlineThickness::TwoDot) => Some(UnderlineThickness::TwoDot),
        _ => None,
    };
    assert(target == underline_target(before.underline, after.underline));
    if let Some(u) = target {
        cmds.push(StyleCommand::Underline(u));
    }
    if before.double_strike != after.double_strike {
        cmds.push(StyleCommand::DoubleStrike(after.double_strike));
    }
    if before.reverse != after.reverse {
        cmds.push(StyleCommand::Reverse(after.reverse));
    }
    if before.upside_down != after.upside_down {
        cmds.push(StyleCommand::UpsideDown(after.upside_down));
    }
    if before.rotated != after.rotated {
        cmds.push(StyleCommand::Rotated(after.rotated));
    }
    cmds
}

/// Appends the bytes of the minimal transition from `before` to `after`.
pub fn push_transition(output: &mut Vec<u8>, before: &StyleSet, after: &StyleSet)
    ensures
        final(output)@ == old(output)@ + commands_bytes(transition(*before, *after)),
{
    let cmds = style_transition_commands(before, after);
    let ghost start = output@;
    let mut i: usize = 0;
    while i < cmds.len()
        invariant
            i <= cmds@.len(),
            output@ == start + commands_bytes(cmds@.subrange(0, i as int)),
        decreases cmds@.len() - i,
    {
        let bytes = cmds[i].to_bytes();
        proof {
            assert(cmds@.subrange(0, i + 1).drop_last() =~= cmds@.subrange(0, i as int));
        }
        output.extend_from_slice(bytes.as_slice());
        proof {
            assert(output@ =~= start + commands_bytes(cmds@.subrange(0, i + 1)));
        }
        i = i + 1;
    }
    proof {
        assert(cmds@.subrange(0, cmds@.len() as int) =~= cmds@);
    }
}

} // verus!
