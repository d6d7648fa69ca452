//! The kind of room at a node.

use vstd::prelude::*;

verus! {

/// The kind of room at a node of the map.
#[derive(Debug, Clone, Copy, PartialEq, Eq, Structural)]
pub enum NodeKind {
    /// No kind has been assigned yet.
    Unassigned,
    Monster,
    Elite,
    Event,
    Rest,
    Shop,
    Treasure,
    /// The node is on no path.
    Empty,
}

impl Default for NodeKind {
    fn default() -> (kind: Self)
        ensures
            kind == NodeKind::Unassigned,
    {
        NodeKind::Unassigned
    }
}

/// The kinds that may not stand in `row`: no elite and no rest site in the
/// first five rows, no rest site from row 13 on.
pub open spec fn barred(kind: NodeKind, row: int) -> bool {
    if row <= 4 {
        kind == NodeKind::Elite || kind == NodeKind::Rest
    } else if row >= 13 {
        kind == NodeKind::Rest
    } else {
        false
    }
}

/// The glyph of a kind.
pub open spec fn glyph(kind: NodeKind) -> char {
    match kind {
        NodeKind::Unassigned => '*',
        NodeKind::Monster => 'M',
        NodeKind::Elite => 'E',
        NodeKind::Event => '?',
        NodeKind::Rest => 'R',
        NodeKind::Shop => '$',
        NodeKind::Treasure => 'T',
        NodeKind::Empty => ' ',
    }
}

impl NodeKind {
    /// Whether the kind may not stand in `row`.
    pub fn incompatible_with(&self, row: usize) -> (r: bool)
        ensures
            r == barred(*self, row as int),
    {
        if row <= 4 {
            matches!(self, NodeKind::Elite) || matches!(self, NodeKind::Rest)
        } else if row >= 13 {
            matches!(self, NodeKind::Rest)
        } else {
            false
        }
    }

    /// The glyph that stands for the kind in a rendered map.
    pub fn char(&self) -> (c: char)
        ensures
            c == glyph(*self),
    {
        match self {
            NodeKind::Unassigned => '*',
            NodeKind::Monster => 'M',
            NodeKind::Elite => 'E',
            NodeKind::Event => '?',
            NodeKind::Rest => 'R',
            NodeKind::Shop => '$',
            NodeKind::Treasure => 'T',
            NodeKind::Empty => ' ',
        }
    }

    /// Whether a kind has been assigned.
    pub fn is_assigned(&self) -> (r: bool)
        ensures
            r == (*self != NodeKind::Unassigned),
    {
        !matches!(self, NodeKind::Unassigned)
    }

    /// Whether the kind is that of a node on no path.
    pub fn is_empty(&self) -> (r: bool)
        ensures
            r == (*self == NodeKind::Empty),
    {
        matches!(self, NodeKind::Empty)
    }

    /// The kind as text: its glyph.
    pub fn to_string(&self) -> (r: String)
        ensures
            r@ == seq![glyph(*self)],
    {
        let mut text = String::new();
        crate::text::push_char(&mut text, self.char());
        assert(text@ =~= seq![glyph(*self)]);
        text
    }
}

} // verus!
