use vstd::prelude::*;

verus! {

/// The drawing tools that the overlay offers.
#[derive(Debug, Clone, Copy, PartialEq, Eq, Structural, PartialOrd, Ord, Hash)]
pub enum Tool {
    Pen,
    Line,
    Arrow,
    Triangle,
    Rectangle,
    Ellipse,
    Text,
    Eraser,
    Select,
}

impl Tool {
    /// Shapes that can be drawn filled: triangles, rectangles and ellipses.
    pub open spec fn spec_supports_fill(self) -> bool {
        self == Tool::Triangle || self == Tool::Rectangle || self == Tool::Ellipse
    }

    /// Whether the tool draws shapes that can be filled.
    pub fn supports_fill(self) -> (res: bool)
        ensures
            res == self.spec_supports_fill(),
    {
        matches!(self, Tool::Triangle | Tool::Rectangle | Tool::Ellipse)
    }
}

} // verus!
