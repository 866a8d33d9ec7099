//! Pages, positions and the drawing instructions laid out on them.

use vstd::prelude::*;

verus! {

/// A position on a page, in whole millimetres from the bottom-left corner.
#[derive(Clone, Copy, Debug, PartialEq, Eq, Structural)]
pub struct Point {
    pub x: u16,
    pub y: u16,
}

/// The fixed physical size of a one-page document, in millimetres.
#[derive(Clone, Copy, Debug, PartialEq, Eq, Structural)]
pub struct PageProfile {
    pub width: u16,
    pub height: u16,
}

/// The two font weights a document may use.
#[derive(Clone, Copy, Debug, PartialEq, Eq, Structural)]
pub enum FontWeight {
    Regular,
    Bold,
}

/// One piece of text: its content, its size in points, its baseline position
/// and its weight.
#[derive(Clone, Debug)]
pub struct TextRun {
    pub content: Vec<char>,
    pub size_pt: u16,
    pub at: Point,
    pub weight: FontWeight,
}

/// One primitive drawing operation, with every position resolved.
#[derive(Clone, Debug)]
pub enum DrawInstruction {
    Text(TextRun),
    LineStroke { from: Point, to: Point },
    ClosedPolygon { points: Vec<Point> },
}

/// The mathematical value of a `DrawInstruction`.
pub enum Instr {
    Text { content: Seq<char>, size_pt: u16, at: Point, weight: FontWeight },
    LineStroke { from: Point, to: Point },
    ClosedPolygon { points: Seq<Point> },
}

impl View for DrawInstruction {
    type V = Instr;

    open spec fn view(&self) -> Instr {
        match self {
            DrawInstruction::Text(t) => Instr::Text {
                content: t.content@,
                size_pt: t.size_pt,
                at: t.at,
                weight: t.weight,
            },
            DrawInstruction::LineStroke { from, to } => Instr::LineStroke { from: *from, to: *to },
            DrawInstruction::ClosedPolygon { points } => Instr::ClosedPolygon { points: points@ },
        }
    }
}

/// The values of a sequence of instructions, in order.
pub open spec fn instrs_view(v: Seq<DrawInstruction>) -> Seq<Instr> {
    v.map_values(|d: DrawInstruction| d@)
}

pub open spec fn point_on(p: PageProfile, q: Point) -> bool {
    q.x <= p.width && q.y <= p.height
}

/// Every position that the instruction places lies on the page.
pub open spec fn instr_on(p: PageProfile, i: Instr) -> bool {
    match i {
        Instr::Text { at, .. } => point_on(p, at),
        Instr::LineStroke { from, to } => point_on(p, from) && point_on(p, to),
        Instr::ClosedPolygon { points } => forall|k: int|
            0 <= k < points.len() ==> point_on(p, #[trigger] points[k]),
    }
}

pub open spec fn all_on(p: PageProfile, s: Seq<Instr>) -> bool {
    forall|k: int| 0 <= k < s.len() ==> instr_on(p, #[trigger] s[k])
}

} // verus!
