//! A synthetic barcode: a row of vertical bars derived from a string.

use vstd::prelude::*;
use crate::page::Point;
use crate::text::chars_of;

verus! {

/// One vertical stroke of a barcode, from its bottom end to its top end.
#[derive(Clone, Copy, Debug, PartialEq, Eq, Structural)]
pub struct BarSegment {
    pub start: Point,
    pub end: Point,
}

pub open spec fn is_even_char(c: char) -> bool {
    (c as u32) % 2 == 0
}

/// The positions, counted in millimetres (one per character) from the left edge, that carry a bar:
/// those of the characters with an even code point, among the first `width`.
pub open spec fn bar_positions(s: Seq<char>, width: nat) -> Seq<nat>
    decreases s.len(),
{
    if s.len() == 0 {
        Seq::empty()
    } else {
        let k = (s.len() - 1) as nat;
        let before = bar_positions(s.drop_last(), width);
        if k < width && is_even_char(s.last()) {
            before.push(k)
        } else {
            before
        }
    }
}

/// The bar drawn at position `i` of a box with the given origin and height.
pub open spec fn bar_at(origin: Point, height: u16, i: nat) -> BarSegment {
    BarSegment {
        start: Point { x: (origin.x + i) as u16, y: origin.y },
        end: Point { x: (origin.x + i) as u16, y: (origin.y + height) as u16 },
    }
}

/// The barcode pattern of `s` in the box at `origin` of the given size.
pub open spec fn pattern(s: Seq<char>, origin: Point, width: u16, height: u16) -> Seq<BarSegment> {
    bar_positions(s, width as nat).map_values(|i: nat| bar_at(origin, height, i))
}

/// The number of characters of `s` with an even code point.
pub open spec fn count_even(s: Seq<char>) -> nat
    decreases s.len(),
{
    if s.len() == 0 {
        0
    } else {
        count_even(s.drop_last()) + if is_even_char(s.last()) { 1nat } else { 0nat }
    }
}

pub open spec fn min_nat(a: nat, b: nat) -> nat {
    if a <= b { a } else { b }
}

proof fn lemma_positions_past_width(s: Seq<char>, width: nat)
    ensures
        bar_positions(s, width) == bar_positions(s.take(min_nat(s.len(), width) as int), width),
    decreases s.len(),
{
    if s.len() <= width {
        assert(s.take(s.len() as int) =~= s);
    } else {
        lemma_positions_past_width(s.drop_last(), width);
        assert(s.drop_last().take(width as int) =~= s.take(width as int));
    }
}

/// Everything before position `k` depends on the first `k` characters only:
/// the pattern of `s` is the pattern of its first `k` characters followed by
/// bars at positions `k` and beyond.
pub proof fn lemma_positions_split(s: Seq<char>, k: nat, width: nat)
    requires
        k <= s.len(),
    ensures
        bar_positions(s.take(k as int), width).len() <= bar_positions(s, width).len(),
        bar_positions(s, width).take(bar_positions(s.take(k as int), width).len() as int)
            == bar_positions(s.take(k as int), width),
        forall|j: int|
            bar_positions(s.take(k as int), width).len() <= j < bar_positions(s, width).len()
                ==> #[trigger] bar_positions(s, width)[j] >= k,
    decreases s.len(),
{
    let p = bar_positions(s.take(k as int), width);
    if s.len() == k {
        assert(s.take(k as int) =~= s);
        assert(bar_positions(s, width).take(p.len() as int) =~= p);
    } else {
        let d = s.drop_last();
        lemma_positions_split(d, k, width);
        assert(d.take(k as int) =~= s.take(k as int));
        let q = bar_positions(d, width);
        assert(q.take(p.len() as int) == p);
        let full = bar_positions(s, width);
        if (s.len() - 1) < width && is_even_char(s.last()) {
            assert(full == q.push((s.len() - 1) as nat));
            assert(full.take(p.len() as int) =~= q.take(p.len() as int));
        } else {
            assert(full == q);
        }
    }
}

/// Changing characters of the input from position `k` on leaves every bar
/// before position `k` as it was: both patterns begin with the pattern of the
/// shared first `k` characters, and every further bar stands at or right of
/// `origin.x + k`.
pub proof fn lemma_change_affects_only_later_bars(
    s1: Seq<char>,
    s2: Seq<char>,
    k: nat,
    origin: Point,
    width: u16,
    height: u16,
)
    requires
        k <= s1.len(),
        k <= s2.len(),
        s1.take(k as int) == s2.take(k as int),
        origin.x + width <= u16::MAX,
        origin.y + height <= u16::MAX,
    ensures
        ({
            let p = pattern(s1.take(k as int), origin, width, height);
            &&& p == pattern(s2.take(k as int), origin, width, height)
            &&& p.len() <= pattern(s1, origin, width, height).len()
            &&& p.len() <= pattern(s2, origin, width, height).len()
            &&& pattern(s1, origin, width, height).take(p.len() as int) == p
            &&& pattern(s2, origin, width, height).take(p.len() as int) == p
            &&& forall|j: int|
                p.len() <= j < pattern(s1, origin, width, height).len()
                    ==> #[trigger] pattern(s1, origin, width, height)[j].start.x >= origin.x + k
            &&& forall|j: int|
                p.len() <= j < pattern(s2, origin, width, height).len()
                    ==> #[trigger] pattern(s2, origin, width, height)[j].start.x >= origin.x + k
        }),
{
    let w = width as nat;
    lemma_positions_split(s1, k, w);
    lemma_positions_split(s2, k, w);
    lemma_positions_below_width(s1, w);
    lemma_positions_below_width(s2, w);
    let p = pattern(s1.take(k as int), origin, width, height);
    assert(pattern(s1, origin, width, height).take(p.len() as int) =~= p);
    assert(pattern(s2, origin, width, height).take(p.len() as int) =~= p);
}

/// Every bar position lies below the width.
pub proof fn lemma_positions_below_width(s: Seq<char>, width: nat)
    ensures
        forall|j: int|
            0 <= j < bar_positions(s, width).len() ==> #[trigger] bar_positions(s, width)[j] < width,
    decreases s.len(),
{
    if s.len() > 0 {
        lemma_positions_below_width(s.drop_last(), width);
        let before = bar_positions(s.drop_last(), width);
        let k = (s.len() - 1) as nat;
        if k < width && is_even_char(s.last()) {
            assert forall|j: int| 0 <= j < before.len() + 1 implies #[trigger] before.push(k)[j]
                < width by {
                if j < before.len() {
                    assert(before.push(k)[j] == before[j]);
                }
            }
        }
    }
}

/// A box of width zero holds no bar, whatever the input.
pub proof fn lemma_zero_width_is_empty(s: Seq<char>, origin: Point, height: u16)
    ensures
        pattern(s, origin, 0, height).len() == 0,
    decreases s.len(),
{
    if s.len() > 0 {
        lemma_zero_width_is_empty(s.drop_last(), origin, height);
    }
}

/// The number of bars is the number of characters with an even code point
/// among those that fit in the box.
pub proof fn lemma_bar_count(s: Seq<char>, origin: Point, width: u16, height: u16)
    ensures
        pattern(s, origin, width, height).len()
            == count_even(s.take(min_nat(s.len(), width as nat) as int)),
{
    lemma_positions_past_width(s, width as nat);
    lemma_count_within(s.take(min_nat(s.len(), width as nat) as int), width as nat);
}

proof fn lemma_count_within(s: Seq<char>, width: nat)
    requires
        s.len() <= width,
    ensures
        bar_positions(s, width).len() == count_even(s),
    decreases s.len(),
{
    if s.len() > 0 {
        lemma_count_within(s.drop_last(), width);
    }
}

/// Deterministic: equal arguments give equal patterns.
pub proof fn lemma_pattern_deterministic(
    s1: Seq<char>,
    s2: Seq<char>,
    origin: Point,
    width: u16,
    height: u16,
)
    requires
        s1 == s2,
    ensures
        pattern(s1, origin, width, height) == pattern(s2, origin, width, height),
{
}

/// The pattern of a sequence of characters.
pub fn pattern_of_chars(data: &Vec<char>, origin: Point, width: u16, height: u16) -> (r: Vec<
    BarSegment,
>)
    requires
        origin.x + width <= u16::MAX,
        origin.y + height <= u16::MAX,
    ensures
        r@ == pattern(data@, origin, width, height),
{
    let ghost s = data@;
    let mut out: Vec<BarSegment> = Vec::new();
    let mut i: usize = 0;
    while i < data.len() && i < width as usize
        invariant
            s == data@,
            i <= data@.len(),
            i <= width,
            origin.x + width <= u16::MAX,
            origin.y + height <= u16::MAX,
            out@ == pattern(s.take(i as int), origin, width, height),
        decreases data@.len() - i,
    {
        let c = data[i];
        let ghost before = s.take(i as int);
        assert(s.take(i + 1 as int).drop_last() =~= before);
        assert(s.take(i + 1 as int).last() == c);
        if (c as u32) % 2 == 0 {
            let x = origin.x + i as u16;
            out.push(
                BarSegment { start: Point { x, y: origin.y }, end: Point { x, y: origin.y + height } },
            );
        }
        i = i + 1;
        assert(out@ =~= pattern(s.take(i as int), origin, width, height));
    }
    proof {
        lemma_positions_past_width(s, width as nat);
    }
    out
}

/// The pattern of a string: one bar for each character with an even code
/// point, at that character's position, as far as the box reaches.
pub fn generate_pattern(data: &str, origin: Point, width: u16, height: u16) -> (r: Vec<BarSegment>)
    requires
        origin.x + width <= u16::MAX,
        origin.y + height <= u16::MAX,
    ensures
        r@ == pattern(data@, origin, width, height),
{
    let chars = chars_of(data);
    pattern_of_chars(&chars, origin, width, height)
}

} // verus!
