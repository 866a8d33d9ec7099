//! Where each field of a credential card or a book label is drawn.

use vstd::prelude::*;
use crate::barcode::{pattern_of_chars, pattern, BarSegment, lemma_positions_below_width};
use crate::page::{Point, PageProfile, FontWeight, TextRun, DrawInstruction, Instr, instrs_view, all_on, instr_on, point_on};
use crate::records::{CredentialData, BookData};
use crate::text::{push_str, push_chars, push_decimal, chars_of, int_decimal};

verus! {

broadcast use vstd::string::group_string_axioms;

pub const CREDENTIAL_WIDTH_MM: u16 = 85;
pub const CREDENTIAL_HEIGHT_MM: u16 = 54;
pub const LABEL_WIDTH_MM: u16 = 70;
pub const LABEL_HEIGHT_MM: u16 = 30;

pub const CREDENTIAL_TITLE_PT: u16 = 12;
pub const CREDENTIAL_NAME_PT: u16 = 10;
pub const CREDENTIAL_ID_PT: u16 = 8;
pub const CREDENTIAL_DETAIL_PT: u16 = 8;
pub const CREDENTIAL_CAPTION_PT: u16 = 6;

pub const LABEL_TITLE_PT: u16 = 10;
pub const LABEL_AUTHOR_PT: u16 = 8;
pub const LABEL_ID_PT: u16 = 8;
pub const LABEL_DETAIL_PT: u16 = 7;
pub const LABEL_CAPTION_PT: u16 = 6;

/// The font sizes, in points, that one kind of document uses for its fields.
#[derive(Clone, Copy, Debug, PartialEq, Eq, Structural)]
pub struct Legibility {
    /// The heading.
    pub title_pt: u16,
    /// The line under the heading: a person's name, a book's author.
    pub subtitle_pt: u16,
    /// The identifier line.
    pub id_pt: u16,
    /// Secondary text: the photo caption, a book's location.
    pub detail_pt: u16,
    /// Captions round the barcode and the issue date.
    pub caption_pt: u16,
}

pub open spec fn credential_sizes() -> Legibility {
    Legibility {
        title_pt: CREDENTIAL_TITLE_PT,
        subtitle_pt: CREDENTIAL_NAME_PT,
        id_pt: CREDENTIAL_ID_PT,
        detail_pt: CREDENTIAL_DETAIL_PT,
        caption_pt: CREDENTIAL_CAPTION_PT,
    }
}

pub open spec fn label_sizes() -> Legibility {
    Legibility {
        title_pt: LABEL_TITLE_PT,
        subtitle_pt: LABEL_AUTHOR_PT,
        id_pt: LABEL_ID_PT,
        detail_pt: LABEL_DETAIL_PT,
        caption_pt: LABEL_CAPTION_PT,
    }
}

/// The font sizes of a credential card.
pub fn credential_legibility() -> (r: Legibility)
    ensures
        r == credential_sizes(),
{
    Legibility {
        title_pt: CREDENTIAL_TITLE_PT,
        subtitle_pt: CREDENTIAL_NAME_PT,
        id_pt: CREDENTIAL_ID_PT,
        detail_pt: CREDENTIAL_DETAIL_PT,
        caption_pt: CREDENTIAL_CAPTION_PT,
    }
}

/// The font sizes of a book label.
pub fn label_legibility() -> (r: Legibility)
    ensures
        r == label_sizes(),
{
    Legibility {
        title_pt: LABEL_TITLE_PT,
        subtitle_pt: LABEL_AUTHOR_PT,
        id_pt: LABEL_ID_PT,
        detail_pt: LABEL_DETAIL_PT,
        caption_pt: LABEL_CAPTION_PT,
    }
}

pub open spec fn credential_page() -> PageProfile {
    PageProfile { width: CREDENTIAL_WIDTH_MM, height: CREDENTIAL_HEIGHT_MM }
}

pub open spec fn label_page() -> PageProfile {
    PageProfile { width: LABEL_WIDTH_MM, height: LABEL_HEIGHT_MM }
}

/// The page of a credential card: 85 by 54 millimetres.
pub fn credential_profile() -> (r: PageProfile)
    ensures
        r == credential_page(),
{
    PageProfile { width: CREDENTIAL_WIDTH_MM, height: CREDENTIAL_HEIGHT_MM }
}

/// The page of a book label: 70 by 30 millimetres.
pub fn label_profile() -> (r: PageProfile)
    ensures
        r == label_page(),
{
    PageProfile { width: LABEL_WIDTH_MM, height: LABEL_HEIGHT_MM }
}

pub open spec fn pt(x: u16, y: u16) -> Point {
    Point { x, y }
}

pub open spec fn text(weight: FontWeight, size_pt: u16, at: Point, content: Seq<char>) -> Instr {
    Instr::Text { content, size_pt, at, weight }
}

pub open spec fn bar_line(b: BarSegment) -> Instr {
    Instr::LineStroke { from: b.start, to: b.end }
}

pub open spec fn bar_lines(s: Seq<BarSegment>) -> Seq<Instr> {
    s.map_values(|b: BarSegment| bar_line(b))
}

/// The outline of the photo placeholder on a credential card.
pub open spec fn photo_frame() -> Instr {
    Instr::ClosedPolygon { points: seq![pt(55, 25), pt(75, 25), pt(75, 40), pt(55, 40)] }
}

/// The caption centred in the photo placeholder.
pub open spec fn photo_caption() -> Instr {
    text(FontWeight::Regular, CREDENTIAL_DETAIL_PT, pt(60, 32), "FOTO"@)
}

/// The line that carries the issue date.
pub open spec fn issue_line(date: Seq<char>) -> Instr {
    text(FontWeight::Regular, CREDENTIAL_CAPTION_PT, pt(5, 5), "Emisión: "@ + date)
}

/// The drawing of a credential card, in order. The photo reference plays no
/// part: the frame and its caption are always drawn.
pub open spec fn credential_layout(
    id: Seq<char>,
    nombre: Seq<char>,
    apellido: Seq<char>,
    date: Seq<char>,
) -> Seq<Instr> {
    seq![
        text(FontWeight::Bold, CREDENTIAL_TITLE_PT, pt(5, 45), "CREDENCIAL PPL"@),
        text(FontWeight::Bold, CREDENTIAL_NAME_PT, pt(5, 38), nombre + seq![' '] + apellido),
        text(FontWeight::Bold, CREDENTIAL_ID_PT, pt(5, 32), "ID: "@ + id),
        text(FontWeight::Bold, CREDENTIAL_CAPTION_PT, pt(5, 26), "Código de barras:"@),
    ] + bar_lines(pattern(id, pt(5, 22), 40, 3)) + seq![
        text(FontWeight::Bold, CREDENTIAL_CAPTION_PT, pt(5, 18), "CODE128: "@ + id),
        photo_frame(),
        photo_caption(),
        issue_line(date),
    ]
}

/// The drawing of a book label, in order.
pub open spec fn label_layout(
    id: int,
    titulo: Seq<char>,
    autor: Seq<char>,
    ubicacion: Seq<char>,
) -> Seq<Instr> {
    seq![
        text(FontWeight::Bold, LABEL_TITLE_PT, pt(2, 26), titulo),
        text(FontWeight::Regular, LABEL_AUTHOR_PT, pt(2, 22), autor),
        text(FontWeight::Regular, LABEL_ID_PT, pt(2, 18), "ID: "@ + int_decimal(id)),
        text(FontWeight::Regular, LABEL_DETAIL_PT, pt(2, 14), "Location: "@ + ubicacion),
        text(FontWeight::Regular, LABEL_CAPTION_PT, pt(2, 10), "Código de barras:"@),
    ] + bar_lines(pattern(int_decimal(id), pt(2, 6), 50, 3)) + seq![
        text(FontWeight::Regular, LABEL_CAPTION_PT, pt(2, 2), "CODE128: "@ + int_decimal(id)),
    ]
}

fn push_instr(out: &mut Vec<DrawInstruction>, d: DrawInstruction)
    ensures
        instrs_view(final(out)@) == instrs_view(old(out)@).push(d@),
{
    out.push(d);
    assert(instrs_view(final(out)@) =~= instrs_view(old(out)@).push(d@));
}

fn push_text(out: &mut Vec<DrawInstruction>, weight: FontWeight, size_pt: u16, x: u16, y: u16, content: Vec<char>)
    ensures
        instrs_view(final(out)@) == instrs_view(old(out)@).push(text(weight, size_pt, pt(x, y), content@)),
{
    push_instr(out, DrawInstruction::Text(TextRun { content, size_pt, at: Point { x, y }, weight }));
}

/// A literal text and what follows it.
fn prefixed(prefix: &str, rest: &Vec<char>) -> (r: Vec<char>)
    ensures
        r@ == prefix@ + rest@,
{
    let mut out = chars_of(prefix);
    push_chars(&mut out, rest);
    out
}

fn push_bars(out: &mut Vec<DrawInstruction>, bars: &Vec<BarSegment>)
    ensures
        instrs_view(final(out)@) == instrs_view(old(out)@) + bar_lines(bars@),
{
    let ghost start = instrs_view(old(out)@);
    let mut i: usize = 0;
    while i < bars.len()
        invariant
            i <= bars@.len(),
            instrs_view(out@) == start + bar_lines(bars@.take(i as int)),
        decreases bars@.len() - i,
    {
        let b = bars[i];
        push_instr(out, DrawInstruction::LineStroke { from: b.start, to: b.end });
        i = i + 1;
        assert(bar_lines(bars@.take(i as int)) =~= bar_lines(bars@.take(i - 1 as int)).push(bar_line(b)));
    }
    assert(bars@.take(bars@.len() as int) =~= bars@);
}

proof fn lemma_bars_on_page(page: PageProfile, bars: Seq<BarSegment>, s: Seq<char>, origin: Point, width: u16, height: u16)
    requires
        bars == pattern(s, origin, width, height),
        origin.x + width <= page.width,
        origin.y + height <= page.height,
    ensures
        forall|k: int| 0 <= k < bars.len() ==> instr_on(page, #[trigger] bar_lines(bars)[k]),
{
    lemma_positions_below_width(s, width as nat);
}

/// Every position of a credential card's drawing lies on its page.
pub proof fn lemma_credential_on_page(id: Seq<char>, nombre: Seq<char>, apellido: Seq<char>, date: Seq<char>)
    ensures
        all_on(credential_page(), credential_layout(id, nombre, apellido, date)),
{
    let bars = pattern(id, pt(5, 22), 40, 3);
    lemma_bars_on_page(credential_page(), bars, id, pt(5, 22), 40, 3);
    let l = credential_layout(id, nombre, apellido, date);
    let n = bar_lines(bars).len();
    assert forall|k: int| 0 <= k < l.len() implies instr_on(credential_page(), #[trigger] l[k]) by {
        if 4 <= k < 4 + n {
            assert(l[k] == bar_lines(bars)[k - 4]);
        } else if k == 4 + n + 1 {
            let pts = seq![pt(55, 25), pt(75, 25), pt(75, 40), pt(55, 40)];
            assert(l[k] == photo_frame());
            assert forall|j: int| 0 <= j < pts.len() implies point_on(credential_page(), #[trigger] pts[j]) by {}
        }
    }
}

/// Every position of a book label's drawing lies on its page.
pub proof fn lemma_label_on_page(id: int, titulo: Seq<char>, autor: Seq<char>, ubicacion: Seq<char>)
    ensures
        all_on(label_page(), label_layout(id, titulo, autor, ubicacion)),
{
    let bars = pattern(int_decimal(id), pt(2, 6), 50, 3);
    lemma_bars_on_page(label_page(), bars, int_decimal(id), pt(2, 6), 50, 3);
    let l = label_layout(id, titulo, autor, ubicacion);
    let n = bar_lines(bars).len();
    assert forall|k: int| 0 <= k < l.len() implies instr_on(label_page(), #[trigger] l[k]) by {
        if 5 <= k < 5 + n {
            assert(l[k] == bar_lines(bars)[k - 5]);
        }
    }
}

/// The drawing of a credential card, with the given issue date.
pub fn layout_credential(record: &CredentialData, issue_date: &str) -> (r: Vec<DrawInstruction>)
    ensures
        instrs_view(r@) == credential_layout(record.id@, record.nombre@, record.apellido@, issue_date@),
        all_on(credential_page(), instrs_view(r@)),
{
    let sizes = credential_legibility();
    let id = chars_of(record.id.as_str());
    let mut out: Vec<DrawInstruction> = Vec::new();
    push_text(&mut out, FontWeight::Bold, sizes.title_pt, 5, 45, chars_of("CREDENCIAL PPL"));
    let mut name = chars_of(record.nombre.as_str());
    name.push(' ');
    push_str(&mut name, record.apellido.as_str());
    assert(name@ =~= record.nombre@ + seq![' '] + record.apellido@);
    push_text(&mut out, FontWeight::Bold, sizes.subtitle_pt, 5, 38, name);
    push_text(&mut out, FontWeight::Bold, sizes.id_pt, 5, 32, prefixed("ID: ", &id));
    push_text(&mut out, FontWeight::Bold, sizes.caption_pt, 5, 26, chars_of("Código de barras:"));
    let bars = pattern_of_chars(&id, Point { x: 5, y: 22 }, 40, 3);
    push_bars(&mut out, &bars);
    push_text(&mut out, FontWeight::Bold, sizes.caption_pt, 5, 18, prefixed("CODE128: ", &id));
    let frame = vec![Point { x: 55, y: 25 }, Point { x: 75, y: 25 }, Point { x: 75, y: 40 }, Point { x: 55, y: 40 }];
    assert(frame@ =~= seq![pt(55, 25), pt(75, 25), pt(75, 40), pt(55, 40)]);
    push_instr(&mut out, DrawInstruction::ClosedPolygon { points: frame });
    push_text(&mut out, FontWeight::Regular, sizes.detail_pt, 60, 32, chars_of("FOTO"));
    let mut date = chars_of("Emisión: ");
    push_str(&mut date, issue_date);
    push_text(&mut out, FontWeight::Regular, sizes.caption_pt, 5, 5, date);
    proof {
        assert(instrs_view(out@) =~= credential_layout(record.id@, record.nombre@, record.apellido@, issue_date@));
        lemma_credential_on_page(record.id@, record.nombre@, record.apellido@, issue_date@);
    }
    out
}

/// The drawing of a book label.
pub fn layout_book_label(book: &BookData) -> (r: Vec<DrawInstruction>)
    ensures
        instrs_view(r@) == label_layout(book.id as int, book.titulo@, book.autor@, book.ubicacion@),
        all_on(label_page(), instrs_view(r@)),
{
    let sizes = label_legibility();
    let mut id: Vec<char> = Vec::new();
    push_decimal(&mut id, book.id);
    let mut out: Vec<DrawInstruction> = Vec::new();
    push_text(&mut out, FontWeight::Bold, sizes.title_pt, 2, 26, chars_of(book.titulo.as_str()));
    push_text(&mut out, FontWeight::Regular, sizes.subtitle_pt, 2, 22, chars_of(book.autor.as_str()));
    push_text(&mut out, FontWeight::Regular, sizes.id_pt, 2, 18, prefixed("ID: ", &id));
    let mut place = chars_of("Location: ");
    push_str(&mut place, book.ubicacion.as_str());
    push_text(&mut out, FontWeight::Regular, sizes.detail_pt, 2, 14, place);
    push_text(&mut out, FontWeight::Regular, sizes.caption_pt, 2, 10, chars_of("Código de barras:"));
    let bars = pattern_of_chars(&id, Point { x: 2, y: 6 }, 50, 3);
    push_bars(&mut out, &bars);
    push_text(&mut out, FontWeight::Regular, sizes.caption_pt, 2, 2, prefixed("CODE128: ", &id));
    proof {
        assert(instrs_view(out@) =~= label_layout(book.id as int, book.titulo@, book.autor@, book.ubicacion@));
        lemma_label_on_page(book.id as int, book.titulo@, book.autor@, book.ubicacion@);
    }
    out
}

/// Laying out is deterministic: equal fields give the same drawing, in the
/// same order, with the same positions and contents.
pub proof fn lemma_credential_layout_deterministic(a: &CredentialData, b: &CredentialData, date: Seq<char>)
    requires
        a.id@ == b.id@,
        a.nombre@ == b.nombre@,
        a.apellido@ == b.apellido@,
    ensures
        credential_layout(a.id@, a.nombre@, a.apellido@, date)
            == credential_layout(b.id@, b.nombre@, b.apellido@, date),
{
}

/// Laying out a book label is deterministic: equal fields give the same
/// drawing.
pub proof fn lemma_label_layout_deterministic(a: &BookData, b: &BookData)
    requires
        a.id == b.id,
        a.titulo@ == b.titulo@,
        a.autor@ == b.autor@,
        a.ubicacion@ == b.ubicacion@,
    ensures
        label_layout(a.id as int, a.titulo@, a.autor@, a.ubicacion@)
            == label_layout(b.id as int, b.titulo@, b.autor@, b.ubicacion@),
{
}

/// Whatever the fields, and with or without a photo reference, a credential
/// card's drawing holds the photo frame followed by its caption, just before
/// the issue date.
pub proof fn lemma_photo_placeholder_always_drawn(id: Seq<char>, nombre: Seq<char>, apellido: Seq<char>, date: Seq<char>)
    ensures
        ({
            let l = credential_layout(id, nombre, apellido, date);
            &&& l.len() >= 3
            &&& l[l.len() - 3] == photo_frame()
            &&& l[l.len() - 2] == photo_caption()
        }),
{
}

/// The issue date is confined to the last instruction of a credential card:
/// two drawings of the same fields with different dates agree everywhere else.
pub proof fn lemma_issue_date_isolated(
    id: Seq<char>,
    nombre: Seq<char>,
    apellido: Seq<char>,
    date1: Seq<char>,
    date2: Seq<char>,
)
    ensures
        ({
            let l1 = credential_layout(id, nombre, apellido, date1);
            let l2 = credential_layout(id, nombre, apellido, date2);
            &&& l1.len() == l2.len()
            &&& l1.drop_last() == l2.drop_last()
            &&& l1.last() == issue_line(date1)
            &&& l2.last() == issue_line(date2)
        }),
{
    let l1 = credential_layout(id, nombre, apellido, date1);
    let l2 = credential_layout(id, nombre, apellido, date2);
    assert(l1.drop_last() =~= l2.drop_last());
}

} // verus!
