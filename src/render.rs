//! Turning a page of drawing instructions into an encoded document.

use vstd::prelude::*;
use crate::page::{Point, PageProfile, FontWeight, TextRun, DrawInstruction, Instr, instrs_view};
use crate::records::{CredentialData, BookData};
use crate::layout::{
    layout_credential, layout_book_label, credential_profile, label_profile, credential_layout,
    label_layout, credential_page, label_page,
};

verus! {

#[verifier::external_type_specification]
#[verifier::external_body]
pub struct ExPdfDocumentReference(printpdf::PdfDocumentReference);

#[verifier::external_type_specification]
#[verifier::external_body]
pub struct ExPdfLayerReference(printpdf::PdfLayerReference);

#[verifier::external_type_specification]
#[verifier::external_body]
pub struct ExIndirectFontRef(printpdf::IndirectFontRef);

#[verifier::external_type_specification]
#[verifier::external_body]
pub struct ExPdfError(printpdf::Error);

/// Why a document could not be produced.
#[derive(Clone, Debug)]
pub enum DocumentError {
    /// A built-in font could not be added to the document.
    FontUnavailable(String),
    /// The output could not be created or written.
    SinkUnavailable(String),
    /// The document could not be encoded.
    SerializationFailure(String),
}

/// A finished one-page document: the page size it was opened with, what was
/// drawn on it, in order, and its encoded bytes.
pub struct RenderedDocument {
    pub page: PageProfile,
    pub instructions: Vec<DrawInstruction>,
    /// Every instruction handed to the backend, in the order it was drawn.
    pub drawn: Ghost<Seq<Instr>>,
    pub bytes: Vec<u8>,
}

/// A printpdf document being drawn: its one page, that page's layer and the
/// two fonts, all of the same document. Only `open_canvas` builds one, and
/// `finish` consumes it, so the layer never outlives its document and the
/// fonts always belong to it.
struct Canvas {
    doc: printpdf::PdfDocumentReference,
    layer: printpdf::PdfLayerReference,
    bold: printpdf::IndirectFontRef,
    regular: printpdf::IndirectFontRef,
    /// The page size the document was opened with.
    page: PageProfile,
    /// The instructions handed to the backend so far, in order.
    drawn: Ghost<Seq<Instr>>,
}

/// Relies on printpdf's `PdfDocument::new`, `get_page` and `get_layer`: a new
/// document of one page of the given size in millimetres, and the drawing
/// layer of that page.
#[verifier::external_body]
fn new_document(title: &str, page: PageProfile) -> (printpdf::PdfDocumentReference, printpdf::PdfLayerReference) {
    let (doc, page_index, layer_index) = printpdf::PdfDocument::new(
        title,
        printpdf::Mm(page.width.into()),
        printpdf::Mm(page.height.into()),
        "Layer 1",
    );
    let layer = doc.get_page(page_index).get_layer(layer_index);
    (doc, layer)
}

/// Relies on printpdf's `add_builtin_font`: Helvetica for regular text,
/// Helvetica Bold for bold text. Both of its branches return `Ok`.
#[verifier::external_body]
fn add_font(doc: &printpdf::PdfDocumentReference, weight: FontWeight) -> (r: Result<printpdf::IndirectFontRef, printpdf::Error>)
    ensures
        r is Ok,
{
    let font = match weight {
        FontWeight::Regular => printpdf::BuiltinFont::Helvetica,
        FontWeight::Bold => printpdf::BuiltinFont::HelveticaBold,
    };
    doc.add_builtin_font(font)
}

/// Relies on printpdf's `PdfLayerReference::use_text`: writes the text with
/// its baseline at the given position, in the canvas's font of its weight.
#[verifier::external_body]
fn draw_text(c: &Canvas, run: &TextRun) {
    let font = match run.weight {
        FontWeight::Bold => &c.bold,
        FontWeight::Regular => &c.regular,
    };
    let text: String = run.content.iter().collect();
    c.layer.use_text(text, run.size_pt.into(), printpdf::Mm(run.at.x.into()), printpdf::Mm(run.at.y.into()), font);
}

/// Relies on printpdf's `PdfLayerReference::add_line`: strokes the path
/// through the given points, closing it when asked.
#[verifier::external_body]
fn draw_path(c: &Canvas, points: &Vec<Point>, closed: bool) {
    let points = points
        .iter()
        .map(|p| (printpdf::Point::new(printpdf::Mm(p.x.into()), printpdf::Mm(p.y.into())), false))
        .collect();
    c.layer.add_line(printpdf::Line { points, is_closed: closed });
}

/// Relies on printpdf's `PdfDocumentReference::save_to_bytes`: the encoded
/// document. It writes into a `Vec`, which cannot fail.
#[verifier::external_body]
fn save_bytes(doc: printpdf::PdfDocumentReference) -> (r: Result<Vec<u8>, printpdf::Error>)
    ensures
        r is Ok,
{
    doc.save_to_bytes()
}

/// Relies on the `Display` impl of printpdf's `Error`: a readable message.
#[verifier::external_body]
fn error_message(e: &printpdf::Error) -> String {
    e.to_string()
}

pub open spec fn is_digit(c: char) -> bool {
    '0' <= c && c <= '9'
}

/// Written year-month-day: a year of at least four characters, then a dash,
/// two digits of month, a dash and two digits of day.
pub open spec fn is_ymd_text(s: Seq<char>) -> bool {
    let n = s.len();
    &&& n >= 10
    &&& s[n - 3] == '-'
    &&& s[n - 6] == '-'
    &&& is_digit(s[n - 1]) && is_digit(s[n - 2])
    &&& is_digit(s[n - 4]) && is_digit(s[n - 5])
}

/// Relies on chrono's `Utc::now` and `format("%Y-%m-%d")`: today's date in
/// UTC. Which date depends on the clock; its form does not: the year takes at
/// least four characters (`now` is never before 1970), month and day two
/// zero-padded digits each.
#[verifier::external_body]
fn today_iso() -> (r: String)
    ensures
        is_ymd_text(r@),
{
    chrono::Utc::now().format("%Y-%m-%d").to_string()
}

/// A blank page of the given size, with both fonts ready.
fn open_canvas(title: &str, profile: PageProfile) -> (r: Result<Canvas, DocumentError>)
    ensures
        r matches Ok(c) && c.page == profile && c.drawn@ == Seq::<Instr>::empty(),
{
    let (doc, layer) = new_document(title, profile);
    let bold = match add_font(&doc, FontWeight::Bold) {
        Ok(f) => f,
        Err(e) => {
            return Err(DocumentError::FontUnavailable(error_message(&e)));
        },
    };
    let regular = match add_font(&doc, FontWeight::Regular) {
        Ok(f) => f,
        Err(e) => {
            return Err(DocumentError::FontUnavailable(error_message(&e)));
        },
    };
    Ok(Canvas { doc, layer, bold, regular, page: profile, drawn: Ghost(Seq::empty()) })
}

/// Hands one instruction to the backend.
fn draw(c: &mut Canvas, d: &DrawInstruction)
    ensures
        final(c).page == old(c).page,
        final(c).drawn@ == old(c).drawn@.push(d@),
{
    match d {
        DrawInstruction::Text(t) => {
            draw_text(c, t);
        },
        DrawInstruction::LineStroke { from, to } => {
            let points = vec![*from, *to];
            draw_path(c, &points, false);
        },
        DrawInstruction::ClosedPolygon { points } => {
            draw_path(c, points, true);
        },
    }
    c.drawn = Ghost(c.drawn@.push(d@));
}

/// Encodes the finished page.
fn finish(c: Canvas) -> (r: Result<Vec<u8>, DocumentError>)
    ensures
        r is Ok,
{
    match save_bytes(c.doc) {
        Ok(bytes) => Ok(bytes),
        Err(e) => Err(DocumentError::SerializationFailure(error_message(&e))),
    }
}


/// Draws the instructions, in order, on a single page of the given size and
/// encodes the result.
pub fn render(profile: PageProfile, title: &str, instructions: Vec<DrawInstruction>) -> (r: Result<
    RenderedDocument,
    DocumentError,
>)
    ensures
        r matches Ok(d) && d.page == profile && d.drawn@ == instrs_view(instructions@)
            && instrs_view(d.instructions@) == instrs_view(instructions@),
{
    let mut c = match open_canvas(title, profile) {
        Ok(c) => c,
        Err(e) => {
            return Err(e);
        },
    };
    let mut i: usize = 0;
    assert(instrs_view(instructions@.take(0)) =~= Seq::<Instr>::empty());
    while i < instructions.len()
        invariant
            i <= instructions@.len(),
            c.page == profile,
            c.drawn@ == instrs_view(instructions@.take(i as int)),
        decreases instructions@.len() - i,
    {
        draw(&mut c, &instructions[i]);
        i = i + 1;
        assert(instrs_view(instructions@.take(i as int)) =~= instrs_view(instructions@.take(i - 1 as int)).push(
            instructions@[i - 1]@,
        ));
    }
    assert(instructions@.take(instructions@.len() as int) =~= instructions@);
    let page = c.page;
    let drawn = c.drawn;
    match finish(c) {
        Ok(bytes) => Ok(RenderedDocument { page, instructions, drawn, bytes }),
        Err(e) => Err(e),
    }
}

/// A credential card with the given issue date, on its 85 by 54 millimetre
/// page.
pub fn render_credential(credential: &CredentialData, issue_date: &str) -> (r: Result<
    RenderedDocument,
    DocumentError,
>)
    ensures
        r matches Ok(d) && d.page == credential_page() && d.drawn@ == credential_layout(
            credential.id@,
            credential.nombre@,
            credential.apellido@,
            issue_date@,
        ) && instrs_view(d.instructions@) == d.drawn@,
{
    let instructions = layout_credential(credential, issue_date);
    render(credential_profile(), "Credencial PPL", instructions)
}

/// A credential card issued today: its issue line carries the current UTC
/// date, written year-month-day.
pub fn generate_credential_pdf(credential: &CredentialData) -> (r: Result<RenderedDocument, DocumentError>)
    ensures
        r matches Ok(d) && d.page == credential_page() && instrs_view(d.instructions@) == d.drawn@
            && exists|date: Seq<char>|
            is_ymd_text(date) && d.drawn@ == #[trigger] credential_layout(
                credential.id@,
                credential.nombre@,
                credential.apellido@,
                date,
            ),
{
    let date = today_iso();
    render_credential(credential, date.as_str())
}

/// A book label, on its 70 by 30 millimetre page.
pub fn generate_book_label_pdf(book: &BookData) -> (r: Result<RenderedDocument, DocumentError>)
    ensures
        r matches Ok(d) && d.page == label_page() && d.drawn@ == label_layout(
            book.id as int,
            book.titulo@,
            book.autor@,
            book.ubicacion@,
        ) && instrs_view(d.instructions@) == d.drawn@,
{
    let instructions = layout_book_label(book);
    render(label_profile(), "Etiqueta Libro", instructions)
}

} // verus!
