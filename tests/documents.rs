use biblioteca::layout::layout_credential;
use biblioteca::page::PageProfile;
use biblioteca::records::{BookData, CredentialData};
use biblioteca::render::{generate_book_label_pdf, generate_credential_pdf, render_credential};

fn credential() -> CredentialData {
    CredentialData {
        id: "P-0042".to_string(),
        nombre: "Ana".to_string(),
        apellido: "Pérez".to_string(),
        foto_path: None,
    }
}

fn contains(hay: &[u8], needle: &[u8]) -> bool {
    hay.windows(needle.len()).any(|w| w == needle)
}

#[test]
fn credential_document_has_its_page() {
    let d = render_credential(&credential(), "2024-05-01").expect("render");
    assert_eq!(d.page, PageProfile { width: 85, height: 54 });
    assert!(d.bytes.starts_with(b"%PDF"));
    assert!(contains(&d.bytes, b"MediaBox"));
    let expected = layout_credential(&credential(), "2024-05-01");
    assert_eq!(format!("{:?}", d.instructions), format!("{:?}", expected));
}

#[test]
fn credential_without_photo_renders() {
    let d = generate_credential_pdf(&credential()).expect("render");
    assert_eq!(d.page, PageProfile { width: 85, height: 54 });
    assert!(d.bytes.starts_with(b"%PDF"));
    assert!(contains(&d.bytes, b"MediaBox"));
    assert_eq!(d.instructions.len(), 13);
    match &d.instructions[12] {
        biblioteca::page::DrawInstruction::Text(t) => {
            let line: String = t.content.iter().collect();
            let date = line.strip_prefix("Emisión: ").expect("issue caption");
            let b = date.as_bytes();
            assert_eq!(b.len(), 10);
            assert_eq!((b[4], b[7]), (b'-', b'-'));
            assert!(b.iter().enumerate().all(|(i, c)| i == 4 || i == 7 || c.is_ascii_digit()));
        }
        other => panic!("expected the issue line, got {:?}", other),
    }
}

#[test]
fn empty_credential_renders() {
    let c = CredentialData { id: String::new(), nombre: String::new(), apellido: String::new(), foto_path: None };
    let d = render_credential(&c, "2024-05-01").expect("render");
    assert_eq!(d.instructions.len(), 8);
    assert!(d.bytes.starts_with(b"%PDF"));
}

#[test]
fn book_label_with_one_bar() {
    let b = BookData { id: 123, titulo: "T".to_string(), autor: "A".to_string(), ubicacion: "L".to_string() };
    let d = generate_book_label_pdf(&b).expect("render");
    let lines: Vec<_> = d
        .instructions
        .iter()
        .filter_map(|i| match i {
            biblioteca::page::DrawInstruction::LineStroke { from, to } => Some((*from, *to)),
            _ => None,
        })
        .collect();
    assert_eq!(lines.len(), 1);
    assert_eq!((lines[0].0.x, lines[0].0.y, lines[0].1.x, lines[0].1.y), (3, 6, 3, 9));
}

#[test]
fn book_label_document_has_its_page() {
    let b = BookData {
        id: 17,
        titulo: "Rayuela".to_string(),
        autor: "Julio Cortázar".to_string(),
        ubicacion: "Estante 3".to_string(),
    };
    let d = generate_book_label_pdf(&b).expect("render");
    assert_eq!(d.page, PageProfile { width: 70, height: 30 });
    assert!(d.bytes.starts_with(b"%PDF"));
    assert!(contains(&d.bytes, b"MediaBox"));
    // "17": '1' odd, '7' odd, so no bar is drawn.
    assert_eq!(d.instructions.len(), 6);
}
