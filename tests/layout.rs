use biblioteca::layout::{
    credential_legibility, credential_profile, label_legibility, label_profile, layout_book_label,
    layout_credential,
};
use biblioteca::page::{DrawInstruction, FontWeight, PageProfile, Point};
use biblioteca::records::{BookData, CredentialData};

fn credential(foto: Option<&str>) -> CredentialData {
    CredentialData {
        id: "P-0042".to_string(),
        nombre: "Ana".to_string(),
        apellido: "Pérez".to_string(),
        foto_path: foto.map(|s| s.to_string()),
    }
}

fn book(id: i32) -> BookData {
    BookData {
        id,
        titulo: "Rayuela".to_string(),
        autor: "Julio Cortázar".to_string(),
        ubicacion: "Estante 3".to_string(),
    }
}

fn text_of(d: &DrawInstruction) -> (String, u16, Point, FontWeight) {
    match d {
        DrawInstruction::Text(t) => (t.content.iter().collect(), t.size_pt, t.at, t.weight),
        other => panic!("expected text, got {:?}", other),
    }
}

fn lines_of(v: &[DrawInstruction]) -> Vec<(Point, Point)> {
    v.iter()
        .filter_map(|d| match d {
            DrawInstruction::LineStroke { from, to } => Some((*from, *to)),
            _ => None,
        })
        .collect()
}

fn same(a: &[DrawInstruction], b: &[DrawInstruction]) -> bool {
    format!("{:?}", a) == format!("{:?}", b)
}

#[test]
fn page_profiles() {
    assert_eq!(credential_profile(), PageProfile { width: 85, height: 54 });
    assert_eq!(label_profile(), PageProfile { width: 70, height: 30 });
}

#[test]
fn legibility_profiles() {
    let c = credential_legibility();
    assert_eq!((c.title_pt, c.subtitle_pt, c.id_pt, c.detail_pt, c.caption_pt), (12, 10, 8, 8, 6));
    let l = label_legibility();
    assert_eq!((l.title_pt, l.subtitle_pt, l.id_pt, l.detail_pt, l.caption_pt), (10, 8, 8, 7, 6));
}

#[test]
fn credential_layout_fields() {
    let v = layout_credential(&credential(None), "2024-05-01");
    assert_eq!(text_of(&v[0]), ("CREDENCIAL PPL".to_string(), 12, Point { x: 5, y: 45 }, FontWeight::Bold));
    assert_eq!(text_of(&v[1]), ("Ana Pérez".to_string(), 10, Point { x: 5, y: 38 }, FontWeight::Bold));
    assert_eq!(text_of(&v[2]), ("ID: P-0042".to_string(), 8, Point { x: 5, y: 32 }, FontWeight::Bold));
    assert_eq!(text_of(&v[3]), ("Código de barras:".to_string(), 6, Point { x: 5, y: 26 }, FontWeight::Bold));
    // "P-0042": 'P' 80 even, '-' 45 odd, '0' 48 even, '0' even, '4' 52 even, '2' 50 even.
    let bars = lines_of(&v);
    let xs: Vec<u16> = bars.iter().map(|(f, _)| f.x).collect();
    assert_eq!(xs, vec![5, 7, 8, 9, 10]);
    assert!(bars.iter().all(|(f, t)| f.y == 22 && t.y == 25 && f.x == t.x));
    assert_eq!(v.len(), 4 + 5 + 4);
    assert_eq!(text_of(&v[9]), ("CODE128: P-0042".to_string(), 6, Point { x: 5, y: 18 }, FontWeight::Bold));
    assert_eq!(text_of(&v[12]), ("Emisión: 2024-05-01".to_string(), 6, Point { x: 5, y: 5 }, FontWeight::Regular));
}

#[test]
fn credential_without_photo_keeps_frame() {
    let v = layout_credential(&credential(None), "2024-05-01");
    match &v[10] {
        DrawInstruction::ClosedPolygon { points } => assert_eq!(
            points,
            &vec![Point { x: 55, y: 25 }, Point { x: 75, y: 25 }, Point { x: 75, y: 40 }, Point { x: 55, y: 40 }]
        ),
        other => panic!("expected the photo frame, got {:?}", other),
    }
    assert_eq!(text_of(&v[11]), ("FOTO".to_string(), 8, Point { x: 60, y: 32 }, FontWeight::Regular));
    let w = layout_credential(&credential(Some("/fotos/p42.jpg")), "2024-05-01");
    assert!(same(&v, &w));
}

#[test]
fn credential_layout_is_deterministic() {
    let a = layout_credential(&credential(None), "2024-05-01");
    let b = layout_credential(&credential(None), "2024-05-01");
    assert!(same(&a, &b));
}

#[test]
fn issue_date_only_changes_last_instruction() {
    let a = layout_credential(&credential(None), "2024-05-01");
    let b = layout_credential(&credential(None), "2031-12-31");
    assert_eq!(a.len(), b.len());
    assert!(same(&a[..a.len() - 1], &b[..b.len() - 1]));
    assert!(!same(&a, &b));
}

#[test]
fn credential_with_empty_fields() {
    let c = CredentialData { id: String::new(), nombre: String::new(), apellido: String::new(), foto_path: None };
    let v = layout_credential(&c, "");
    assert_eq!(v.len(), 8);
    assert_eq!(text_of(&v[1]).0, " ");
    assert_eq!(text_of(&v[2]).0, "ID: ");
    assert_eq!(text_of(&v[7]).0, "Emisión: ");
}

#[test]
fn credential_long_id_is_cut_at_box_width() {
    let c = CredentialData { id: "B".repeat(60), nombre: "A".to_string(), apellido: "B".to_string(), foto_path: None };
    let v = layout_credential(&c, "2024-05-01");
    let bars = lines_of(&v);
    assert_eq!(bars.len(), 40);
    assert_eq!(bars[39].0.x, 44);
}

#[test]
fn book_label_fields() {
    let v = layout_book_label(&book(1234));
    assert_eq!(text_of(&v[0]), ("Rayuela".to_string(), 10, Point { x: 2, y: 26 }, FontWeight::Bold));
    assert_eq!(text_of(&v[1]), ("Julio Cortázar".to_string(), 8, Point { x: 2, y: 22 }, FontWeight::Regular));
    assert_eq!(text_of(&v[2]), ("ID: 1234".to_string(), 8, Point { x: 2, y: 18 }, FontWeight::Regular));
    assert_eq!(text_of(&v[3]), ("Location: Estante 3".to_string(), 7, Point { x: 2, y: 14 }, FontWeight::Regular));
    assert_eq!(text_of(&v[4]), ("Código de barras:".to_string(), 6, Point { x: 2, y: 10 }, FontWeight::Regular));
    // '1' odd, '2' even, '3' odd, '4' even.
    let xs: Vec<u16> = lines_of(&v).iter().map(|(f, _)| f.x).collect();
    assert_eq!(xs, vec![3, 5]);
    assert_eq!(v.len(), 5 + 2 + 1);
    assert_eq!(text_of(&v[7]), ("CODE128: 1234".to_string(), 6, Point { x: 2, y: 2 }, FontWeight::Regular));
}

#[test]
fn book_label_negative_and_extreme_ids() {
    let v = layout_book_label(&book(-7));
    assert_eq!(text_of(&v[2]).0, "ID: -7");
    let v = layout_book_label(&book(i32::MIN));
    assert_eq!(text_of(&v[2]).0, "ID: -2147483648");
    let v = layout_book_label(&book(0));
    assert_eq!(text_of(&v[2]).0, "ID: 0");
    assert_eq!(lines_of(&v).len(), 1);
}

#[test]
fn book_label_is_deterministic() {
    assert!(same(&layout_book_label(&book(99)), &layout_book_label(&book(99))));
}
