//! The records that documents are made from.

use vstd::prelude::*;

verus! {

/// The fields printed on a credential card.
#[derive(Clone, Debug)]
pub struct CredentialData {
    pub id: String,
    pub nombre: String,
    pub apellido: String,
    /// Where a photo is kept; carried along but never read when laying out.
    pub foto_path: Option<String>,
}

/// The fields printed on a book label.
#[derive(Clone, Debug)]
pub struct BookData {
    pub id: i32,
    pub titulo: String,
    pub autor: String,
    pub ubicacion: String,
}

} // verus!
