//! Checks on requests to create or cancel a sanction.

use vstd::prelude::*;

verus! {

broadcast use vstd::string::group_string_axioms;

pub open spec fn missing_fields_message() -> Seq<char> {
    "Todos los campos obligatorios deben estar completos"@
}

pub open spec fn not_admin_message() -> Seq<char> {
    "Solo los administradores pueden anular sanciones"@
}

pub open spec fn missing_remarks_message() -> Seq<char> {
    "Las observaciones son obligatorias para anular una sanción"@
}

/// Whether the person has a sanction in force. No sanction store is kept
/// here, so the answer is always no.
pub fn verificar_sanciones_activas(id_ppl: String) -> (r: Result<bool, String>)
    ensures
        r matches Ok(b) && !b,
{
    Ok(false)
}

/// Accepts a new sanction when the person, both dates and the reason are all
/// given; the kind and the authorising administrator are optional.
pub fn crear_sancion(
    id_ppl: String,
    fecha_inicio: String,
    fecha_fin: String,
    motivo: String,
    tipo_sancion: String,
    id_admin_autoriza: Option<String>,
) -> (r: Result<bool, String>)
    ensures
        ({
            let missing = id_ppl@.len() == 0 || fecha_inicio@.len() == 0 || fecha_fin@.len() == 0
                || motivo@.len() == 0;
            &&& missing ==> (r matches Err(m) && m@ == missing_fields_message())
            &&& !missing ==> (r matches Ok(b) && b)
        }),
{
    if id_ppl.as_str().is_empty() || fecha_inicio.as_str().is_empty() || fecha_fin.as_str().is_empty()
        || motivo.as_str().is_empty() {
        return Err("Todos los campos obligatorios deben estar completos".to_string());
    }
    Ok(true)
}

/// Cancels a sanction: only an administrator may, and only with remarks.
pub fn anular_sancion(id_sancion: i32, id_admin: String, observaciones: String, rol_usuario: String) -> (r:
    Result<bool, String>)
    ensures
        rol_usuario@ != "admin"@ ==> (r matches Err(m) && m@ == not_admin_message()),
        rol_usuario@ == "admin"@ && observaciones@.len() == 0 ==> (r matches Err(m) && m@
            == missing_remarks_message()),
        rol_usuario@ == "admin"@ && observaciones@.len() > 0 ==> (r matches Ok(b) && b),
{
    let admin = "admin".to_string();
    if !(rol_usuario == admin) {
        return Err("Solo los administradores pueden anular sanciones".to_string());
    }
    if observaciones.as_str().is_empty() {
        return Err("Las observaciones son obligatorias para anular una sanción".to_string());
    }
    Ok(true)
}

} // verus!
