//! The accounts that a fresh installation starts with.

use vstd::prelude::*;

verus! {

/// The bcrypt work factor used for stored passwords.
pub const DEFAULT_COST: u32 = 12;

/// Relies on `bcrypt::hash`: a salted hash of the password. Costs outside
/// 4 to 31 are refused; the salt is random, so of a hash only its length,
/// sixty characters, is known.
#[verifier::external_body]
fn hash_password(password: &str, cost: u32) -> (r: Result<String, String>)
    ensures
        cost < 4 || cost > 31 ==> r is Err,
        r matches Ok(h) ==> h@.len() == 60,
{
    bcrypt::hash(password, cost).map_err(|e| e.to_string())
}

/// The accounts that a fresh installation starts with: user, password, role.
pub fn default_users() -> (r: Vec<(&'static str, &'static str, &'static str)>)
    ensures
        r@.len() == 5,
        r@[0] == ("admin", "admin123", "admin"),
        r@[1] == ("operador_matutino", "operador1", "operador"),
        r@[2] == ("operador_vespertino", "operador2", "operador"),
        r@[3] == ("bibliotecario_matutino", "operador1", "bibliotecario"),
        r@[4] == ("bibliotecario_vespertino", "operador2", "bibliotecario"),
{
    vec![
        ("admin", "admin123", "admin"),
        ("operador_matutino", "operador1", "operador"),
        ("operador_vespertino", "operador2", "operador"),
        ("bibliotecario_matutino", "operador1", "bibliotecario"),
        ("bibliotecario_vespertino", "operador2", "bibliotecario"),
    ]
}

/// The outcome is a failure with the given message.
pub open spec fn failed_with(o: Result<String, String>, message: Seq<char>) -> bool {
    o matches Err(m) && m@ == message
}

/// `Ok` when every hashing outcome is a hash; otherwise the message of the
/// first failure.
pub fn first_failure(outcomes: &Vec<Result<String, String>>) -> (r: Result<(), String>)
    ensures
        (r is Ok) == (forall|k: int| 0 <= k < outcomes@.len() ==> #[trigger] outcomes@[k] is Ok),
        r matches Err(e) ==> exists|k: int|
            0 <= k < outcomes@.len() && (forall|j: int| 0 <= j < k ==> #[trigger] outcomes@[j] is Ok)
                && failed_with(#[trigger] outcomes@[k], e@),
{
    let mut i: usize = 0;
    while i < outcomes.len()
        invariant
            i <= outcomes@.len(),
            forall|j: int| 0 <= j < i ==> #[trigger] outcomes@[j] is Ok,
        decreases outcomes@.len() - i,
    {
        match &outcomes[i] {
            Ok(_) => {},
            Err(m) => {
                return Err(m.clone());
            },
        }
        i = i + 1;
    }
    Ok(())
}

/// Hashes the password of every default account, in order, stopping after
/// the first failure of the hashing backend. Each outcome but the last is a
/// hash, and fewer than five come back only when the last one failed.
pub fn hash_default_passwords() -> (r: Vec<Result<String, String>>)
    ensures
        1 <= r@.len() <= 5,
        forall|k: int| 0 <= k < r@.len() - 1 ==> #[trigger] r@[k] is Ok,
        r@.len() < 5 ==> r@.last() is Err,
        forall|k: int| 0 <= k < r@.len() ==> (#[trigger] r@[k] matches Ok(h) ==> h@.len() == 60),
{
    let usuarios = default_users();
    let mut out: Vec<Result<String, String>> = Vec::new();
    let mut i: usize = 0;
    while i < usuarios.len()
        invariant
            i <= usuarios@.len(),
            usuarios@.len() == 5,
            out@.len() == i,
            forall|k: int| 0 <= k < out@.len() ==> #[trigger] out@[k] is Ok,
            forall|k: int| 0 <= k < out@.len() ==> (#[trigger] out@[k] matches Ok(h) ==> h@.len() == 60),
        decreases usuarios@.len() - i,
    {
        let (_usuario, password, _rol) = usuarios[i];
        let outcome = hash_password(password, DEFAULT_COST);
        let failed = outcome.is_err();
        out.push(outcome);
        if failed {
            return out;
        }
        i = i + 1;
    }
    out
}

/// Hashes the password of every default account, stopping at the first
/// failure of the hashing backend, whose message is returned; nothing is
/// stored.
pub fn crear_usuarios_defecto() -> (r: Result<(), String>)
    ensures
        exists|outcomes: Seq<Result<String, String>>|
            1 <= outcomes.len() <= 5 && (forall|k: int| 0 <= k < outcomes.len() - 1 ==> #[trigger] outcomes[k] is Ok)
                && (outcomes.len() < 5 ==> outcomes.last() is Err)
                && (#[trigger] outcomes.len() >= 1)
                && (r is Ok) == outcomes.last() is Ok
                && (r matches Err(e) ==> failed_with(outcomes.last(), e@)),
{
    let outcomes = hash_default_passwords();
    let r = first_failure(&outcomes);
    proof {
        let s = outcomes@;
        if r is Err {
            let k = choose|k: int|
                0 <= k < s.len() && (forall|j: int| 0 <= j < k ==> #[trigger] s[j] is Ok)
                    && failed_with(#[trigger] s[k], r->Err_0@);
            assert(k == s.len() - 1);
        } else {
            assert(s.last() is Ok);
        }
        assert(s.len() >= 1);
    }
    r
}

} // verus!
