use vstd::prelude::*;

verus! {

/// The actions a server can be asked to take, each with the names and texts
/// it needs: a new user; a global message (sender, text); a private message
/// (sender, recipient, text); a user leaving.
pub enum AcoesServidor {
    NovoUsuario(String),
    MensagemGlobal(String, String),
    MensagemPrivada(String, String, String),
    Tchau(String),
}

} // verus!
