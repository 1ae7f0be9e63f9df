use vstd::prelude::*;
use std::time::SystemTime;

use crate::usuario::{partilhar, RefUsuario, UsuarioView};

verus! {

/// The wall-clock time at which a message was sent. Its value is opaque to
/// the library: it is carried, never inspected.
#[verifier::external_type_specification]
#[verifier::external_body]
pub struct ExSystemTime(std::time::SystemTime);

/// Reads the system clock through `std::time::SystemTime::now`. The result
/// depends on the moment of the call, so nothing is stated of it.
#[verifier::external_body]
fn agora() -> (t: SystemTime) {
    SystemTime::now()
}

/// The kind of request a client sends, with its text payload.
#[derive(Debug)]
pub enum TipoMensagem {
    Ola(String),
    Tchau(String),
    MensagemGlobal(String),
    MensagemPrivada(String),
    GetMensagens(String),
}

pub enum TipoMensagemView {
    Ola(Seq<char>),
    Tchau(Seq<char>),
    MensagemGlobal(Seq<char>),
    MensagemPrivada(Seq<char>),
    GetMensagens(Seq<char>),
}

impl View for TipoMensagem {
    type V = TipoMensagemView;

    open spec fn view(&self) -> TipoMensagemView {
        match self {
            TipoMensagem::Ola(s) => TipoMensagemView::Ola(s@),
            TipoMensagem::Tchau(s) => TipoMensagemView::Tchau(s@),
            TipoMensagem::MensagemGlobal(s) => TipoMensagemView::MensagemGlobal(s@),
            TipoMensagem::MensagemPrivada(s) => TipoMensagemView::MensagemPrivada(s@),
            TipoMensagem::GetMensagens(s) => TipoMensagemView::GetMensagens(s@),
        }
    }
}

/// The abstract value of a message: who sent it and what it says.
pub struct MensagemView {
    pub usuario: UsuarioView,
    pub conteudo: Seq<char>,
}

/// A chat message: its sender, its text and the time it was sent.
#[derive(Debug)]
pub struct Mensagem {
    usuario: RefUsuario,
    conteudo: String,
    hora_envio: SystemTime,
}

impl View for Mensagem {
    type V = MensagemView;

    closed spec fn view(&self) -> MensagemView {
        MensagemView { usuario: self.usuario@, conteudo: self.conteudo@ }
    }
}

impl Mensagem {
    /// The time at which the message was sent.
    pub closed spec fn hora(&self) -> SystemTime {
        self.hora_envio
    }

    /// A message sent now.
    pub fn new(usuario: RefUsuario, conteudo: String) -> (m: Self)
        ensures
            m@ == (MensagemView { usuario: usuario@, conteudo: conteudo@ }),
    {
        Mensagem::com_hora(usuario, conteudo, agora())
    }

    /// A message sent at the given time.
    pub fn com_hora(usuario: RefUsuario, conteudo: String, hora: SystemTime) -> (m: Self)
        ensures
            m@ == (MensagemView { usuario: usuario@, conteudo: conteudo@ }),
            m.hora() == hora,
            m.remetente() == usuario,
    {
        Mensagem { usuario, conteudo, hora_envio: hora }
    }

    /// The handle on the sender that the message holds.
    pub closed spec fn remetente(&self) -> RefUsuario {
        self.usuario
    }

    /// Another handle on the sender, sharing its online state.
    pub fn get_usuario(&self) -> (u: RefUsuario)
        ensures
            u@ == self@.usuario,
            u == self.remetente(),
    {
        partilhar(&self.usuario)
    }

    pub fn get_conteudo(&self) -> (c: &String)
        ensures
            c@ == self@.conteudo,
    {
        &self.conteudo
    }

    pub fn get_hora(&self) -> (h: &SystemTime)
        ensures
            *h == self.hora(),
    {
        &self.hora_envio
    }
}

/// A request as a client sends it: the name of the user that sends it, the
/// kind of request with its payload, and, for a private message, the names of
/// the other members of the conversation.
#[derive(Debug)]
pub struct MensagemJson {
    pub usuario: String,
    pub tipo: TipoMensagem,
    pub usuarios: Option<Vec<String>>,
}

pub struct MensagemJsonView {
    pub usuario: Seq<char>,
    pub tipo: TipoMensagemView,
    pub usuarios: Option<Seq<Seq<char>>>,
}

/// The names held by a list of strings.
pub open spec fn textos(v: Seq<String>) -> Seq<Seq<char>> {
    v.map_values(|s: String| s@)
}

impl View for MensagemJson {
    type V = MensagemJsonView;

    open spec fn view(&self) -> MensagemJsonView {
        MensagemJsonView {
            usuario: self.usuario@,
            tipo: self.tipo@,
            usuarios: match self.usuarios {
                Some(v) => Some(textos(v@)),
                None => None,
            },
        }
    }
}

/// A message as it is sent back to clients: the sender's name and the text.
#[derive(Debug)]
pub struct MensagemDTO {
    pub usuario: String,
    pub conteudo: String,
}

pub struct MensagemDTOView {
    pub usuario: Seq<char>,
    pub conteudo: Seq<char>,
}

impl View for MensagemDTO {
    type V = MensagemDTOView;

    open spec fn view(&self) -> MensagemDTOView {
        MensagemDTOView { usuario: self.usuario@, conteudo: self.conteudo@ }
    }
}

/// What clients are shown of a message.
pub open spec fn dto_de(m: MensagemView) -> MensagemDTOView {
    MensagemDTOView { usuario: m.usuario.nome, conteudo: m.conteudo }
}

impl<'a> From<&'a Mensagem> for MensagemDTO {
    fn from(m: &'a Mensagem) -> (r: Self)
        ensures
            r@ == dto_de(m@),
    {
        MensagemDTO { usuario: m.usuario.get_nome().clone(), conteudo: m.conteudo.clone() }
    }
}

impl<'a> vstd::std_specs::convert::FromSpecImpl<&'a Mensagem> for MensagemDTO {
    open spec fn obeys_from_spec() -> bool {
        true
    }

    closed spec fn from_spec(m: &'a Mensagem) -> MensagemDTO {
        MensagemDTO { usuario: m.usuario.nome_texto(), conteudo: m.conteudo }
    }
}

} // verus!
