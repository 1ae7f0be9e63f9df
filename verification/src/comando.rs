use vstd::prelude::*;

use crate::usuario::{vista_usuarios, RefUsuario, UsuarioView};

verus! {

/// What the server is asked to do, once a request has been checked against
/// the registered users.
pub enum Comando {
    AdicionarUsuario { nome: String },
    MensagemGlobal { usuario: RefUsuario, conteudo: String },
    Tchau { usuario: RefUsuario },
    MensagemPrivada { integrantes: Vec<RefUsuario>, remetente: RefUsuario, mensagem: String },
    GetMensagems { usuario: RefUsuario },
}

pub enum ComandoView {
    AdicionarUsuario { nome: Seq<char> },
    MensagemGlobal { usuario: UsuarioView, conteudo: Seq<char> },
    Tchau { usuario: UsuarioView },
    MensagemPrivada {
        integrantes: Seq<UsuarioView>,
        remetente: UsuarioView,
        mensagem: Seq<char>,
    },
    GetMensagems { usuario: UsuarioView },
}

impl View for Comando {
    type V = ComandoView;

    open spec fn view(&self) -> ComandoView {
        match self {
            Comando::AdicionarUsuario { nome } => ComandoView::AdicionarUsuario { nome: nome@ },
            Comando::MensagemGlobal { usuario, conteudo } => ComandoView::MensagemGlobal {
                usuario: usuario@,
                conteudo: conteudo@,
            },
            Comando::Tchau { usuario } => ComandoView::Tchau { usuario: usuario@ },
            Comando::MensagemPrivada { integrantes, remetente, mensagem } =>
                ComandoView::MensagemPrivada {
                    integrantes: vista_usuarios(integrantes@),
                    remetente: remetente@,
                    mensagem: mensagem@,
                },
            Comando::GetMensagems { usuario } => ComandoView::GetMensagems { usuario: usuario@ },
        }
    }
}

} // verus!
