use vstd::prelude::*;

use crate::conversa::conversa_privada::{ConversaPrivadaDTO, ConversaPrivadaDTOView};
use crate::mensagem::{MensagemDTO, MensagemDTOView};
use crate::servidor::ErroServidor;

verus! {

/// The server's answer to a request.
pub enum RespostaServidor {
    MensagemAdicionada,
    UsuarioAdicionado,
    UsuarioOffline,
    Erro { erro: ErroServidor },
    GetMensagens { globais: Vec<MensagemDTO>, privadas: Vec<ConversaPrivadaDTO> },
}

pub enum RespostaView {
    MensagemAdicionada,
    UsuarioAdicionado,
    UsuarioOffline,
    Erro { erro: ErroServidor },
    GetMensagens { globais: Seq<MensagemDTOView>, privadas: Seq<ConversaPrivadaDTOView> },
}

impl View for RespostaServidor {
    type V = RespostaView;

    open spec fn view(&self) -> RespostaView {
        match self {
            RespostaServidor::MensagemAdicionada => RespostaView::MensagemAdicionada,
            RespostaServidor::UsuarioAdicionado => RespostaView::UsuarioAdicionado,
            RespostaServidor::UsuarioOffline => RespostaView::UsuarioOffline,
            RespostaServidor::Erro { erro } => RespostaView::Erro { erro: *erro },
            RespostaServidor::GetMensagens { globais, privadas } => RespostaView::GetMensagens {
                globais: globais@.map_values(|m: MensagemDTO| m@),
                privadas: privadas@.map_values(|c: ConversaPrivadaDTO| c@),
            },
        }
    }
}

} // verus!
