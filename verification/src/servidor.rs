use vstd::prelude::*;

use crate::busca::{lema_primeiro, lema_primeiro_unico, primeiro};
use crate::comando::{Comando, ComandoView};
use crate::conversa::conversa_privada::{
    dto_de_conversa, ConversaPrivada, ConversaPrivadaDTO, ConversaPrivadaView,
};
use crate::conversa::{vista_mensagens, Conversa};
use crate::mensagem::{
    textos, dto_de, Mensagem, MensagemDTO, MensagemJson, MensagemJsonView, MensagemView, TipoMensagem,
    TipoMensagemView,
};
use crate::resposta_servidor::{RespostaServidor, RespostaView};
use crate::usuario::{conjunto, contem_nome, mesmo_conjunto, partilhar, vista_usuarios, RefUsuario, Usuario, UsuarioView};
use std::sync::Arc;

verus! {

/// Why the server refused a request.
#[derive(Clone, Copy, Debug, PartialEq, Eq, Structural)]
pub enum ErroServidor {
    UsuarioExistente,
    UsuarioNaoExistente,
    JsonInvalido,
    FalhaAoEscrever,
    FalhaAoLer,
}

/// The text that describes each error.
pub open spec fn texto_do_erro(e: ErroServidor) -> Seq<char> {
    match e {
        ErroServidor::UsuarioExistente => "usuario já existe"@,
        ErroServidor::UsuarioNaoExistente => "usuario não existe"@,
        ErroServidor::JsonInvalido => "Json invalido"@,
        ErroServidor::FalhaAoEscrever => "Falha ao escrever"@,
        ErroServidor::FalhaAoLer => "Falha ao ler"@,
    }
}

impl ErroServidor {
    /// The text that describes the error, as an I/O error carries it.
    pub fn descricao(self) -> (s: &'static str)
        ensures
            s@ == texto_do_erro(self),
    {
        match self {
            ErroServidor::UsuarioExistente => "usuario já existe",
            ErroServidor::UsuarioNaoExistente => "usuario não existe",
            ErroServidor::JsonInvalido => "Json invalido",
            ErroServidor::FalhaAoEscrever => "Falha ao escrever",
            ErroServidor::FalhaAoLer => "Falha ao ler",
        }
    }
}

/// The abstract state of the server.
#[verifier::ext_equal]
pub struct ServidorView {
    pub ip: Seq<char>,
    pub porta: u16,
    /// The registered users, in the order they joined.
    pub usuarios: Seq<UsuarioView>,
    /// The global conversation, oldest message first.
    pub globais: Seq<MensagemView>,
    /// The private conversations, in the order they were opened.
    pub privadas: Seq<ConversaPrivadaView>,
    pub ligado: bool,
}

/// The chat server: the address it listens on, its users and conversations,
/// and whether it is running.
pub struct Servidor {
    ip: String,
    porta: u16,
    usuarios: Vec<RefUsuario>,
    mensagens_globais: Conversa,
    mensagens_privadas: Vec<ConversaPrivada>,
    ligado: bool,
}

/// The abstract values of a list of private conversations.
pub open spec fn vista_conversas(v: Seq<ConversaPrivada>) -> Seq<ConversaPrivadaView> {
    v.map_values(|c: ConversaPrivada| c@)
}

impl View for Servidor {
    type V = ServidorView;

    closed spec fn view(&self) -> ServidorView {
        ServidorView {
            ip: self.ip@,
            porta: self.porta,
            usuarios: vista_usuarios(self.usuarios@),
            globais: self.mensagens_globais@,
            privadas: vista_conversas(self.mensagens_privadas@),
            ligado: self.ligado,
        }
    }
}

// ---------------------------------------------------------------------------
// The rules of the server, stated over its abstract state.
// ---------------------------------------------------------------------------

/// A user has the given name.
pub open spec fn com_nome(nome: Seq<char>) -> spec_fn(UsuarioView) -> bool {
    |u: UsuarioView| u.nome == nome
}

/// A private conversation has exactly the given set of members.
pub open spec fn com_membros(membros: Set<Seq<char>>) -> spec_fn(ConversaPrivadaView) -> bool {
    |c: ConversaPrivadaView| conjunto(c.usuarios) == membros
}

/// A private conversation counts the named user among its members.
pub open spec fn inclui(nome: Seq<char>) -> spec_fn(ConversaPrivadaView) -> bool {
    |c: ConversaPrivadaView| conjunto(c.usuarios).contains(nome)
}

/// The first registered user with the given name, if any.
pub open spec fn usuario_por_nome(us: Seq<UsuarioView>, nome: Seq<char>) -> Option<UsuarioView> {
    match primeiro(us, com_nome(nome)) {
        Some(i) => Some(us[i]),
        None => None,
    }
}

/// The private conversations after a message `m` to the group `integrantes`:
/// it goes to the first conversation with the same set of members, or, where
/// there is none, opens a new conversation of that group at the end.
pub open spec fn com_mensagem_privada(
    ps: Seq<ConversaPrivadaView>,
    integrantes: Seq<UsuarioView>,
    m: MensagemView,
) -> Seq<ConversaPrivadaView> {
    match primeiro(ps, com_membros(conjunto(integrantes))) {
        Some(i) => ps.update(
            i,
            ConversaPrivadaView { usuarios: ps[i].usuarios, mensagens: ps[i].mensagens.push(m) },
        ),
        None => ps.push(ConversaPrivadaView { usuarios: integrantes, mensagens: seq![m] }),
    }
}

/// What a user is shown of the private conversations: those it belongs to,
/// in order.
pub open spec fn privadas_de(ps: Seq<ConversaPrivadaView>, nome: Seq<char>) -> Seq<
    crate::conversa::conversa_privada::ConversaPrivadaDTOView,
> {
    ps.filter(inclui(nome)).map_values(|c: ConversaPrivadaView| dto_de_conversa(c))
}

/// The command a request asks for, checked against the registered users.
pub open spec fn comando_de(s: ServidorView, m: MensagemJsonView) -> Result<ComandoView, ErroServidor> {
    match m.tipo {
        TipoMensagemView::Ola(nome) => {
            if usuario_por_nome(s.usuarios, nome) is Some {
                Err(ErroServidor::UsuarioExistente)
            } else {
                Ok(ComandoView::AdicionarUsuario { nome })
            }
        },
        TipoMensagemView::MensagemGlobal(conteudo) => match usuario_por_nome(s.usuarios, m.usuario) {
            Some(u) => Ok(ComandoView::MensagemGlobal { usuario: u, conteudo }),
            None => Err(ErroServidor::UsuarioNaoExistente),
        },
        TipoMensagemView::Tchau(_) => match usuario_por_nome(s.usuarios, m.usuario) {
            Some(u) => Ok(ComandoView::Tchau { usuario: u }),
            None => Err(ErroServidor::UsuarioNaoExistente),
        },
        TipoMensagemView::MensagemPrivada(conteudo) => match m.usuarios {
            None => Err(ErroServidor::UsuarioNaoExistente),
            Some(destinos) => match usuario_por_nome(s.usuarios, m.usuario) {
                None => Err(ErroServidor::UsuarioNaoExistente),
                Some(r) => {
                    if forall|k: int|
                        0 <= k < destinos.len() ==> #[trigger] usuario_por_nome(
                            s.usuarios,
                            destinos[k],
                        ) is Some {
                        Ok(
                            ComandoView::MensagemPrivada {
                                integrantes: destinos.map_values(
                                    |n: Seq<char>| usuario_por_nome(s.usuarios, n)->0,
                                ).push(r),
                                remetente: r,
                                mensagem: conteudo,
                            },
                        )
                    } else {
                        Err(ErroServidor::UsuarioNaoExistente)
                    }
                },
            },
        },
        TipoMensagemView::GetMensagens(_) => match usuario_por_nome(s.usuarios, m.usuario) {
            Some(u) => Ok(ComandoView::GetMensagems { usuario: u }),
            None => Err(ErroServidor::UsuarioNaoExistente),
        },
    }
}

/// What carrying out a command does to the state, and the reply.
pub open spec fn efeito(s: ServidorView, c: ComandoView) -> (ServidorView, Result<RespostaView, ErroServidor>) {
    match c {
        ComandoView::MensagemGlobal { usuario, conteudo } => (
            ServidorView {
                globais: s.globais.push(MensagemView { usuario, conteudo }),
                ..s
            },
            Ok(RespostaView::MensagemAdicionada),
        ),
        ComandoView::AdicionarUsuario { nome } => {
            if primeiro(s.usuarios, com_nome(nome)) is Some {
                (s, Err(ErroServidor::UsuarioExistente))
            } else {
                (
                    ServidorView {
                        usuarios: s.usuarios.push(UsuarioView { nome }),
                        ..s
                    },
                    Ok(RespostaView::UsuarioAdicionado),
                )
            }
        },
        // Goodbye switches off the online flag that every handle on that user
        // shares; the flag is not part of this state, which stays as it is.
        ComandoView::Tchau { usuario } => (s, Ok(RespostaView::UsuarioOffline)),
        ComandoView::MensagemPrivada { integrantes, remetente, mensagem } => (
            ServidorView {
                privadas: com_mensagem_privada(
                    s.privadas,
                    integrantes,
                    MensagemView { usuario: remetente, conteudo: mensagem },
                ),
                ..s
            },
            Ok(RespostaView::MensagemAdicionada),
        ),
        ComandoView::GetMensagems { usuario } => (
            s,
            Ok(
                RespostaView::GetMensagens {
                    globais: s.globais.map_values(|m: MensagemView| dto_de(m)),
                    privadas: privadas_de(s.privadas, usuario.nome),
                },
            ),
        ),
    }
}

/// What the server does with a request: the command it asks for, carried out;
/// or, where the request is refused, the state unchanged and the error.
pub open spec fn resposta_de(s: ServidorView, m: MensagemJsonView) -> (ServidorView, Result<RespostaView, ErroServidor>) {
    match comando_de(s, m) {
        Ok(c) => efeito(s, c),
        Err(e) => (s, Err(e)),
    }
}

/// The abstract value of a command, or the error.
pub open spec fn vista_comando(r: Result<Comando, ErroServidor>) -> Result<ComandoView, ErroServidor> {
    match r {
        Ok(c) => Ok(c@),
        Err(e) => Err(e),
    }
}

/// The abstract value of a reply, or the error.
pub open spec fn vista_resposta(r: Result<RespostaServidor, ErroServidor>) -> Result<RespostaView, ErroServidor> {
    match r {
        Ok(c) => Ok(c@),
        Err(e) => Err(e),
    }
}

/// The invariant the server keeps: no two users share a name, and no two
/// private conversations have the same set of members.
pub open spec fn bem_formado(s: ServidorView) -> bool {
    &&& forall|i: int, j: int|
        0 <= i < j < s.usuarios.len() ==> #[trigger] s.usuarios[i].nome != #[trigger] s.usuarios[j].nome
    &&& forall|i: int, j: int|
        0 <= i < j < s.privadas.len() ==> conjunto(#[trigger] s.privadas[i].usuarios) != conjunto(
            #[trigger] s.privadas[j].usuarios,
        )
}

impl Servidor {
    /// The handles on the registered users that the server holds, in order.
    pub closed spec fn alcas(&self) -> Seq<RefUsuario> {
        self.usuarios@
    }

    /// A stopped server for the given address, with no users and no messages.
    pub fn new(ip: String, porta: u16) -> (s: Self)
        ensures
            s@ == (ServidorView {
                ip: ip@,
                porta,
                usuarios: Seq::empty(),
                globais: Seq::empty(),
                privadas: Seq::empty(),
                ligado: false,
            }),
    {
        let s = Servidor {
            ip,
            porta,
            usuarios: Vec::new(),
            mensagens_globais: Conversa::new(),
            mensagens_privadas: Vec::new(),
            ligado: false,
        };
        assert(s@.usuarios =~= Seq::<UsuarioView>::empty());
        assert(s@.privadas =~= Seq::<ConversaPrivadaView>::empty());
        s
    }

    /// The position of the first user with the given name.
    fn posicao_usuario(&self, nome: &String) -> (r: Option<usize>)
        ensures
            match r {
                Some(i) => primeiro(self@.usuarios, com_nome(nome@)) == Some(i as int),
                None => primeiro(self@.usuarios, com_nome(nome@)) is None,
            },
    {
        let mut i: usize = 0;
        while i < self.usuarios.len()
            invariant
                i <= self.usuarios@.len(),
                forall|j: int| 0 <= j < i ==> !com_nome(nome@)(#[trigger] self@.usuarios[j]),
            decreases self.usuarios@.len() - i,
        {
            assert(self@.usuarios[i as int] == self.usuarios@[i as int]@);
            if *self.usuarios[i].get_nome() == *nome {
                proof {
                    lema_primeiro_unico(self@.usuarios, com_nome(nome@), i as int);
                }
                return Some(i);
            }
            i = i + 1;
        }
        proof {
            lema_primeiro(self@.usuarios, com_nome(nome@));
        }
        None
    }

    /// A new user of the given name, or `UsuarioExistente` where the name is
    /// taken.
    fn criar_usuario(&self, nome: String) -> (r: Result<RefUsuario, ErroServidor>)
        ensures
            match r {
                Ok(u) => primeiro(self@.usuarios, com_nome(nome@)) is None && u@ == (UsuarioView {
                    nome: nome@,
                }),
                Err(e) => primeiro(self@.usuarios, com_nome(nome@)) is Some && e
                    == ErroServidor::UsuarioExistente,
            },
    {
        if self.posicao_usuario(&nome).is_some() {
            return Err(ErroServidor::UsuarioExistente);
        }
        Ok(Arc::new(Usuario::new(nome)))
    }

    /// A handle on the registered user of the given name, or
    /// `UsuarioNaoExistente`.
    pub fn get_usuario(&self, nome: &String) -> (r: Result<RefUsuario, ErroServidor>)
        ensures
            match r {
                Ok(u) => {
                    &&& usuario_por_nome(self@.usuarios, nome@) == Some(u@)
                    &&& primeiro(self@.usuarios, com_nome(nome@)) matches Some(i)
                    &&& u == self.alcas()[i]
                },
                Err(e) => usuario_por_nome(self@.usuarios, nome@) is None && e
                    == ErroServidor::UsuarioNaoExistente,
            },
    {
        match self.posicao_usuario(nome) {
            Some(i) => {
                assert(self@.usuarios[i as int] == self.usuarios@[i as int]@);
                Ok(partilhar(&self.usuarios[i]))
            },
            None => Err(ErroServidor::UsuarioNaoExistente),
        }
    }

    /// The registered user of the given name, to be changed in place, or
    /// `UsuarioNaoExistente`.
    pub fn get_usuario_mut(&mut self, nome: &String) -> (r: Result<&mut RefUsuario, ErroServidor>)
        ensures
            match r {
                Ok(u) => {
                    &&& primeiro(old(self)@.usuarios, com_nome(nome@)) matches Some(i)
                    &&& u@ == old(self)@.usuarios[i]
                    &&& final(self)@.usuarios == old(self)@.usuarios.update(i, final(u)@)
                    &&& final(self)@.ip == old(self)@.ip
                    &&& final(self)@.porta == old(self)@.porta
                    &&& final(self)@.globais == old(self)@.globais
                    &&& final(self)@.privadas == old(self)@.privadas
                    &&& final(self)@.ligado == old(self)@.ligado
                },
                Err(e) => primeiro(old(self)@.usuarios, com_nome(nome@)) is None && e
                    == ErroServidor::UsuarioNaoExistente && final(self)@ == old(self)@,
            },
    {
        match self.posicao_usuario(nome) {
            Some(i) => {
                assert(self@.usuarios[i as int] == self.usuarios@[i as int]@);
                Ok(&mut self.usuarios[i])
            },
            None => Err(ErroServidor::UsuarioNaoExistente),
        }
    }
}

/// Turning a request into a command.
pub trait ToComando {
    fn to_comando(&self, mes_json: MensagemJson) -> Result<Comando, ErroServidor>;
}

/// Carrying out a command.
pub trait ProcessarComando {
    fn processar_comando(&mut self, comando: Comando) -> Result<RespostaServidor, ErroServidor>;
}

impl Servidor {
    /// The users named in `destinos`, in order, or `UsuarioNaoExistente` where
    /// one of them is not registered.
    fn usuarios_nomeados(&self, destinos: &Vec<String>) -> (r: Result<Vec<RefUsuario>, ErroServidor>)
        ensures
            match r {
                Ok(v) => {
                    &&& forall|k: int|
                        0 <= k < destinos@.len() ==> #[trigger] usuario_por_nome(
                            self@.usuarios,
                            textos(destinos@)[k],
                        ) is Some
                    &&& vista_usuarios(v@) == textos(destinos@).map_values(
                        |n: Seq<char>| usuario_por_nome(self@.usuarios, n)->0,
                    )
                },
                Err(e) => e == ErroServidor::UsuarioNaoExistente && !(forall|k: int|
                    0 <= k < destinos@.len() ==> #[trigger] usuario_por_nome(
                        self@.usuarios,
                        textos(destinos@)[k],
                    ) is Some),
            },
    {
        let ghost alvo = textos(destinos@).map_values(
            |n: Seq<char>| usuario_por_nome(self@.usuarios, n)->0,
        );
        let mut v: Vec<RefUsuario> = Vec::new();
        let mut k: usize = 0;
        while k < destinos.len()
            invariant
                k <= destinos@.len(),
                alvo == textos(destinos@).map_values(
                    |n: Seq<char>| usuario_por_nome(self@.usuarios, n)->0,
                ),
                forall|j: int|
                    0 <= j < k ==> #[trigger] usuario_por_nome(
                        self@.usuarios,
                        textos(destinos@)[j],
                    ) is Some,
                vista_usuarios(v@) =~= alvo.take(k as int),
            decreases destinos@.len() - k,
        {
            assert(textos(destinos@)[k as int] == destinos@[k as int]@);
            match self.get_usuario(&destinos[k]) {
                Ok(u) => {
                    v.push(u);
                    assert(alvo.take(k + 1) =~= alvo.take(k as int).push(u@));
                },
                Err(e) => {
                    return Err(e);
                },
            }
            k = k + 1;
        }
        assert(alvo.take(destinos@.len() as int) =~= alvo);
        Ok(v)
    }
}

impl ToComando for Servidor {
    fn to_comando(&self, mes_json: MensagemJson) -> (r: Result<Comando, ErroServidor>)
        ensures
            vista_comando(r) == comando_de(self@, mes_json@),
    {
        let MensagemJson { usuario, tipo, usuarios } = mes_json;
        match tipo {
            TipoMensagem::Ola(nome) => {
                if self.get_usuario(&nome).is_ok() {
                    Err(ErroServidor::UsuarioExistente)
                } else {
                    Ok(Comando::AdicionarUsuario { nome })
                }
            },
            TipoMensagem::MensagemGlobal(conteudo) => {
                let u = self.get_usuario(&usuario)?;
                Ok(Comando::MensagemGlobal { usuario: u, conteudo })
            },
            TipoMensagem::Tchau(_) => {
                let u = self.get_usuario(&usuario)?;
                Ok(Comando::Tchau { usuario: u })
            },
            TipoMensagem::MensagemPrivada(conteudo) => {
                let destinos = match usuarios {
                    Some(d) => d,
                    None => {
                        return Err(ErroServidor::UsuarioNaoExistente);
                    },
                };
                let remetente = self.get_usuario(&usuario)?;
                let mut integrantes = self.usuarios_nomeados(&destinos)?;
                let ghost antes = vista_usuarios(integrantes@);
                integrantes.push(partilhar(&remetente));
                assert(vista_usuarios(integrantes@) =~= antes.push(remetente@));
                Ok(Comando::MensagemPrivada { integrantes, remetente, mensagem: conteudo })
            },
            TipoMensagem::GetMensagens(_) => {
                let u = self.get_usuario(&usuario)?;
                Ok(Comando::GetMensagems { usuario: u })
            },
        }
    }
}

impl Servidor {
    /// Registers a new user of the given name.
    fn registrar(&mut self, nome: String) -> (r: Result<RespostaServidor, ErroServidor>)
        ensures
            final(self)@ == efeito(old(self)@, ComandoView::AdicionarUsuario { nome: nome@ }).0,
            vista_resposta(r) == efeito(old(self)@, ComandoView::AdicionarUsuario { nome: nome@ }).1,
    {
        let usuario = self.criar_usuario(nome)?;
        self.usuarios.push(usuario);
        assert(vista_usuarios(self.usuarios@) =~= old(self)@.usuarios.push(usuario@));
        Ok(RespostaServidor::UsuarioAdicionado)
    }

}

impl Servidor {
    /// The position of the first private conversation whose members are the
    /// same set of users as `integrantes`.
    fn posicao_conversa(&self, integrantes: &Vec<RefUsuario>) -> (r: Option<usize>)
        ensures
            match r {
                Some(i) => primeiro(
                    self@.privadas,
                    com_membros(conjunto(vista_usuarios(integrantes@))),
                ) == Some(i as int),
                None => primeiro(
                    self@.privadas,
                    com_membros(conjunto(vista_usuarios(integrantes@))),
                ) is None,
            },
    {
        let ghost p = com_membros(conjunto(vista_usuarios(integrantes@)));
        let mut i: usize = 0;
        while i < self.mensagens_privadas.len()
            invariant
                i <= self.mensagens_privadas@.len(),
                p == com_membros(conjunto(vista_usuarios(integrantes@))),
                forall|j: int| 0 <= j < i ==> !p(#[trigger] self@.privadas[j]),
            decreases self.mensagens_privadas@.len() - i,
        {
            assert(self@.privadas[i as int] == self.mensagens_privadas@[i as int]@);
            if mesmo_conjunto(self.mensagens_privadas[i].get_usuarios(), integrantes) {
                proof {
                    lema_primeiro_unico(self@.privadas, p, i as int);
                }
                return Some(i);
            }
            i = i + 1;
        }
        proof {
            lema_primeiro(self@.privadas, p);
        }
        None
    }

    /// Posts a message of `remetente` to the private conversation of the
    /// group `integrantes`, opening it where it does not exist yet.
    fn enviar_privada(&mut self, integrantes: Vec<RefUsuario>, remetente: RefUsuario, mensagem: String)
        ensures
            final(self)@ == (ServidorView {
                privadas: com_mensagem_privada(
                    old(self)@.privadas,
                    vista_usuarios(integrantes@),
                    MensagemView { usuario: remetente@, conteudo: mensagem@ },
                ),
                ..old(self)@
            }),
    {
        let pos = self.posicao_conversa(&integrantes);
        let msg = Mensagem::new(remetente, mensagem);
        let ghost m = msg@;
        let ghost antes = self@.privadas;
        match pos {
            Some(i) => {
                let mut ps: Vec<ConversaPrivada> = Vec::new();
                std::mem::swap(&mut ps, &mut self.mensagens_privadas);
                let ghost anterior = ps@;
                assert(antes[i as int] == anterior[i as int]@);
                ps[i].get_conversa_mutavel().adicionar_mensagem(msg);
                assert(forall|j: int| 0 <= j < ps@.len() && j != i ==> ps@[j] == anterior[j]);
                self.mensagens_privadas = ps;
                assert(self@.privadas =~= antes.update(
                    i as int,
                    ConversaPrivadaView {
                        usuarios: antes[i as int].usuarios,
                        mensagens: antes[i as int].mensagens.push(m),
                    },
                ));
            },
            None => {
                let mut nova = ConversaPrivada::from_vetor(integrantes);
                nova.get_conversa_mutavel().adicionar_mensagem(msg);
                assert(nova@.mensagens =~= seq![m]);
                self.mensagens_privadas.push(nova);
                assert(self@.privadas =~= antes.push(nova@));
            },
        }
    }
}

impl Servidor {
    /// What the named user is shown: every global message, and the private
    /// conversations it belongs to.
    fn listar(&self, nome: &String) -> (r: RespostaServidor)
        ensures
            r@ == (RespostaView::GetMensagens {
                globais: self@.globais.map_values(|m: MensagemView| dto_de(m)),
                privadas: privadas_de(self@.privadas, nome@),
            }),
    {
        let lista = self.mensagens_globais.get_mensagens();
        let ghost alvo_g = self@.globais.map_values(|m: MensagemView| dto_de(m));
        let mut globais: Vec<MensagemDTO> = Vec::new();
        let mut j: usize = 0;
        while j < lista.len()
            invariant
                j <= lista@.len(),
                vista_mensagens(lista@) == self@.globais,
                alvo_g == self@.globais.map_values(|m: MensagemView| dto_de(m)),
                globais@.map_values(|m: MensagemDTO| m@) =~= alvo_g.take(j as int),
            decreases lista@.len() - j,
        {
            let dto = MensagemDTO::from(&lista[j]);
            assert(vista_mensagens(lista@)[j as int] == lista@[j as int]@);
            globais.push(dto);
            assert(alvo_g.take(j + 1) =~= alvo_g.take(j as int).push(dto@));
            j = j + 1;
        }
        assert(alvo_g.take(lista@.len() as int) =~= alvo_g);

        let ghost ps = self@.privadas;
        let ghost p = inclui(nome@);
        let mut privadas: Vec<ConversaPrivadaDTO> = Vec::new();
        let mut i: usize = 0;
        while i < self.mensagens_privadas.len()
            invariant
                i <= self.mensagens_privadas@.len(),
                ps == self@.privadas,
                p == inclui(nome@),
                privadas@.map_values(|c: ConversaPrivadaDTO| c@) =~= ps.take(i as int).filter(
                    p,
                ).map_values(|c: ConversaPrivadaView| dto_de_conversa(c)),
            decreases self.mensagens_privadas@.len() - i,
        {
            let c = &self.mensagens_privadas[i];
            assert(ps[i as int] == c@);
            assert(ps.take(i + 1) =~= ps.take(i as int).push(ps[i as int]));
            proof {
                ps.take(i as int).lemma_filter_push(ps[i as int], p);
            }
            if contem_nome(c.get_usuarios(), nome) {
                let dto = ConversaPrivadaDTO::from(c);
                privadas.push(dto);
                assert(ps.take(i + 1).filter(p).map_values(
                    |c: ConversaPrivadaView| dto_de_conversa(c),
                ) =~= ps.take(i as int).filter(p).map_values(
                    |c: ConversaPrivadaView| dto_de_conversa(c),
                ).push(dto@));
            }
            i = i + 1;
        }
        assert(ps.take(self.mensagens_privadas@.len() as int) =~= ps);
        RespostaServidor::GetMensagens { globais, privadas }
    }
}

impl ProcessarComando for Servidor {
    fn processar_comando(&mut self, comando: Comando) -> (r: Result<RespostaServidor, ErroServidor>)
        ensures
            final(self)@ == efeito(old(self)@, comando@).0,
            vista_resposta(r) == efeito(old(self)@, comando@).1,
    {
        match comando {
            Comando::MensagemGlobal { usuario, conteudo } => {
                let mensagem = Mensagem::new(usuario, conteudo);
                self.mensagens_globais.adicionar_mensagem(mensagem);
                Ok(RespostaServidor::MensagemAdicionada)
            },
            Comando::AdicionarUsuario { nome } => self.registrar(nome),
            Comando::Tchau { usuario } => {
                usuario.set_online(false);
                Ok(RespostaServidor::UsuarioOffline)
            },
            Comando::MensagemPrivada { integrantes, remetente, mensagem } => {
                self.enviar_privada(integrantes, remetente, mensagem);
                Ok(RespostaServidor::MensagemAdicionada)
            },
            Comando::GetMensagems { usuario } => Ok(self.listar(usuario.get_nome())),
        }
    }
}

impl Servidor {
    /// Answers a request: turns it into a command and carries the command
    /// out. A refused request leaves the server unchanged.
    pub fn responder(&mut self, mes_json: MensagemJson) -> (r: Result<RespostaServidor, ErroServidor>)
        ensures
            final(self)@ == resposta_de(old(self)@, mes_json@).0,
            vista_resposta(r) == resposta_de(old(self)@, mes_json@).1,
    {
        let comando = self.to_comando(mes_json)?;
        self.processar_comando(comando)
    }
}

impl Servidor {
    /// The address the server listens on.
    pub fn get_ip(&self) -> (r: &String)
        ensures
            r@ == self@.ip,
    {
        &self.ip
    }

    /// The TCP socket number the server listens on.
    pub fn get_porta(&self) -> (r: u16)
        ensures
            r == self@.porta,
    {
        self.porta
    }

    /// Marks the server as running: it then accepts connections until it is
    /// stopped.
    pub fn ligar(&mut self)
        ensures
            final(self)@ == (ServidorView { ligado: true, ..old(self)@ }),
    {
        self.ligado = true;
    }

    /// Whether the server is running.
    pub fn esta_ligado(&self) -> (r: bool)
        ensures
            r == self@.ligado,
    {
        self.ligado
    }
}

} // verus!
