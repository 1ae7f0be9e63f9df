use vstd::prelude::*;

use crate::busca::{lema_primeiro, lema_primeiro_mesmo, lema_primeiro_unico, primeiro};
use crate::comando::ComandoView;
use crate::conversa::conversa_privada::dto_de_conversa;
use crate::conversa::conversa_privada::ConversaPrivadaView;
use crate::mensagem::MensagemDTOView;
use crate::mensagem::{MensagemJsonView, MensagemView};
use crate::resposta_servidor::RespostaView;
use crate::servidor::{
    bem_formado, com_membros, inclui, com_nome, comando_de, efeito, privadas_de, resposta_de,
    usuario_por_nome, ErroServidor, ServidorView,
};
use crate::usuario::{conjunto, nomes, UsuarioView};

verus! {

/// Every command keeps the server's invariant: user names stay unique, and
/// no two private conversations have the same set of members.
pub proof fn lei_invariante_preservado(s: ServidorView, c: ComandoView)
    requires
        bem_formado(s),
    ensures
        bem_formado(efeito(s, c).0),
{
    let s2 = efeito(s, c).0;
    match c {
        ComandoView::AdicionarUsuario { nome } => {
            lema_primeiro(s.usuarios, com_nome(nome));
            if primeiro(s.usuarios, com_nome(nome)) is None {
                assert forall|i: int, j: int|
                    0 <= i < j < s2.usuarios.len() implies #[trigger] s2.usuarios[i].nome
                    != #[trigger] s2.usuarios[j].nome by {
                    if j == s.usuarios.len() {
                        assert(!com_nome(nome)(s.usuarios[i]));
                    }
                }
            }
        },
        ComandoView::Tchau { usuario } => {
            assert forall|i: int, j: int|
                0 <= i < j < s2.usuarios.len() implies #[trigger] s2.usuarios[i].nome
                != #[trigger] s2.usuarios[j].nome by {
                assert(s2.usuarios[i].nome == s.usuarios[i].nome);
                assert(s2.usuarios[j].nome == s.usuarios[j].nome);
            }
        },
        ComandoView::MensagemPrivada { integrantes, remetente, mensagem } => {
            let conj = conjunto(integrantes);
            lema_primeiro(s.privadas, com_membros(conj));
            match primeiro(s.privadas, com_membros(conj)) {
                Some(k) => {
                    assert forall|i: int, j: int|
                        0 <= i < j < s2.privadas.len() implies conjunto(
                        #[trigger] s2.privadas[i].usuarios,
                    ) != conjunto(#[trigger] s2.privadas[j].usuarios) by {
                        assert(s2.privadas[i].usuarios == s.privadas[i].usuarios);
                        assert(s2.privadas[j].usuarios == s.privadas[j].usuarios);
                    }
                },
                None => {
                    assert forall|i: int, j: int|
                        0 <= i < j < s2.privadas.len() implies conjunto(
                        #[trigger] s2.privadas[i].usuarios,
                    ) != conjunto(#[trigger] s2.privadas[j].usuarios) by {
                        if j == s.privadas.len() {
                            assert(!com_membros(conj)(s.privadas[i]));
                        }
                    }
                },
            }
        },
        _ => {},
    }
}

/// A server that has just been created keeps the invariant.
pub proof fn lei_servidor_novo_bem_formado(ip: Seq<char>, porta: u16)
    ensures
        bem_formado(
            ServidorView {
                ip,
                porta,
                usuarios: Seq::empty(),
                globais: Seq::empty(),
                privadas: Seq::empty(),
                ligado: false,
            },
        ),
{
}

/// Answering any request keeps the server's invariant.
pub proof fn lei_resposta_preserva_invariante(s: ServidorView, m: MensagemJsonView)
    requires
        bem_formado(s),
    ensures
        bem_formado(resposta_de(s, m).0),
{
    if let Ok(c) = comando_de(s, m) {
        lei_invariante_preservado(s, c);
    }
}

/// A refused request leaves the server as it was.
pub proof fn lei_recusa_nao_altera(s: ServidorView, m: MensagemJsonView)
    ensures
        resposta_de(s, m).1 is Err ==> resposta_de(s, m).0 == s,
{
}

/// Asking for the messages changes nothing.
pub proof fn lei_consulta_nao_altera(s: ServidorView, u: UsuarioView)
    ensures
        efeito(s, ComandoView::GetMensagems { usuario: u }).0 == s,
{
}

/// Registering a name succeeds exactly when no user has it yet; the new user
/// is then found under that name.
pub proof fn lei_registro(s: ServidorView, nome: Seq<char>)
    ensures
        efeito(s, ComandoView::AdicionarUsuario { nome }).1 is Err <==> (exists|i: int|
            0 <= i < s.usuarios.len() && #[trigger] s.usuarios[i].nome == nome),
        efeito(s, ComandoView::AdicionarUsuario { nome }).1 is Err ==> efeito(
            s,
            ComandoView::AdicionarUsuario { nome },
        ).1 == Err::<RespostaView, ErroServidor>(ErroServidor::UsuarioExistente),
        efeito(s, ComandoView::AdicionarUsuario { nome }).1 is Ok ==> usuario_por_nome(
            efeito(s, ComandoView::AdicionarUsuario { nome }).0.usuarios,
            nome,
        ) == Some(UsuarioView { nome }),
{
    lema_primeiro(s.usuarios, com_nome(nome));
    if exists|i: int| 0 <= i < s.usuarios.len() && #[trigger] s.usuarios[i].nome == nome {
        let i = choose|i: int| 0 <= i < s.usuarios.len() && #[trigger] s.usuarios[i].nome == nome;
        assert(com_nome(nome)(s.usuarios[i]));
    }
    if primeiro(s.usuarios, com_nome(nome)) is None {
        let us2 = s.usuarios.push(UsuarioView { nome });
        assert forall|j: int| 0 <= j < s.usuarios.len() implies !com_nome(nome)(#[trigger] us2[j]) by {
            assert(us2[j] == s.usuarios[j]);
            assert(!com_nome(nome)(s.usuarios[j]));
        }
        lema_primeiro_unico(us2, com_nome(nome), s.usuarios.len() as int);
    }
}

/// A name can be registered only once: saying hello a second time with the
/// same name is refused, and changes nothing.
pub proof fn lei_nome_registrado_uma_vez(s: ServidorView, m: MensagemJsonView)
    requires
        m.tipo is Ola,
        resposta_de(s, m).1 is Ok,
    ensures
        resposta_de(resposta_de(s, m).0, m).1 == Err::<RespostaView, ErroServidor>(
            ErroServidor::UsuarioExistente,
        ),
        resposta_de(resposta_de(s, m).0, m).0 == resposta_de(s, m).0,
{
    let nome = m.tipo->Ola_0;
    lei_registro(s, nome);
    let s2 = resposta_de(s, m).0;
    lema_primeiro(s2.usuarios, com_nome(nome));
}

/// Nothing is ever lost: every command keeps the registered names, the
/// global messages, and each private conversation's members and messages, as
/// prefixes of what there is after it.
pub proof fn lei_historico_preservado(s: ServidorView, c: ComandoView)
    ensures
        nomes(s.usuarios) == nomes(efeito(s, c).0.usuarios).take(s.usuarios.len() as int),
        s.usuarios.len() <= efeito(s, c).0.usuarios.len(),
        s.globais == efeito(s, c).0.globais.take(s.globais.len() as int),
        s.globais.len() <= efeito(s, c).0.globais.len(),
        s.privadas.len() <= efeito(s, c).0.privadas.len(),
        forall|i: int|
            0 <= i < s.privadas.len() ==> (#[trigger] efeito(s, c).0.privadas[i]).usuarios
                == s.privadas[i].usuarios && s.privadas[i].mensagens == efeito(
                s,
                c,
            ).0.privadas[i].mensagens.take(s.privadas[i].mensagens.len() as int) && s.privadas[i].mensagens.len()
                <= efeito(s, c).0.privadas[i].mensagens.len(),
{
    let s2 = efeito(s, c).0;
    assert(nomes(s.usuarios) =~= nomes(s2.usuarios).take(s.usuarios.len() as int));
    assert(s.globais =~= s2.globais.take(s.globais.len() as int));
    assert forall|i: int| 0 <= i < s.privadas.len() implies (#[trigger] s2.privadas[i]).usuarios
        == s.privadas[i].usuarios && s.privadas[i].mensagens == s2.privadas[i].mensagens.take(
        s.privadas[i].mensagens.len() as int,
    ) && s.privadas[i].mensagens.len() <= s2.privadas[i].mensagens.len() by {
        assert(s.privadas[i].mensagens =~= s2.privadas[i].mensagens.take(
            s.privadas[i].mensagens.len() as int,
        ));
    }
}

/// A global message, once posted, is what the next request for the messages
/// shows last, to any user.
pub proof fn lei_mensagem_global_visivel(s: ServidorView, u: UsuarioView, texto: Seq<char>, leitor: UsuarioView)
    ensures
        ({
            let s2 = efeito(s, ComandoView::MensagemGlobal { usuario: u, conteudo: texto }).0;
            let r = efeito(s2, ComandoView::GetMensagems { usuario: leitor }).1;
            &&& r matches Ok(RespostaView::GetMensagens { globais, privadas })
            &&& globais.len() == s.globais.len() + 1
            &&& globais.last() == (MensagemDTOView { usuario: u.nome, conteudo: texto })
        }),
{
}

/// Saying goodbye is always answered `UsuarioOffline` and changes no user
/// list, conversation or message of the server: what it changes is the
/// user's online flag, shared by every handle on the user.
pub proof fn lei_tchau(s: ServidorView, u: UsuarioView)
    ensures
        efeito(s, ComandoView::Tchau { usuario: u }) == (s, Ok::<RespostaView, ErroServidor>(
            RespostaView::UsuarioOffline,
        )),
{
}

/// A private message lands in the conversation of exactly its group of
/// members, as that conversation's last message, after the messages it held.
pub proof fn lei_mensagem_privada_entregue(
    s: ServidorView,
    integrantes: Seq<UsuarioView>,
    remetente: UsuarioView,
    texto: Seq<char>,
)
    ensures
        ({
            let s2 = efeito(
                s,
                ComandoView::MensagemPrivada { integrantes, remetente, mensagem: texto },
            ).0;
            let p = com_membros(conjunto(integrantes));
            &&& primeiro(s2.privadas, p) matches Some(k)
            &&& conjunto(s2.privadas[k].usuarios) == conjunto(integrantes)
            &&& s2.privadas[k].mensagens.last() == (MensagemView {
                usuario: remetente,
                conteudo: texto,
            })
            &&& s2.privadas[k].mensagens.drop_last() == (match primeiro(s.privadas, p) {
                Some(j) => s.privadas[j].mensagens,
                None => Seq::empty(),
            })
        }),
{
    let p = com_membros(conjunto(integrantes));
    let m = MensagemView { usuario: remetente, conteudo: texto };
    let s2 = efeito(s, ComandoView::MensagemPrivada { integrantes, remetente, mensagem: texto }).0;
    lema_primeiro(s.privadas, p);
    match primeiro(s.privadas, p) {
        Some(k) => {
            assert forall|i: int| 0 <= i < s.privadas.len() implies p(#[trigger] s.privadas[i]) == p(
                s2.privadas[i],
            ) by {}
            lema_primeiro_mesmo(s.privadas, p, s2.privadas, p);
            assert(s2.privadas[k].mensagens.drop_last() =~= s.privadas[k].mensagens);
        },
        None => {
            let n = s.privadas.len() as int;
            assert forall|j: int| 0 <= j < n implies !p(#[trigger] s2.privadas[j]) by {
                assert(s2.privadas[j] == s.privadas[j]);
                assert(!p(s.privadas[j]));
            }
            assert(p(s2.privadas[n]));
            lema_primeiro_unico(s2.privadas, p, n);
            assert(s2.privadas[n].mensagens.drop_last() =~= Seq::<MensagemView>::empty());
        },
    }
}

/// A user is shown exactly the private conversations it belongs to: each one
/// shown lists it among its members, and each one it belongs to is shown.
pub proof fn lei_privadas_so_para_membros(s: ServidorView, nome: Seq<char>)
    ensures
        forall|k: int|
            0 <= k < privadas_de(s.privadas, nome).len() ==> (#[trigger] privadas_de(
                s.privadas,
                nome,
            )[k]).integrantes.contains(nome),
        forall|i: int|
            0 <= i < s.privadas.len() && conjunto(s.privadas[i].usuarios).contains(nome)
                ==> privadas_de(s.privadas, nome).contains(
                dto_de_conversa(#[trigger] s.privadas[i]),
            ),
{
    let f = s.privadas.filter(inclui(nome));
    assert forall|k: int| 0 <= k < privadas_de(s.privadas, nome).len() implies (
    #[trigger] privadas_de(s.privadas, nome)[k]).integrantes.contains(nome) by {
        s.privadas.lemma_filter_pred(inclui(nome), k);
        assert(inclui(nome)(f[k]));
    }
    assert forall|i: int|
        0 <= i < s.privadas.len() && conjunto(s.privadas[i].usuarios).contains(nome) implies privadas_de(
        s.privadas,
        nome,
    ).contains(dto_de_conversa(#[trigger] s.privadas[i])) by {
        s.privadas.lemma_filter_contains(inclui(nome), i);
        let k = choose|k: int| 0 <= k < f.len() && f[k] == s.privadas[i];
        assert(privadas_de(s.privadas, nome)[k] == dto_de_conversa(s.privadas[i]));
    }
}

/// A request from a name that no user has is refused, with
/// `UsuarioNaoExistente`, unless it is the request to register that name.
pub proof fn lei_remetente_desconhecido(s: ServidorView, m: MensagemJsonView)
    requires
        !(m.tipo is Ola),
        usuario_por_nome(s.usuarios, m.usuario) is None,
    ensures
        resposta_de(s, m) == (s, Err::<RespostaView, ErroServidor>(ErroServidor::UsuarioNaoExistente)),
{
}

/// A conversation after the messages `ms` are added to it one after the
/// other, each by `Conversa::adicionar_mensagem`.
pub open spec fn apos_adicionar(c: Seq<MensagemView>, ms: Seq<MensagemView>) -> Seq<MensagemView>
    decreases ms.len(),
{
    if ms.len() == 0 {
        c
    } else {
        apos_adicionar(c, ms.drop_last()).push(ms.last())
    }
}

/// Adding messages one by one keeps them in the order they were added, after
/// those already there; a new conversation then holds exactly them.
pub proof fn lei_conversa_acumula(c: Seq<MensagemView>, ms: Seq<MensagemView>)
    ensures
        apos_adicionar(c, ms) == c + ms,
        apos_adicionar(Seq::empty(), ms) == ms,
    decreases ms.len(),
{
    if ms.len() > 0 {
        lei_conversa_acumula(c, ms.drop_last());
        assert(c + ms =~= (c + ms.drop_last()).push(ms.last()));
        assert(Seq::<MensagemView>::empty() + ms =~= ms);
    } else {
        assert(c + ms =~= c);
        assert(Seq::<MensagemView>::empty() + ms =~= ms);
    }
}

/// A private message goes to private conversations only: the global
/// conversation, the registered users, the address and the running flag are
/// as they were.
pub proof fn lei_privada_nao_toca_globais(
    s: ServidorView,
    integrantes: Seq<UsuarioView>,
    remetente: UsuarioView,
    texto: Seq<char>,
)
    ensures
        ({
            let s2 = efeito(
                s,
                ComandoView::MensagemPrivada { integrantes, remetente, mensagem: texto },
            ).0;
            &&& s2.globais == s.globais
            &&& s2.usuarios == s.usuarios
            &&& s2.ip == s.ip
            &&& s2.porta == s.porta
            &&& s2.ligado == s.ligado
        }),
{
}

/// A global message goes to the global conversation only: every private
/// conversation, the registered users, the address and the running flag are
/// as they were.
pub proof fn lei_global_nao_toca_privadas(s: ServidorView, u: UsuarioView, texto: Seq<char>)
    ensures
        ({
            let s2 = efeito(s, ComandoView::MensagemGlobal { usuario: u, conteudo: texto }).0;
            &&& s2.privadas == s.privadas
            &&& s2.usuarios == s.usuarios
            &&& s2.ip == s.ip
            &&& s2.porta == s.porta
            &&& s2.ligado == s.ligado
        }),
{
}

/// A private message changes at most one conversation. Every conversation
/// whose set of members is not the message's group is left as it was, and so
/// is every one but the first of that group. The one that changes keeps its
/// members and gains exactly the new message at the end; where the group has
/// no conversation yet, one is added after all the others, holding only the
/// message.
pub proof fn lei_privada_so_no_seu_grupo(
    s: ServidorView,
    integrantes: Seq<UsuarioView>,
    remetente: UsuarioView,
    texto: Seq<char>,
)
    ensures
        ({
            let s2 = efeito(
                s,
                ComandoView::MensagemPrivada { integrantes, remetente, mensagem: texto },
            ).0;
            let m = MensagemView { usuario: remetente, conteudo: texto };
            let grupo = conjunto(integrantes);
            &&& forall|i: int|
                0 <= i < s.privadas.len() && conjunto(s.privadas[i].usuarios) != grupo
                    ==> #[trigger] s2.privadas[i] == s.privadas[i]
            &&& forall|i: int|
                0 <= i < s.privadas.len() && primeiro(s.privadas, com_membros(grupo)) != Some(i)
                    ==> #[trigger] s2.privadas[i] == s.privadas[i]
            &&& match primeiro(s.privadas, com_membros(grupo)) {
                Some(k) => {
                    &&& s2.privadas.len() == s.privadas.len()
                    &&& conjunto(s.privadas[k].usuarios) == grupo
                    &&& s2.privadas[k].usuarios == s.privadas[k].usuarios
                    &&& s2.privadas[k].mensagens == s.privadas[k].mensagens.push(m)
                },
                None => {
                    &&& forall|i: int|
                        0 <= i < s.privadas.len() ==> conjunto(#[trigger] s.privadas[i].usuarios)
                            != grupo
                    &&& s2.privadas.len() == s.privadas.len() + 1
                    &&& s2.privadas.last() == (ConversaPrivadaView {
                        usuarios: integrantes,
                        mensagens: seq![m],
                    })
                },
            }
        }),
{
    let grupo = conjunto(integrantes);
    lema_primeiro(s.privadas, com_membros(grupo));
    let s2 = efeito(s, ComandoView::MensagemPrivada { integrantes, remetente, mensagem: texto }).0;
    assert forall|i: int|
        0 <= i < s.privadas.len() && conjunto(s.privadas[i].usuarios) != grupo implies #[trigger] s2.privadas[i]
        == s.privadas[i] by {
        if let Some(k) = primeiro(s.privadas, com_membros(grupo)) {
            assert(com_membros(grupo)(s.privadas[k]));
            assert(!com_membros(grupo)(s.privadas[i]));
        }
    }
    if let Some(k) = primeiro(s.privadas, com_membros(grupo)) {
        assert(com_membros(grupo)(s.privadas[k]));
    } else {
        assert forall|i: int| 0 <= i < s.privadas.len() implies conjunto(
            #[trigger] s.privadas[i].usuarios,
        ) != grupo by {
            assert(!com_membros(grupo)(s.privadas[i]));
        }
    }
}

/// What a client is shown of a private conversation: the names of all its
/// members, in order, and every one of its messages, in order, each as the
/// sender's name and the text.
pub proof fn lei_dto_conversa_completo(c: ConversaPrivadaView)
    ensures
        dto_de_conversa(c).integrantes.len() == c.usuarios.len(),
        forall|k: int|
            0 <= k < c.usuarios.len() ==> #[trigger] dto_de_conversa(c).integrantes[k]
                == c.usuarios[k].nome,
        dto_de_conversa(c).mensagens.len() == c.mensagens.len(),
        forall|k: int|
            0 <= k < c.mensagens.len() ==> #[trigger] dto_de_conversa(c).mensagens[k] == (
            MensagemDTOView { usuario: c.mensagens[k].usuario.nome, conteudo: c.mensagens[k].conteudo }),
{
}

} // verus!
