use vstd::prelude::*;

use crate::conversa::Conversa;
use crate::mensagem::{dto_de, MensagemDTO, MensagemDTOView, MensagemView};
use crate::usuario::{nomes, vista_usuarios, RefUsuario, UsuarioView};

verus! {

/// The abstract value of a private conversation: its members, in the order
/// they were given, and its messages, oldest first.
pub struct ConversaPrivadaView {
    pub usuarios: Seq<UsuarioView>,
    pub mensagens: Seq<MensagemView>,
}

/// A conversation between a group of users.
pub struct ConversaPrivada {
    usuarios: Vec<RefUsuario>,
    mensagens: Conversa,
}

impl View for ConversaPrivada {
    type V = ConversaPrivadaView;

    closed spec fn view(&self) -> ConversaPrivadaView {
        ConversaPrivadaView { usuarios: vista_usuarios(self.usuarios@), mensagens: self.mensagens@ }
    }
}

impl ConversaPrivada {
    /// A conversation with no members and no messages.
    pub fn new() -> (c: Self)
        ensures
            c@.usuarios == Seq::<UsuarioView>::empty(),
            c@.mensagens == Seq::<MensagemView>::empty(),
    {
        let c = ConversaPrivada { usuarios: Vec::new(), mensagens: Conversa::new() };
        assert(c@.usuarios =~= Seq::<UsuarioView>::empty());
        c
    }

    /// A conversation between the given users, with no messages yet.
    pub fn from_vetor(usuarios: Vec<RefUsuario>) -> (c: Self)
        ensures
            c@.usuarios == vista_usuarios(usuarios@),
            c@.mensagens == Seq::<MensagemView>::empty(),
    {
        ConversaPrivada { usuarios, mensagens: Conversa::new() }
    }

    /// Adds a member at the end of the list of members.
    pub fn adicionar_usuario(&mut self, usuario: RefUsuario)
        ensures
            final(self)@.usuarios == old(self)@.usuarios.push(usuario@),
            final(self)@.mensagens == old(self)@.mensagens,
    {
        self.usuarios.push(usuario);
        assert(vista_usuarios(self.usuarios@) =~= old(self)@.usuarios.push(usuario@));
    }

    /// The members of the conversation.
    pub fn get_usuarios(&self) -> (r: &Vec<RefUsuario>)
        ensures
            vista_usuarios(r@) == self@.usuarios,
    {
        &self.usuarios
    }

    /// The messages of the conversation, to be changed in place.
    pub fn get_conversa_mutavel(&mut self) -> (r: &mut Conversa)
        ensures
            r@ == old(self)@.mensagens,
            final(self)@.usuarios == old(self)@.usuarios,
            final(self)@.mensagens == final(r)@,
    {
        &mut self.mensagens
    }

    /// The messages of the conversation.
    pub fn get_conversa(&self) -> (r: &Conversa)
        ensures
            r@ == self@.mensagens,
    {
        &self.mensagens
    }
}

/// A private conversation as it is sent back to clients: the members' names
/// and the messages.
pub struct ConversaPrivadaDTO {
    pub integrantes: Vec<String>,
    pub mensagens: Vec<MensagemDTO>,
}

pub struct ConversaPrivadaDTOView {
    pub integrantes: Seq<Seq<char>>,
    pub mensagens: Seq<MensagemDTOView>,
}

impl View for ConversaPrivadaDTO {
    type V = ConversaPrivadaDTOView;

    open spec fn view(&self) -> ConversaPrivadaDTOView {
        ConversaPrivadaDTOView {
            integrantes: self.integrantes@.map_values(|s: String| s@),
            mensagens: self.mensagens@.map_values(|m: MensagemDTO| m@),
        }
    }
}

/// What clients are shown of a private conversation.
pub open spec fn dto_de_conversa(c: ConversaPrivadaView) -> ConversaPrivadaDTOView {
    ConversaPrivadaDTOView {
        integrantes: nomes(c.usuarios),
        mensagens: c.mensagens.map_values(|m: MensagemView| dto_de(m)),
    }
}

impl<'a> From<&'a ConversaPrivada> for ConversaPrivadaDTO {
    fn from(c: &'a ConversaPrivada) -> (r: Self)
        ensures
            r@ == dto_de_conversa(c@),
    {
        let usuarios = c.get_usuarios();
        let mut integrantes: Vec<String> = Vec::new();
        let mut i: usize = 0;
        while i < usuarios.len()
            invariant
                i <= usuarios@.len(),
                vista_usuarios(usuarios@) == c@.usuarios,
                integrantes@.map_values(|s: String| s@) =~= nomes(c@.usuarios).take(i as int),
            decreases usuarios@.len() - i,
        {
            let nome = usuarios[i].get_nome().clone();
            assert(vista_usuarios(usuarios@)[i as int] == usuarios@[i as int]@);
            integrantes.push(nome);
            assert(nomes(c@.usuarios).take(i + 1) =~= nomes(c@.usuarios).take(i as int).push(
                nome@,
            ));
            i = i + 1;
        }
        let lista = c.get_conversa().get_mensagens();
        let mut mensagens: Vec<MensagemDTO> = Vec::new();
        let mut j: usize = 0;
        while j < lista.len()
            invariant
                j <= lista@.len(),
                crate::conversa::vista_mensagens(lista@) == c@.mensagens,
                mensagens@.map_values(|m: MensagemDTO| m@) =~= c@.mensagens.map_values(
                    |m: MensagemView| dto_de(m),
                ).take(j as int),
            decreases lista@.len() - j,
        {
            let dto = MensagemDTO::from(&lista[j]);
            assert(dto@ == dto_de(lista@[j as int]@));
            assert(crate::conversa::vista_mensagens(lista@)[j as int] == lista@[j as int]@);
            mensagens.push(dto);
            assert(c@.mensagens.map_values(|m: MensagemView| dto_de(m)).take(j + 1)
                =~= c@.mensagens.map_values(|m: MensagemView| dto_de(m)).take(j as int).push(
                dto@,
            ));
            j = j + 1;
        }
        assert(nomes(c@.usuarios).take(usuarios@.len() as int) =~= nomes(c@.usuarios));
        assert(c@.mensagens.map_values(|m: MensagemView| dto_de(m)).take(lista@.len() as int)
            =~= c@.mensagens.map_values(|m: MensagemView| dto_de(m)));
        ConversaPrivadaDTO { integrantes, mensagens }
    }
}

impl<'a> vstd::std_specs::convert::FromSpecImpl<&'a ConversaPrivada> for ConversaPrivadaDTO {
    /// A DTO holds vectors, and no single vector value is named here: what
    /// `from` returns is given, over the views, by the `ensures` of its impl
    /// above.
    open spec fn obeys_from_spec() -> bool {
        false
    }

    open spec fn from_spec(c: &'a ConversaPrivada) -> ConversaPrivadaDTO {
        arbitrary()
    }
}

} // verus!
