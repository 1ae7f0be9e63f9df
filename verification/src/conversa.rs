use vstd::prelude::*;

use crate::mensagem::{Mensagem, MensagemView};

pub mod conversa_privada;

verus! {

/// The abstract values of a list of messages, in order.
pub open spec fn vista_mensagens(v: Seq<Mensagem>) -> Seq<MensagemView> {
    v.map_values(|m: Mensagem| m@)
}

/// A conversation: the messages posted to it, oldest first.
#[derive(Debug)]
pub struct Conversa {
    mensagens: Vec<Mensagem>,
}

impl View for Conversa {
    type V = Seq<MensagemView>;

    closed spec fn view(&self) -> Seq<MensagemView> {
        vista_mensagens(self.mensagens@)
    }
}

impl Conversa {
    /// An empty conversation.
    pub fn new() -> (c: Self)
        ensures
            c@ == Seq::<MensagemView>::empty(),
    {
        let c = Conversa { mensagens: Vec::new() };
        assert(c@ =~= Seq::<MensagemView>::empty());
        c
    }

    /// Appends a message at the end of the conversation.
    pub fn adicionar_mensagem(&mut self, mensagem: Mensagem)
        ensures
            final(self)@ == old(self)@.push(mensagem@),
    {
        self.mensagens.push(mensagem);
        assert(self@ =~= old(self)@.push(mensagem@));
    }

    /// A new conversation to which the given messages are added one by one,
    /// in order: it holds exactly them, in that order.
    pub fn com_mensagens(mensagens: Vec<Mensagem>) -> (c: Self)
        ensures
            c@ == vista_mensagens(mensagens@),
    {
        let ghost todas = vista_mensagens(mensagens@);
        let mut c = Conversa::new();
        let mut resto = mensagens;
        assert(c@ + vista_mensagens(resto@) =~= todas);
        while resto.len() > 0
            invariant
                c@ + vista_mensagens(resto@) == todas,
            decreases resto@.len(),
        {
            let ghost antes = resto@;
            let m = resto.remove(0);
            assert(vista_mensagens(antes) =~= seq![m@] + vista_mensagens(resto@));
            let ghost c_antes = c@;
            c.adicionar_mensagem(m);
            assert(c@ + vista_mensagens(resto@) =~= c_antes + vista_mensagens(antes));
        }
        assert(c@ + vista_mensagens(resto@) =~= c@);
        c
    }

    /// The messages of the conversation, oldest first.
    pub fn get_mensagens(&self) -> (r: &Vec<Mensagem>)
        ensures
            vista_mensagens(r@) == self@,
    {
        &self.mensagens
    }
}

} // verus!
