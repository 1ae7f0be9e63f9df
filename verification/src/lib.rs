//! Core of a small chat server: registered users, the global conversation,
//! private conversations between groups of users, and the rules that turn a
//! client's request into a command and a command into a reply.
//!
//! Network I/O and the JSON wire format live outside this library; here every
//! operation is a verified function from the server's state and a request to
//! the next state and a reply.

pub mod busca;
pub mod usuario;
pub mod mensagem;
pub mod conversa;
pub mod comando;
pub mod resposta_servidor;
pub mod servidor;
pub mod processador;
pub mod leis;
