use std::collections::hash_map::DefaultHasher;
use std::hash::{Hash, Hasher};
use chat_server::conversa::conversa_privada::{ConversaPrivada, ConversaPrivadaDTO};
use chat_server::conversa::Conversa;
use chat_server::mensagem::{Mensagem, MensagemDTO};
use chat_server::usuario::{mesmo_conjunto, RefUsuario, Usuario};
use std::sync::Arc;
use std::time::{Duration, SystemTime};

fn alca(nome: &str) -> RefUsuario {
    Arc::new(Usuario::new(nome.to_string()))
}

#[test]
fn usuario_novo_online_e_igualdade_por_nome() {
    let a = Usuario::new("ana".to_string());
    assert_eq!(a.get_nome(), "ana");
    assert!(a.esta_online());
    a.set_online(false);
    assert!(!a.esta_online());
    assert_eq!(a.get_nome(), "ana");
    assert!(a == Usuario::new("ana".to_string()));
    assert!(a != Usuario::new("bia".to_string()));
}

#[test]
fn online_partilhado_por_todas_as_alcas() {
    let a = alca("ana");
    let b = Arc::clone(&a);
    let m = Mensagem::new(Arc::clone(&a), "oi".to_string());
    let c = m.get_usuario();
    b.set_online(false);
    assert!(!a.esta_online());
    assert!(!c.esta_online());
    c.set_online(true);
    assert!(a.esta_online());
    assert!(b.esta_online());
    // a separate user with the same name has a flag of its own
    let outro = alca("ana");
    outro.set_online(false);
    assert!(a.esta_online());
}

#[test]
fn mesmo_conjunto_ignora_ordem_e_repeticao() {
    let a = vec![alca("ana"), alca("bia")];
    let b = vec![
        alca("bia"),
        alca("ana"),
        alca("bia"),
    ];
    let c = vec![alca("ana")];
    assert!(mesmo_conjunto(&a, &b));
    assert!(!mesmo_conjunto(&a, &c));
    assert!(!mesmo_conjunto(&c, &a));
}

#[test]
fn mensagem_guarda_remetente_texto_e_hora() {
    let hora = SystemTime::UNIX_EPOCH + Duration::from_secs(42);
    let m = Mensagem::com_hora(alca("ana"), "oi".to_string(), hora);
    assert_eq!(m.get_usuario().get_nome(), "ana");
    assert_eq!(m.get_conteudo(), "oi");
    assert_eq!(*m.get_hora(), hora);
    let antes = SystemTime::now();
    let agora = Mensagem::new(alca("bia"), "olá".to_string());
    assert!(*agora.get_hora() >= antes);
    let dto = MensagemDTO::from(&m);
    assert_eq!(dto.usuario, "ana");
    assert_eq!(dto.conteudo, "oi");
}

#[test]
fn conversa_acumula_em_ordem() {
    let mut c = Conversa::new();
    assert!(c.get_mensagens().is_empty());
    c.adicionar_mensagem(Mensagem::new(alca("ana"), "1".to_string()));
    c.adicionar_mensagem(Mensagem::new(alca("bia"), "2".to_string()));
    let textos: Vec<&String> = c.get_mensagens().iter().map(|m| m.get_conteudo()).collect();
    assert_eq!(textos, vec!["1", "2"]);
}

#[test]
fn conversa_privada_membros_e_mensagens() {
    let mut p = ConversaPrivada::new();
    assert!(p.get_usuarios().is_empty());
    p.adicionar_usuario(alca("ana"));
    p.adicionar_usuario(alca("bia"));
    p.get_conversa_mutavel()
        .adicionar_mensagem(Mensagem::new(alca("ana"), "psiu".to_string()));
    assert_eq!(p.get_usuarios().len(), 2);
    assert_eq!(p.get_conversa().get_mensagens().len(), 1);

    let q = ConversaPrivada::from_vetor(vec![alca("caio")]);
    assert_eq!(q.get_usuarios()[0].get_nome(), "caio");
    assert!(q.get_conversa().get_mensagens().is_empty());

    let dto = ConversaPrivadaDTO::from(&p);
    assert_eq!(dto.integrantes, vec!["ana".to_string(), "bia".to_string()]);
    assert_eq!(dto.mensagens.len(), 1);
    assert_eq!(dto.mensagens[0].usuario, "ana");
    assert_eq!(dto.mensagens[0].conteudo, "psiu");
}

#[test]
fn usuario_hash_pelo_nome() {
    let hash = |u: &Usuario| {
        let mut h = DefaultHasher::new();
        u.hash(&mut h);
        h.finish()
    };
    let a = Usuario::new("ana".to_string());
    let b = Usuario::new("ana".to_string());
    b.set_online(false);
    assert_eq!(hash(&a), hash(&b));
    let mut n = DefaultHasher::new();
    "ana".to_string().hash(&mut n);
    assert_eq!(hash(&a), n.finish());
}

#[test]
fn conversa_guarda_todas_as_adicoes_em_ordem() {
    let mut c = Conversa::new();
    for i in 0..50 {
        c.adicionar_mensagem(Mensagem::new(alca("ana"), i.to_string()));
    }
    let textos: Vec<String> = c.get_mensagens().iter().map(|m| m.get_conteudo().clone()).collect();
    let esperado: Vec<String> = (0..50).map(|i: i32| i.to_string()).collect();
    assert_eq!(textos, esperado);
    assert_eq!(c.get_mensagens().len(), 50);
}

#[test]
fn online_e_o_ultimo_valor() {
    let u = alca("ana");
    let outra = Arc::clone(&u);
    assert!(u.esta_online());
    for v in [false, true, true, false, false, true, false] {
        outra.set_online(v);
        assert_eq!(u.esta_online(), v);
    }
    assert!(!u.esta_online());
    assert_eq!(u.get_nome(), "ana");
}

#[test]
fn conversa_com_mensagens_em_ordem() {
    let ms: Vec<Mensagem> = (0..20).map(|i: i32| Mensagem::new(alca("bia"), i.to_string())).collect();
    let c = Conversa::com_mensagens(ms);
    let textos: Vec<String> = c.get_mensagens().iter().map(|m| m.get_conteudo().clone()).collect();
    let esperado: Vec<String> = (0..20).map(|i: i32| i.to_string()).collect();
    assert_eq!(textos, esperado);
    assert!(Conversa::com_mensagens(Vec::new()).get_mensagens().is_empty());
}
