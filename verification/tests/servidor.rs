use chat_server::comando::Comando;
use chat_server::mensagem::{MensagemJson, TipoMensagem};
use chat_server::resposta_servidor::RespostaServidor;
use chat_server::servidor::{ErroServidor, ProcessarComando, Servidor, ToComando};
use chat_server::usuario::Usuario;
use std::sync::Arc;

fn pedido(usuario: &str, tipo: TipoMensagem, usuarios: Option<Vec<&str>>) -> MensagemJson {
    MensagemJson {
        usuario: usuario.to_string(),
        tipo,
        usuarios: usuarios.map(|v| v.into_iter().map(|s| s.to_string()).collect()),
    }
}

fn ola(nome: &str) -> MensagemJson {
    pedido(nome, TipoMensagem::Ola(nome.to_string()), None)
}

fn servidor_com(nomes: &[&str]) -> Servidor {
    let mut s = Servidor::new("127.0.0.1".to_string(), 8000);
    for n in nomes {
        assert!(matches!(s.responder(ola(n)), Ok(RespostaServidor::UsuarioAdicionado)));
    }
    s
}

/// (globais as (usuario, conteudo), privadas as (integrantes, [(usuario, conteudo)]))
fn mensagens_de(
    s: &mut Servidor,
    nome: &str,
) -> (Vec<(String, String)>, Vec<(Vec<String>, Vec<(String, String)>)>) {
    match s.responder(pedido(nome, TipoMensagem::GetMensagens(String::new()), None)) {
        Ok(RespostaServidor::GetMensagens { globais, privadas }) => (
            globais.into_iter().map(|m| (m.usuario, m.conteudo)).collect(),
            privadas
                .into_iter()
                .map(|c| {
                    (
                        c.integrantes,
                        c.mensagens.into_iter().map(|m| (m.usuario, m.conteudo)).collect(),
                    )
                })
                .collect(),
        ),
        _ => panic!("GetMensagens deveria responder com as mensagens"),
    }
}

fn s(x: &str) -> String {
    x.to_string()
}

#[test]
fn servidor_novo_vazio_e_desligado() {
    let mut sv = Servidor::new("10.0.0.1".to_string(), 9000);
    assert_eq!(sv.get_ip(), "10.0.0.1");
    assert_eq!(sv.get_porta(), 9000);
    assert!(!sv.esta_ligado());
    sv.ligar();
    assert!(sv.esta_ligado());
    assert!(matches!(sv.get_usuario(&s("ana")), Err(ErroServidor::UsuarioNaoExistente)));
}

#[test]
fn ola_registra_usuario_online() {
    let sv = servidor_com(&["ana"]);
    let u = sv.get_usuario(&s("ana")).ok().unwrap();
    assert_eq!(u.get_nome(), "ana");
    assert!(u.esta_online());
}

#[test]
fn nome_registrado_uma_vez() {
    let mut sv = servidor_com(&["ana", "bia"]);
    assert!(matches!(sv.responder(ola("ana")), Err(ErroServidor::UsuarioExistente)));
    // the refusal changed nothing: both users are still there, online
    assert!(sv.get_usuario(&s("ana")).ok().unwrap().esta_online());
    assert!(sv.get_usuario(&s("bia")).ok().unwrap().esta_online());
}

#[test]
fn remetente_desconhecido_recusado() {
    let mut sv = servidor_com(&["ana"]);
    let tipos = vec![
        TipoMensagem::MensagemGlobal(s("oi")),
        TipoMensagem::Tchau(String::new()),
        TipoMensagem::GetMensagens(String::new()),
        TipoMensagem::MensagemPrivada(s("oi")),
    ];
    for t in tipos {
        let r = sv.responder(pedido("zé", t, Some(vec!["ana"])));
        assert!(matches!(r, Err(ErroServidor::UsuarioNaoExistente)));
    }
    let (globais, privadas) = mensagens_de(&mut sv, "ana");
    assert!(globais.is_empty());
    assert!(privadas.is_empty());
}

#[test]
fn mensagem_global_visivel_para_todos() {
    let mut sv = servidor_com(&["ana", "bia"]);
    assert!(matches!(
        sv.responder(pedido("ana", TipoMensagem::MensagemGlobal(s("olá")), None)),
        Ok(RespostaServidor::MensagemAdicionada)
    ));
    assert!(matches!(
        sv.responder(pedido("bia", TipoMensagem::MensagemGlobal(s("oi ana")), None)),
        Ok(RespostaServidor::MensagemAdicionada)
    ));
    let (globais, privadas) = mensagens_de(&mut sv, "bia");
    assert_eq!(globais, vec![(s("ana"), s("olá")), (s("bia"), s("oi ana"))]);
    assert!(privadas.is_empty());
    let (globais_ana, _) = mensagens_de(&mut sv, "ana");
    assert_eq!(globais_ana, globais);
}

#[test]
fn tchau_desconecta_so_quem_sai() {
    let mut sv = servidor_com(&["ana", "bia"]);
    assert!(matches!(
        sv.responder(pedido("ana", TipoMensagem::Tchau(String::new()), None)),
        Ok(RespostaServidor::UsuarioOffline)
    ));
    assert!(!sv.get_usuario(&s("ana")).ok().unwrap().esta_online());
    assert!(sv.get_usuario(&s("bia")).ok().unwrap().esta_online());
}

#[test]
fn mensagem_privada_sem_lista_recusada() {
    let mut sv = servidor_com(&["ana", "bia"]);
    let r = sv.responder(pedido("ana", TipoMensagem::MensagemPrivada(s("psiu")), None));
    assert!(matches!(r, Err(ErroServidor::UsuarioNaoExistente)));
}

#[test]
fn mensagem_privada_destino_desconhecido_recusada() {
    let mut sv = servidor_com(&["ana", "bia"]);
    let r = sv.responder(pedido(
        "ana",
        TipoMensagem::MensagemPrivada(s("psiu")),
        Some(vec!["bia", "caio"]),
    ));
    assert!(matches!(r, Err(ErroServidor::UsuarioNaoExistente)));
    let (_, privadas) = mensagens_de(&mut sv, "bia");
    assert!(privadas.is_empty());
}

#[test]
fn mensagem_privada_entregue_ao_grupo() {
    let mut sv = servidor_com(&["ana", "bia", "caio"]);
    assert!(matches!(
        sv.responder(pedido("ana", TipoMensagem::MensagemPrivada(s("psiu")), Some(vec!["bia"]))),
        Ok(RespostaServidor::MensagemAdicionada)
    ));
    // the same group, named the other way round, reaches the same conversation
    assert!(matches!(
        sv.responder(pedido("bia", TipoMensagem::MensagemPrivada(s("oi")), Some(vec!["ana"]))),
        Ok(RespostaServidor::MensagemAdicionada)
    ));
    let (_, privadas_bia) = mensagens_de(&mut sv, "bia");
    assert_eq!(
        privadas_bia,
        vec![(vec![s("bia"), s("ana")], vec![(s("ana"), s("psiu")), (s("bia"), s("oi"))])]
    );
    let (_, privadas_ana) = mensagens_de(&mut sv, "ana");
    assert_eq!(privadas_ana, privadas_bia);
    // someone outside the group sees nothing of it
    let (_, privadas_caio) = mensagens_de(&mut sv, "caio");
    assert!(privadas_caio.is_empty());
}

#[test]
fn grupos_diferentes_conversas_diferentes() {
    let mut sv = servidor_com(&["ana", "bia", "caio"]);
    sv.responder(pedido("ana", TipoMensagem::MensagemPrivada(s("1")), Some(vec!["bia"])))
        .ok()
        .unwrap();
    sv.responder(pedido("ana", TipoMensagem::MensagemPrivada(s("2")), Some(vec!["bia", "caio"])))
        .ok()
        .unwrap();
    let (_, privadas_ana) = mensagens_de(&mut sv, "ana");
    assert_eq!(
        privadas_ana,
        vec![
            (vec![s("bia"), s("ana")], vec![(s("ana"), s("1"))]),
            (vec![s("bia"), s("caio"), s("ana")], vec![(s("ana"), s("2"))]),
        ]
    );
    let (_, privadas_caio) = mensagens_de(&mut sv, "caio");
    assert_eq!(privadas_caio, vec![(vec![s("bia"), s("caio"), s("ana")], vec![(s("ana"), s("2"))])]);
}

#[test]
fn sender_listed_twice_is_one_group() {
    let mut sv = servidor_com(&["ana", "bia"]);
    sv.responder(pedido("ana", TipoMensagem::MensagemPrivada(s("1")), Some(vec!["bia", "ana"])))
        .ok()
        .unwrap();
    sv.responder(pedido("bia", TipoMensagem::MensagemPrivada(s("2")), Some(vec!["ana"])))
        .ok()
        .unwrap();
    let (_, privadas) = mensagens_de(&mut sv, "bia");
    assert_eq!(
        privadas,
        vec![(vec![s("bia"), s("ana"), s("ana")], vec![(s("ana"), s("1")), (s("bia"), s("2"))])]
    );
}

#[test]
fn to_comando_e_processar_comando() {
    let mut sv = servidor_com(&["ana"]);
    match sv.to_comando(pedido("ana", TipoMensagem::MensagemGlobal(s("x")), None)) {
        Ok(Comando::MensagemGlobal { usuario, conteudo }) => {
            assert_eq!(usuario.get_nome(), "ana");
            assert_eq!(conteudo, "x");
        }
        _ => panic!("comando errado"),
    }
    match sv.to_comando(ola("bia")) {
        Ok(Comando::AdicionarUsuario { nome }) => assert_eq!(nome, "bia"),
        _ => panic!("comando errado"),
    }
    assert!(matches!(sv.to_comando(ola("ana")), Err(ErroServidor::UsuarioExistente)));
    assert!(matches!(
        sv.processar_comando(Comando::AdicionarUsuario { nome: s("ana") }),
        Err(ErroServidor::UsuarioExistente)
    ));
    assert!(matches!(
        sv.processar_comando(Comando::AdicionarUsuario { nome: s("bia") }),
        Ok(RespostaServidor::UsuarioAdicionado)
    ));
    match sv.to_comando(pedido("bia", TipoMensagem::MensagemPrivada(s("y")), Some(vec!["ana"]))) {
        Ok(Comando::MensagemPrivada { integrantes, remetente, mensagem }) => {
            let nomes: Vec<String> = integrantes.iter().map(|u| u.get_nome().clone()).collect();
            assert_eq!(nomes, vec![s("ana"), s("bia")]);
            assert_eq!(remetente.get_nome(), "bia");
            assert_eq!(mensagem, "y");
        }
        _ => panic!("comando errado"),
    }
    assert!(matches!(
        sv.processar_comando(Comando::Tchau { usuario: Arc::new(Usuario::new(s("bia"))) }),
        Ok(RespostaServidor::UsuarioOffline)
    ));
    // a user made apart from the server is not the registered bia
    assert!(sv.get_usuario(&s("bia")).ok().unwrap().esta_online());
    let bia = sv.get_usuario(&s("bia")).ok().unwrap();
    assert!(matches!(
        sv.processar_comando(Comando::Tchau { usuario: bia }),
        Ok(RespostaServidor::UsuarioOffline)
    ));
    assert!(!sv.get_usuario(&s("bia")).ok().unwrap().esta_online());
    assert!(sv.get_usuario(&s("ana")).ok().unwrap().esta_online());
}

#[test]
fn get_usuario_mut_altera_no_lugar() {
    let mut sv = servidor_com(&["ana", "bia"]);
    match sv.get_usuario_mut(&s("bia")) {
        Ok(u) => u.set_online(false),
        Err(_) => panic!("bia existe"),
    }
    assert!(!sv.get_usuario(&s("bia")).ok().unwrap().esta_online());
    assert!(sv.get_usuario(&s("ana")).ok().unwrap().esta_online());
    assert!(matches!(sv.get_usuario_mut(&s("caio")), Err(ErroServidor::UsuarioNaoExistente)));
    // replacing the handle: an older handle no longer reaches the server's user
    let antiga = sv.get_usuario(&s("bia")).ok().unwrap();
    match sv.get_usuario_mut(&s("bia")) {
        Ok(u) => *u = Arc::new(Usuario::new(s("bia"))),
        Err(_) => panic!("bia existe"),
    }
    assert!(sv.get_usuario(&s("bia")).ok().unwrap().esta_online());
    assert!(!antiga.esta_online());
    sv.processar_comando(Comando::Tchau { usuario: antiga }).ok().unwrap();
    assert!(sv.get_usuario(&s("bia")).ok().unwrap().esta_online());
}

#[test]
fn descricao_dos_erros() {
    assert_eq!(ErroServidor::UsuarioExistente.descricao(), "usuario já existe");
    assert_eq!(ErroServidor::UsuarioNaoExistente.descricao(), "usuario não existe");
    assert_eq!(ErroServidor::JsonInvalido.descricao(), "Json invalido");
    assert_eq!(ErroServidor::FalhaAoEscrever.descricao(), "Falha ao escrever");
    assert_eq!(ErroServidor::FalhaAoLer.descricao(), "Falha ao ler");
}
