use biblia_egui::estado::{tema_salvo_escuro, BibliaApp};
use biblia_egui::modelo::{total_capitulos, Livro, ResultadoBusca, Tela, Versiculo};

#[test]
fn estado_inicial() {
    let a = BibliaApp::new();
    assert_eq!(a.tela_atual, Tela::Leitura);
    assert_eq!(a.livro_selecionado, 1);
    assert_eq!(a.nome_livro, "Gênesis");
    assert_eq!(a.capitulo, 1);
    assert!(a.historico.is_empty());
    assert!(!a.menu_aberto && !a.popup_config_aberto && !a.tema_escuro && !a.buscando);
    assert_eq!(a.selecionado, None);
}

#[test]
fn navegar_e_voltar() {
    let mut a = BibliaApp::new();
    a.navegar_para(Tela::Busca);
    assert_eq!(a.tela_atual, Tela::Busca);
    assert_eq!(a.historico, vec![Tela::Leitura]);
    a.navegar_para(Tela::Busca);
    assert_eq!(a.historico, vec![Tela::Leitura]);
    a.voltar();
    assert_eq!(a.tela_atual, Tela::Leitura);
    assert!(a.historico.is_empty());
    a.voltar();
    assert_eq!(a.tela_atual, Tela::Leitura);
}

#[test]
fn voltar_nunca_fica_na_mesma_tela() {
    let mut a = BibliaApp::new();
    let telas = [Tela::Busca, Tela::Leitura, Tela::Configuracoes, Tela::Configuracoes, Tela::Menu, Tela::Leitura];
    for t in telas {
        a.navegar_para(t);
    }
    while !a.historico.is_empty() {
        let antes = a.tela_atual;
        a.voltar();
        assert_ne!(a.tela_atual, antes);
    }
}

#[test]
fn tecla_voltar_fecha_menu_volta_e_depois_pede_para_sair() {
    let mut a = BibliaApp::new();
    a.navegar_para(Tela::Busca);
    a.alternar_menu();
    assert!(!a.tecla_voltar());
    assert!(!a.menu_aberto);
    assert_eq!(a.tela_atual, Tela::Busca);
    assert!(!a.tecla_voltar());
    assert_eq!(a.tela_atual, Tela::Leitura);
    assert!(!a.tecla_voltar());
    assert!(a.aguardando_saida);
    assert!(a.tecla_voltar());
}

#[test]
fn setas_de_capitulo() {
    let mut a = BibliaApp::new();
    assert!(!a.anterior_habilitado());
    assert!(!a.clicar_anterior());
    assert_eq!(a.capitulo, 1);
    assert!(!a.capitulo_mudou);
    assert!(a.clicar_proximo(3));
    assert!(a.clicar_proximo(3));
    assert_eq!(a.capitulo, 3);
    assert!(!a.proximo_habilitado(3));
    assert!(!a.clicar_proximo(3));
    assert_eq!(a.capitulo, 3);
    assert!(a.consumir_capitulo_mudou());
    assert!(!a.consumir_capitulo_mudou());
    assert!(a.clicar_anterior());
    assert_eq!(a.capitulo, 2);
    assert!(a.capitulo_mudou);
}

#[test]
fn livro_anterior_e_proximo() {
    let mut a = BibliaApp::new();
    assert!(!a.livro_anterior());
    a.proximo_livro();
    assert_eq!(a.capitulo, 2);
    assert!(a.livro_anterior());
    assert_eq!(a.capitulo, 1);
}

#[test]
fn escolher_livro_no_menu() {
    let mut a = BibliaApp::new();
    a.navegar_para(Tela::Busca);
    a.capitulo = 5;
    a.alternar_menu();
    let livro = Livro { id: 43, name: "João".to_string(), abbrev: "jo".to_string() };
    a.selecionar_livro(&livro);
    assert_eq!(a.livro_selecionado, 43);
    assert_eq!(a.nome_livro, "João");
    assert_eq!(a.capitulo, 1);
    assert!(a.capitulo_mudou);
    assert!(!a.menu_aberto);
    assert_eq!(a.tela_atual, Tela::Leitura);
    assert_eq!(a.historico, vec![Tela::Leitura, Tela::Busca]);
}

#[test]
fn gestos_sobre_versiculos() {
    let mut a = BibliaApp::new();
    let (s, rolar) = a.gesto_versiculo(None, 3, true, false);
    assert_eq!(s, Some(3));
    assert!(!rolar);
    a.selecionado = s;
    let (s, _) = a.gesto_versiculo(s, 3, true, false);
    assert_eq!(s, None);
    let (s, _) = a.gesto_versiculo(None, 4, false, true);
    assert_eq!(s, Some(4));
    assert!(a.mostrar_menu_cores);
    let (s, _) = a.gesto_versiculo(Some(4), 5, true, false);
    assert_eq!(s, Some(5));
    assert!(!a.mostrar_menu_cores);
    a.pular_para_versiculo = Some(7);
    let (s, rolar) = a.gesto_versiculo(None, 7, false, false);
    assert_eq!(s, Some(7));
    assert!(rolar);
    assert_eq!(a.pular_para_versiculo, None);
}

fn v(n: i32) -> Versiculo {
    Versiculo::de_linha(n, format!("v{}", n), None, None)
}

#[test]
fn aplicar_cor_pinta_so_o_primeiro_com_o_numero() {
    let mut a = BibliaApp::new();
    a.versiculos = vec![v(1), v(2), v(2), v(3)];
    a.mostrar_menu_cores = true;
    a.aplicar_cor(2, "#90EE90");
    assert_eq!(a.versiculos[0].cor_hex, None);
    assert_eq!(a.versiculos[1].cor_hex.as_deref(), Some("#90EE90"));
    assert_eq!(a.versiculos[2].cor_hex, None);
    assert_eq!(a.versiculos[3].cor_hex, None);
    assert!(!a.mostrar_menu_cores);
    a.aplicar_cor(9, "#FFB6C1");
    assert!(a.versiculos.iter().filter(|x| x.cor_hex.is_some()).count() == 1);
}

#[test]
fn versiculo_de_linha() {
    let x = Versiculo::de_linha(12, "t".to_string(), Some("#FFF83B".to_string()), Some(1));
    assert_eq!(x.numero_formatado, "¹²");
    assert!(x.favorito);
    assert!(!Versiculo::de_linha(1, String::new(), None, Some(0)).favorito);
    assert!(!Versiculo::de_linha(1, String::new(), None, Some(2)).favorito);
    assert!(!Versiculo::de_linha(1, String::new(), None, None).favorito);
}

#[test]
fn total_de_capitulos_sem_resposta_e_um() {
    assert_eq!(total_capitulos(Some(50)), 50);
    assert_eq!(total_capitulos(None), 1);
}

#[test]
fn busca_com_termo() {
    let mut a = BibliaApp::new();
    a.termo_busca = "  Jesus chorou ".to_string();
    assert_eq!(a.executar_busca(), Some("\"Jesus chorou\"".to_string()));
    assert!(a.buscando);
    assert!(!a.sem_resultados());
    a.receber_resultados(Vec::new());
    assert!(!a.buscando);
    assert!(a.sem_resultados());
}

#[test]
fn busca_sem_termo_nao_faz_nada() {
    let mut a = BibliaApp::new();
    a.termo_busca = " \t ".to_string();
    assert_eq!(a.executar_busca(), None);
    assert!(!a.buscando);
}

#[test]
fn abrir_resultado_vai_para_o_versiculo() {
    let mut a = BibliaApp::new();
    a.navegar_para(Tela::Busca);
    a.receber_resultados(vec![ResultadoBusca {
        livro_nome: "João".to_string(),
        livro_id: 43,
        capitulo: 11,
        numero: 35,
        texto: "Jesus chorou.".to_string(),
    }]);
    a.abrir_resultado(43, 11, 35);
    assert_eq!(a.livro_selecionado, 43);
    assert_eq!(a.capitulo, 11);
    assert_eq!(a.pular_para_versiculo, Some(35));
    assert_eq!(a.tela_atual, Tela::Leitura);
    assert_eq!(a.nome_livro, "Gênesis");
}

#[test]
fn tema_ida_e_volta() {
    let mut a = BibliaApp::new();
    let escuro = a.escolher_tema(true);
    assert_eq!(escuro, "escuro");
    assert!(tema_salvo_escuro(&escuro));
    let claro = a.escolher_tema(false);
    assert_eq!(claro, "claro");
    assert!(!tema_salvo_escuro(&claro));
    a.aplicar_tema_salvo("escuro");
    assert!(a.tema_escuro);
    a.aplicar_tema_salvo("Escuro");
    assert!(!a.tema_escuro);
}

#[test]
fn popup_de_opcoes() {
    let mut a = BibliaApp::new();
    a.abrir_popup_config();
    a.fechar_popup_se(false, false);
    assert!(a.popup_config_aberto);
    a.abrir_configuracoes();
    assert!(!a.popup_config_aberto);
    assert_eq!(a.tela_atual, Tela::Configuracoes);
    a.abrir_popup_config();
    a.fechar_popup_se(false, true);
    assert!(!a.popup_config_aberto);
}

#[test]
fn limpar_selecao_e_fechar_menu_de_cores() {
    let mut a = BibliaApp::new();
    a.selecionado = Some(3);
    a.mostrar_menu_cores = true;
    a.limpar_selecao();
    a.fechar_menu_cores();
    assert_eq!(a.selecionado, None);
    assert!(!a.mostrar_menu_cores);
}

#[test]
fn sair_pede_dois_toques_em_quadros_diferentes() {
    let mut a = BibliaApp::new();
    a.navegar_para(Tela::Busca);
    a.alternar_menu();
    let mut fechou = Vec::new();
    for _ in 0..4 {
        fechou.push(a.tecla_voltar());
        a.clicar_proximo(5);
    }
    assert_eq!(fechou, vec![false, false, false, true]);
}
