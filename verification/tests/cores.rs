use biblia_egui::cores::{eh_hex_fatiavel, estilo_versiculo, hex_para_rgb, paleta, CorTexto};
use biblia_egui::modelo::Versiculo;

#[test]
fn paleta_tem_as_cores_do_menu() {
    let p = paleta();
    assert_eq!(p, vec!["#FFF83B", "#90EE90", "#ADD8E6", "#FFB6C1"]);
    assert_eq!(hex_para_rgb(p[0]), (255, 248, 59));
    assert_eq!(hex_para_rgb(p[1]), (144, 238, 144));
    assert_eq!(hex_para_rgb(p[2]), (173, 216, 230));
    assert_eq!(hex_para_rgb(p[3]), (255, 182, 193));
}

#[test]
fn hex_aceita_minusculas_e_varias_cerquilhas() {
    assert_eq!(hex_para_rgb("##90ee90"), (144, 238, 144));
    assert_eq!(hex_para_rgb("000000"), (0, 0, 0));
}

#[test]
fn hex_de_tamanho_errado_da_amarelo() {
    assert_eq!(hex_para_rgb("#12345"), (255, 255, 0));
    assert_eq!(hex_para_rgb("#1234567"), (255, 255, 0));
    assert_eq!(hex_para_rgb(""), (255, 255, 0));
}

#[test]
fn hex_com_componente_ilegivel_da_255() {
    assert_eq!(hex_para_rgb("#GG0000"), (255, 0, 0));
    assert_eq!(hex_para_rgb("#00-100"), (0, 255, 0));
    assert_eq!(hex_para_rgb("é1234"), (255, 0x12, 0x34));
}

#[test]
fn hex_aceita_mais_como_from_str_radix() {
    assert_eq!(hex_para_rgb("#+f+f+f"), (15, 15, 15));
    assert_eq!(u8::from_str_radix("+f", 16), Ok(15));
}

#[test]
fn hex_que_corta_um_caractere_nao_e_fatiavel() {
    assert!(!eh_hex_fatiavel("aé123"));
    assert!(!eh_hex_fatiavel("abcé5"));
    assert!(eh_hex_fatiavel("é1234"));
    assert!(eh_hex_fatiavel("#FFF83B"));
    assert!(eh_hex_fatiavel("qualquer coisa"));
}

fn versiculo(cor: Option<&str>, favorito: bool) -> Versiculo {
    Versiculo::de_linha(1, "texto".to_string(), cor.map(|c| c.to_string()), Some(if favorito { 1 } else { 0 }))
}

#[test]
fn estilo_com_cor_tem_fundo_e_texto_preto() {
    let e = estilo_versiculo(&versiculo(Some("#ADD8E6"), true), false, true);
    assert_eq!(e.fundo, Some((173, 216, 230)));
    assert_eq!(e.cor, CorTexto::Preto);
    assert!(!e.negrito);
    assert!(!e.sublinhado);
}

#[test]
fn estilo_sem_cor_segue_o_tema() {
    let e = estilo_versiculo(&versiculo(None, false), true, true);
    assert_eq!(e.fundo, None);
    assert_eq!(e.cor, CorTexto::Branco);
    assert!(e.sublinhado);
    let c = estilo_versiculo(&versiculo(None, false), false, false);
    assert_eq!(c.cor, CorTexto::Preto);
}

#[test]
fn estilo_de_favorito_sem_cor_e_dourado_e_negrito() {
    let e = estilo_versiculo(&versiculo(None, true), false, false);
    assert_eq!(e.cor, CorTexto::Dourado);
    assert!(e.negrito);
}
