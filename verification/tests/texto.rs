use biblia_egui::busca::{normalizar, normalizar_decomposto, titulo_resultado};
use biblia_egui::modelo::ResultadoBusca;
use biblia_egui::texto::{aparar, eh_espaco, formatar_elevado, inteiro_para_texto};

#[test]
fn elevado_de_numeros_positivos() {
    assert_eq!(formatar_elevado(0), "⁰");
    assert_eq!(formatar_elevado(1), "¹");
    assert_eq!(formatar_elevado(123), "¹²³");
    assert_eq!(formatar_elevado(4567890), "⁴⁵⁶⁷⁸⁹⁰");
}

#[test]
fn elevado_de_numeros_negativos_mantem_o_sinal() {
    assert_eq!(formatar_elevado(-45), "-⁴⁵");
    assert_eq!(formatar_elevado(i32::MIN), "-²¹⁴⁷⁴⁸³⁶⁴⁸");
}

#[test]
fn elevado_de_numeros_distintos_sao_distintos() {
    let mut vistos = std::collections::HashSet::new();
    for n in -200..200 {
        assert!(vistos.insert(formatar_elevado(n)));
    }
}

#[test]
fn texto_decimal_igual_ao_de_to_string() {
    for n in [0, 7, 10, 99, 100, -1, -10, 2024, i32::MAX, i32::MIN] {
        assert_eq!(inteiro_para_texto(n), n.to_string());
    }
}

#[test]
fn aparar_tira_espacos_das_pontas() {
    assert_eq!(aparar("  Jesus chorou \t\n"), "Jesus chorou");
    assert_eq!(aparar("\u{3000}luz\u{a0}"), "luz");
    assert_eq!(aparar("   "), "");
    assert_eq!(aparar(""), "");
    assert_eq!(aparar("a  b"), "a  b");
}

#[test]
fn aparar_igual_a_trim() {
    for s in ["  x ", "\u{2003}x\u{2009}", "\u{85}a\u{1680}", "\u{200b}a", "x\u{202f}\u{205f}"] {
        assert_eq!(aparar(s), s.trim());
    }
}

#[test]
fn espacos_como_is_whitespace() {
    for c in ['\t', '\n', '\u{b}', '\u{c}', '\r', ' ', '\u{85}', '\u{a0}', '\u{1680}', '\u{2000}', '\u{200a}', '\u{2028}', '\u{2029}', '\u{202f}', '\u{205f}', '\u{3000}', 'a', '\u{200b}', '\u{feff}', '_'] {
        assert_eq!(eh_espaco(c), c.is_whitespace(), "{:?}", c);
    }
}

#[test]
fn normalizar_tira_acentos_e_pontuacao() {
    assert_eq!(normalizar("Gênesis"), "genesis");
    assert_eq!(normalizar("ÁGUA viva!"), "agua viva");
    assert_eq!(normalizar("Jesus chorou."), "jesus chorou");
    assert_eq!(normalizar("Ç ñ 123"), "c n 123");
}

#[test]
fn normalizar_decomposto_filtra_e_passa_a_minusculas() {
    assert_eq!(normalizar_decomposto("Ab-C\u{301}d 9"), "abcd 9");
    assert_eq!(normalizar_decomposto("\u{3000}X"), "\u{3000}x");
}

#[test]
fn titulo_de_um_resultado() {
    let r = ResultadoBusca {
        livro_nome: "Gênesis".to_string(),
        livro_id: 1,
        capitulo: 1,
        numero: 1,
        texto: "No princípio".to_string(),
    };
    assert_eq!(titulo_resultado(&r), "Gênesis 1:1");
    let r2 = ResultadoBusca {
        livro_nome: "João".to_string(),
        livro_id: 43,
        capitulo: 11,
        numero: 35,
        texto: "Jesus chorou.".to_string(),
    };
    assert_eq!(titulo_resultado(&r2), "João 11:35");
}
