//! Textos da busca: normalização para comparar termos e o título de cada resultado.
use vstd::prelude::*;
use vstd::string::*;
use unicode_normalization::UnicodeNormalization;
use crate::modelo::ResultadoBusca;
use crate::texto::{caracteres, eh_espaco, eh_espaco_spec, empurrar, inteiro_para_texto, texto_decimal};

verus! {

/// A decomposição canônica Unicode (NFD) de um texto, como a calcula o crate
/// `unicode-normalization`.
pub uninterp spec fn decomposicao_nfd(s: Seq<char>) -> Seq<char>;

/// Chama `UnicodeNormalization::nfd` do crate `unicode-normalization` e junta os
/// caracteres num texto. O contrato só diz que o resultado é a decomposição NFD do texto
/// recebido (um valor que depende apenas dele); o que é essa decomposição não está escrito.
#[verifier::external_body]
fn decompor_nfd(texto: &str) -> (r: String)
    ensures
        r@ == decomposicao_nfd(texto@),
{
    texto.nfd().collect::<String>()
}

/// Letra ou algarismo ASCII (`char::is_ascii_alphanumeric`).
pub open spec fn eh_alfanumerico_ascii(c: char) -> bool {
    ('0' <= c && c <= '9') || ('A' <= c && c <= 'Z') || ('a' <= c && c <= 'z')
}

/// O caractere fica no texto normalizado.
pub open spec fn mantido(c: char) -> bool {
    eh_alfanumerico_ascii(c) || eh_espaco_spec(c)
}

/// A minúscula de `c` entre os caracteres que ficam: só `A`-`Z` mudam.
pub open spec fn minuscula(c: char) -> char {
    if 'A' <= c && c <= 'Z' {
        ((c as int) + 32) as char
    } else {
        c
    }
}

/// O texto normalizado de um texto já decomposto: só letras e algarismos ASCII e
/// espaços, tudo em minúsculas.
pub open spec fn normalizado(decomposto: Seq<char>) -> Seq<char> {
    decomposto.filter(|c: char| mantido(c)).map_values(|c: char| minuscula(c))
}

fn minuscula_exec(c: char) -> (r: char)
    ensures
        r == minuscula(c),
{
    if 'A' <= c && c <= 'Z' {
        let u: u8 = c as u8;
        (u + 32) as char
    } else {
        c
    }
}

/// Normaliza um texto já decomposto em NFD: tira acentos soltos e pontuação, deixa só
/// letras e algarismos ASCII e espaços, em minúsculas.
pub fn normalizar_decomposto(decomposto: &str) -> (r: String)
    ensures
        r@ == normalizado(decomposto@),
{
    let v = caracteres(decomposto);
    let mut r = String::new();
    let mut i: usize = 0;
    while i < v.len()
        invariant
            0 <= i <= v.len(),
            v@ == decomposto@,
            r@ == normalizado(v@.take(i as int)),
        decreases v.len() - i,
    {
        let c = v[i];
        proof {
            assert(v@.take(i + 1).drop_last() == v@.take(i as int));
            assert(v@.take(i + 1).last() == c);
            reveal_with_fuel(Seq::filter, 1);
        }
        let alfa = ('0' <= c && c <= '9') || ('A' <= c && c <= 'Z') || ('a' <= c && c <= 'z');
        if alfa || eh_espaco(c) {
            let m = minuscula_exec(c);
            empurrar(&mut r, m);
            proof {
                let f = v@.take(i as int).filter(|c: char| mantido(c));
                assert(v@.take(i + 1).filter(|c: char| mantido(c)) == f.push(c));
                assert(f.push(c).map_values(|c: char| minuscula(c)) == f.map_values(
                    |c: char| minuscula(c),
                ).push(minuscula(c)));
            }
        } else {
            proof {
                assert(v@.take(i + 1).filter(|c: char| mantido(c)) == v@.take(i as int).filter(
                    |c: char| mantido(c),
                ));
            }
        }
        i = i + 1;
    }
    proof {
        assert(v@.take(v.len() as int) == v@);
    }
    r
}

/// Normaliza um texto para comparar termos de busca: decompõe em NFD, tira o que não
/// é letra ou algarismo ASCII nem espaço, e passa a minúsculas.
pub fn normalizar(texto: &str) -> (r: String)
    ensures
        r@ == normalizado(decomposicao_nfd(texto@)),
{
    let d = decompor_nfd(texto);
    normalizar_decomposto(d.as_str())
}

/// O título de um resultado de busca: `Livro capítulo:versículo`.
pub open spec fn titulo(res: ResultadoBusca) -> Seq<char> {
    res.livro_nome@ + seq![' '] + texto_decimal(res.capitulo as int) + seq![':'] + texto_decimal(
        res.numero as int,
    )
}

/// Escreve o título de um resultado de busca, por exemplo `Gênesis 1:1`.
pub fn titulo_resultado(res: &ResultadoBusca) -> (t: String)
    ensures
        t@ == titulo(*res),
{
    let mut t = String::new();
    t.append(res.livro_nome.as_str());
    empurrar(&mut t, ' ');
    let c = inteiro_para_texto(res.capitulo);
    t.append(c.as_str());
    empurrar(&mut t, ':');
    let n = inteiro_para_texto(res.numero);
    t.append(n.as_str());
    t
}

} // verus!
