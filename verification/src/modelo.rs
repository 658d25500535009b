//! Os dados do leitor: livros, versículos, resultados de busca e telas.
use vstd::prelude::*;
use crate::texto::{elevado, formatar_elevado};

verus! {

/// As telas do leitor.
#[derive(PartialEq, Eq, Structural, Clone, Copy, Debug)]
pub enum Tela {
    Leitura,
    Busca,
    Menu,
    Configuracoes,
}

/// Um livro da Bíblia.
#[derive(Clone, Debug)]
pub struct Livro {
    pub id: i32,
    pub name: String,
    pub abbrev: String,
}

/// Um versículo do capítulo aberto, com a sua marcação.
#[derive(Debug)]
pub struct Versiculo {
    pub numero: i32,
    pub numero_formatado: String,
    pub texto: String,
    pub cor_hex: Option<String>,
    pub favorito: bool,
}

/// Um versículo encontrado pela busca.
#[derive(Debug)]
pub struct ResultadoBusca {
    pub livro_nome: String,
    pub livro_id: i32,
    pub capitulo: i32,
    pub numero: i32,
    pub texto: String,
}

/// Um versículo é favorito quando a coluna `favorito` da marcação vale 1; sem marcação, não é.
pub open spec fn favorito_de(favorito: Option<i32>) -> bool {
    match favorito {
        Some(f) => f == 1,
        None => false,
    }
}

impl Versiculo {
    /// Monta o versículo a partir de uma linha lida do banco: número, texto, cor da
    /// marcação (se houver) e a coluna `favorito` da marcação (se houver).
    pub fn de_linha(numero: i32, texto: String, cor_hex: Option<String>, favorito: Option<i32>) -> (v:
        Versiculo)
        ensures
            v.numero == numero,
            v.numero_formatado@ == elevado(numero as int),
            v.texto == texto,
            v.cor_hex == cor_hex,
            v.favorito == favorito_de(favorito),
    {
        let fav = match favorito {
            Some(f) => f == 1,
            None => false,
        };
        Versiculo { numero, numero_formatado: formatar_elevado(numero), texto, cor_hex, favorito: fav }
    }
}

/// O número de capítulos de um livro: o que o banco respondeu ou, sem resposta, 1.
pub fn total_capitulos(consulta: Option<i32>) -> (n: i32)
    ensures
        n == match consulta {
            Some(t) => t,
            None => 1,
        },
{
    match consulta {
        Some(t) => t,
        None => 1,
    }
}

} // verus!
