//! Estado e regras de um leitor da Bíblia: navegação entre telas, capítulos,
//! seleção e marcação de versículos, preparação da busca e formatação de texto.
use vstd::prelude::*;

pub mod busca;
pub mod cores;
pub mod estado;
pub mod leis;
pub mod modelo;
pub mod texto;

verus! {

} // verus!
