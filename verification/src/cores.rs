//! Cores das marcações: leitura de `#RRGGBB` e o estilo com que um versículo é mostrado.
use vstd::prelude::*;
use vstd::string::*;
use vstd::utf8::encode_utf8;
use crate::modelo::Versiculo;

verus! {

/// Um algarismo hexadecimal em ASCII (`0-9`, `A-F`, `a-f`).
pub open spec fn eh_digito_hex(b: u8) -> bool {
    (0x30 <= b <= 0x39) || (0x41 <= b <= 0x46) || (0x61 <= b <= 0x66)
}

/// O valor de um algarismo hexadecimal.
pub open spec fn valor_hex(b: u8) -> int {
    if b <= 0x39 {
        b - 0x30
    } else if b <= 0x46 {
        b - 0x41 + 10
    } else {
        b - 0x61 + 10
    }
}

/// `u8::from_str_radix` de base 16 sobre os dois bytes `a b`, ou 255 se ela falha.
/// Um `+` inicial é aceito; qualquer outro byte que não seja algarismo faz falhar.
pub open spec fn par_hex(a: u8, b: u8) -> u8 {
    if a == 0x2b {
        if eh_digito_hex(b) {
            valor_hex(b) as u8
        } else {
            255
        }
    } else if eh_digito_hex(a) && eh_digito_hex(b) {
        (16 * valor_hex(a) + valor_hex(b)) as u8
    } else {
        255
    }
}

/// Os bytes sem os `#` iniciais (`trim_start_matches('#')`).
pub open spec fn sem_cerquilhas(b: Seq<u8>) -> Seq<u8>
    decreases b.len(),
{
    if b.len() > 0 && b[0] == 0x23 {
        sem_cerquilhas(b.drop_first())
    } else {
        b
    }
}

/// Byte de continuação de UTF-8: um índice nele não é fronteira de caractere.
pub open spec fn eh_continuacao(b: u8) -> bool {
    0x80 <= b && b < 0xc0
}

/// Dá para cortar o código em pares de bytes: se ele tem 6 bytes depois dos `#`,
/// os índices 2 e 4 são fronteiras de caractere.
pub open spec fn hex_fatiavel(bytes: Seq<u8>) -> bool {
    let h = sem_cerquilhas(bytes);
    h.len() == 6 ==> !eh_continuacao(h[2]) && !eh_continuacao(h[4])
}

/// A cor `(r, g, b)` de um código `#RRGGBB`; amarelo `(255, 255, 0)` se o código não
/// tem 6 bytes depois dos `#`, e 255 em cada componente que não se lê.
pub open spec fn rgb_de_hex(bytes: Seq<u8>) -> (u8, u8, u8) {
    let h = sem_cerquilhas(bytes);
    if h.len() == 6 {
        (par_hex(h[0], h[1]), par_hex(h[2], h[3]), par_hex(h[4], h[5]))
    } else {
        (255, 255, 0)
    }
}

proof fn lema_cerquilhas(b: Seq<u8>, i: int)
    requires
        0 <= i <= b.len(),
        forall|k: int| 0 <= k < i ==> #[trigger] b[k] == 0x23,
        i == b.len() || b[i] != 0x23,
    ensures
        sem_cerquilhas(b) == b.subrange(i, b.len() as int),
    decreases i,
{
    if i == 0 {
        assert(b.subrange(0, b.len() as int) == b);
    } else {
        let t = b.drop_first();
        assert forall|k: int| 0 <= k < i - 1 implies #[trigger] t[k] == 0x23 by {
            assert(t[k] == b[k + 1]);
        }
        if i - 1 < t.len() {
            assert(t[i - 1] == b[i]);
        }
        lema_cerquilhas(t, i - 1);
        assert(t.subrange(i - 1, t.len() as int) == b.subrange(i, b.len() as int));
    }
}

fn eh_digito_hex_exec(b: u8) -> (r: bool)
    ensures
        r == eh_digito_hex(b),
{
    (0x30 <= b && b <= 0x39) || (0x41 <= b && b <= 0x46) || (0x61 <= b && b <= 0x66)
}

fn valor_hex_exec(b: u8) -> (r: u8)
    requires
        eh_digito_hex(b),
    ensures
        r == valor_hex(b),
        r < 16,
{
    if b <= 0x39 {
        b - 0x30
    } else if b <= 0x46 {
        b - 0x41 + 10
    } else {
        b - 0x61 + 10
    }
}

fn par_hex_exec(a: u8, b: u8) -> (r: u8)
    ensures
        r == par_hex(a, b),
{
    if a == 0x2b {
        if eh_digito_hex_exec(b) {
            valor_hex_exec(b)
        } else {
            255
        }
    } else if eh_digito_hex_exec(a) && eh_digito_hex_exec(b) {
        16 * valor_hex_exec(a) + valor_hex_exec(b)
    } else {
        255
    }
}

fn inicio_sem_cerquilhas(b: &[u8]) -> (i: usize)
    ensures
        i <= b@.len(),
        sem_cerquilhas(b@) == b@.subrange(i as int, b@.len() as int),
{
    let mut i: usize = 0;
    while i < b.len() && b[i] == 0x23
        invariant
            0 <= i <= b@.len(),
            forall|k: int| 0 <= k < i ==> #[trigger] b@[k] == 0x23,
        decreases b@.len() - i,
    {
        i = i + 1;
    }
    proof {
        lema_cerquilhas(b@, i as int);
    }
    i
}

/// Diz se `hex_para_rgb` pode ler este código sem cortar um caractere ao meio.
pub fn eh_hex_fatiavel(hex: &str) -> (r: bool)
    ensures
        r == hex_fatiavel(hex.spec_bytes()),
{
    let b = hex.as_bytes();
    let i = inicio_sem_cerquilhas(b);
    if b.len() - i == 6 {
        !(0x80 <= b[i + 2] && b[i + 2] < 0xc0) && !(0x80 <= b[i + 4] && b[i + 4] < 0xc0)
    } else {
        true
    }
}

/// A cor de uma marcação guardada como `#RRGGBB`.
pub fn hex_para_rgb(hex: &str) -> (rgb: (u8, u8, u8))
    requires
        hex_fatiavel(hex.spec_bytes()),
    ensures
        rgb == rgb_de_hex(hex.spec_bytes()),
{
    let b = hex.as_bytes();
    let i = inicio_sem_cerquilhas(b);
    if b.len() - i == 6 {
        let r = par_hex_exec(b[i], b[i + 1]);
        let g = par_hex_exec(b[i + 2], b[i + 3]);
        let bl = par_hex_exec(b[i + 4], b[i + 5]);
        (r, g, bl)
    } else {
        (255, 255, 0)
    }
}


/// A cor do texto de um versículo.
#[derive(PartialEq, Eq, Structural, Clone, Copy, Debug)]
pub enum CorTexto {
    Preto,
    Branco,
    Dourado,
}

/// Como um versículo aparece na leitura.
#[derive(Clone, Copy, Debug)]
pub struct EstiloVersiculo {
    /// A cor de fundo da marcação, se houver.
    pub fundo: Option<(u8, u8, u8)>,
    pub cor: CorTexto,
    pub negrito: bool,
    pub sublinhado: bool,
}

/// A marcação do versículo pode ser lida como cor.
pub open spec fn marcacao_legivel(v: Versiculo) -> bool {
    v.cor_hex matches Some(h) ==> hex_fatiavel(encode_utf8(h@))
}

/// O estilo de um versículo: com marcação de cor, fundo dessa cor e texto preto; sem ela,
/// texto branco no tema escuro e preto no claro, ou dourado e em negrito se é favorito;
/// sublinhado se está selecionado.
pub open spec fn estilo_de(v: Versiculo, selecionado: bool, tema_escuro: bool) -> EstiloVersiculo {
    EstiloVersiculo {
        fundo: match v.cor_hex {
            Some(h) => Some(rgb_de_hex(encode_utf8(h@))),
            None => None,
        },
        cor: if v.cor_hex is Some {
            CorTexto::Preto
        } else if v.favorito {
            CorTexto::Dourado
        } else if tema_escuro {
            CorTexto::Branco
        } else {
            CorTexto::Preto
        },
        negrito: v.favorito && v.cor_hex is None,
        sublinhado: selecionado,
    }
}

/// O estilo com que o versículo `v` é mostrado.
pub fn estilo_versiculo(v: &Versiculo, selecionado: bool, tema_escuro: bool) -> (e: EstiloVersiculo)
    requires
        marcacao_legivel(*v),
    ensures
        e == estilo_de(*v, selecionado, tema_escuro),
{
    let mut cor = if tema_escuro {
        CorTexto::Branco
    } else {
        CorTexto::Preto
    };
    let mut fundo = None;
    let mut negrito = false;
    match &v.cor_hex {
        Some(h) => {
            fundo = Some(hex_para_rgb(h.as_str()));
            cor = CorTexto::Preto;
        },
        None => {
            if v.favorito {
                cor = CorTexto::Dourado;
                negrito = true;
            }
        },
    }
    EstiloVersiculo { fundo, cor, negrito, sublinhado: selecionado }
}

/// As cores com que se pode marcar um versículo, na ordem do menu.
pub fn paleta() -> (p: Vec<&'static str>)
    ensures
        p@.len() == 4,
        p@[0]@ == "#FFF83B"@,
        p@[1]@ == "#90EE90"@,
        p@[2]@ == "#ADD8E6"@,
        p@[3]@ == "#FFB6C1"@,
{
    vec!["#FFF83B", "#90EE90", "#ADD8E6", "#FFB6C1"]
}

} // verus!
