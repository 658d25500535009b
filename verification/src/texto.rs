//! Caracteres e textos: espaços, aparar, números decimais e sobrescritos.
use vstd::prelude::*;

verus! {

broadcast use vstd::string::group_string_axioms;

/// Espaço em branco no sentido de `char::is_whitespace` (propriedade Unicode White_Space).
pub open spec fn eh_espaco_spec(c: char) -> bool {
    ||| ('\u{9}' <= c && c <= '\u{d}')
    ||| c == ' '
    ||| c == '\u{85}'
    ||| c == '\u{a0}'
    ||| c == '\u{1680}'
    ||| ('\u{2000}' <= c && c <= '\u{200a}')
    ||| c == '\u{2028}'
    ||| c == '\u{2029}'
    ||| c == '\u{202f}'
    ||| c == '\u{205f}'
    ||| c == '\u{3000}'
}

/// Diz se `c` é um espaço em branco.
pub fn eh_espaco(c: char) -> (b: bool)
    ensures
        b == eh_espaco_spec(c),
{
    ('\u{9}' <= c && c <= '\u{d}') || c == ' ' || c == '\u{85}' || c == '\u{a0}' || c == '\u{1680}'
        || ('\u{2000}' <= c && c <= '\u{200a}') || c == '\u{2028}' || c == '\u{2029}' || c
        == '\u{202f}' || c == '\u{205f}' || c == '\u{3000}'
}

/// Acrescenta um caractere ao fim de um texto chamando `String::push` da biblioteca padrão.
/// O contrato diz o que a documentação dela promete: o texto passa a ser o anterior seguido
/// de `c`.
#[verifier::external_body]
pub(crate) fn empurrar(s: &mut String, c: char)
    ensures
        final(s)@ == old(s)@.push(c),
{
    s.push(c);
}

/// Os caracteres de um texto, em ordem.
pub fn caracteres(s: &str) -> (v: Vec<char>)
    ensures
        v@ == s@,
{
    let mut v: Vec<char> = Vec::new();
    for c in it: s.chars()
        invariant
            it.seq() == s@,
            v@ == s@.take(it.index() as int),
    {
        proof {
            assert(s@.take(it.index() + 1) == s@.take(it.index() as int).push(c));
        }
        v.push(c);
    }
    proof {
        assert(s@.take(s@.len() as int) == s@);
    }
    v
}

/// O texto formado pelos caracteres `v[de..ate]`.
pub fn texto_de(v: &Vec<char>, de: usize, ate: usize) -> (r: String)
    requires
        de <= ate <= v.len(),
    ensures
        r@ == v@.subrange(de as int, ate as int),
{
    let mut r = String::new();
    let mut i = de;
    while i < ate
        invariant
            de <= i <= ate <= v.len(),
            r@ == v@.subrange(de as int, i as int),
        decreases ate - i,
    {
        proof {
            assert(v@.subrange(de as int, i + 1) == v@.subrange(de as int, i as int).push(v@[i as int]));
        }
        empurrar(&mut r, v[i]);
        i = i + 1;
    }
    r
}


/// O texto sem os espaços do início.
pub open spec fn sem_espacos_iniciais(s: Seq<char>) -> Seq<char>
    decreases s.len(),
{
    if s.len() > 0 && eh_espaco_spec(s[0]) {
        sem_espacos_iniciais(s.drop_first())
    } else {
        s
    }
}

/// O texto sem os espaços do fim.
pub open spec fn sem_espacos_finais(s: Seq<char>) -> Seq<char>
    decreases s.len(),
{
    if s.len() > 0 && eh_espaco_spec(s.last()) {
        sem_espacos_finais(s.drop_last())
    } else {
        s
    }
}

/// O texto sem espaços nas pontas (`str::trim`).
pub open spec fn aparado(s: Seq<char>) -> Seq<char> {
    sem_espacos_finais(sem_espacos_iniciais(s))
}

proof fn lema_iniciais(s: Seq<char>, i: int)
    requires
        0 <= i <= s.len(),
        forall|k: int| 0 <= k < i ==> eh_espaco_spec(#[trigger] s[k]),
        i == s.len() || !eh_espaco_spec(s[i]),
    ensures
        sem_espacos_iniciais(s) == s.subrange(i, s.len() as int),
    decreases i,
{
    if i == 0 {
        assert(s.subrange(0, s.len() as int) == s);
    } else {
        let t = s.drop_first();
        assert forall|k: int| 0 <= k < i - 1 implies eh_espaco_spec(#[trigger] t[k]) by {
            assert(t[k] == s[k + 1]);
        }
        if i - 1 < t.len() {
            assert(t[i - 1] == s[i]);
        }
        lema_iniciais(t, i - 1);
        assert(t.subrange(i - 1, t.len() as int) == s.subrange(i, s.len() as int));
    }
}

proof fn lema_finais(s: Seq<char>, j: int)
    requires
        0 <= j <= s.len(),
        forall|k: int| j <= k < s.len() ==> eh_espaco_spec(#[trigger] s[k]),
        j == 0 || !eh_espaco_spec(s[j - 1]),
    ensures
        sem_espacos_finais(s) == s.subrange(0, j),
    decreases s.len() - j,
{
    if j == s.len() {
        assert(s.subrange(0, j) == s);
    } else {
        let t = s.drop_last();
        assert forall|k: int| j <= k < t.len() implies eh_espaco_spec(#[trigger] t[k]) by {
            assert(t[k] == s[k]);
        }
        if j > 0 {
            assert(t[j - 1] == s[j - 1]);
        }
        lema_finais(t, j);
        assert(t.subrange(0, j) == s.subrange(0, j));
    }
}

/// O texto sem os espaços em branco do início e do fim.
pub fn aparar(s: &str) -> (r: String)
    ensures
        r@ == aparado(s@),
{
    let v = caracteres(s);
    let n = v.len();
    let mut i: usize = 0;
    while i < n && eh_espaco(v[i])
        invariant
            0 <= i <= n == v@.len(),
            forall|k: int| 0 <= k < i ==> eh_espaco_spec(#[trigger] v@[k]),
        decreases n - i,
    {
        i = i + 1;
    }
    let mut j: usize = n;
    while j > i && eh_espaco(v[j - 1])
        invariant
            i <= j <= n == v@.len(),
            forall|k: int| j <= k < n ==> eh_espaco_spec(#[trigger] v@[k]),
        decreases j,
    {
        j = j - 1;
    }
    proof {
        lema_iniciais(v@, i as int);
        let t = v@.subrange(i as int, n as int);
        assert forall|k: int| j - i <= k < t.len() implies eh_espaco_spec(#[trigger] t[k]) by {
            assert(t[k] == v@[k + i]);
        }
        if j > i {
            assert(t[j - i - 1] == v@[j - 1]);
        }
        lema_finais(t, j - i);
        assert(t.subrange(0, j - i) == v@.subrange(i as int, j as int));
    }
    texto_de(&v, i, j)
}


/// O algarismo decimal de `d`, para `0 <= d < 10`.
pub open spec fn algarismo(d: int) -> char {
    if d == 0 {
        '0'
    } else if d == 1 {
        '1'
    } else if d == 2 {
        '2'
    } else if d == 3 {
        '3'
    } else if d == 4 {
        '4'
    } else if d == 5 {
        '5'
    } else if d == 6 {
        '6'
    } else if d == 7 {
        '7'
    } else if d == 8 {
        '8'
    } else {
        '9'
    }
}

/// Os algarismos decimais de `n`, sem zeros à esquerda.
pub open spec fn algarismos(n: nat) -> Seq<char>
    decreases n,
{
    if n < 10 {
        seq![algarismo(n as int)]
    } else {
        algarismos(n / 10).push(algarismo((n % 10) as int))
    }
}

/// A escrita decimal de um inteiro, como a de `to_string`: sinal `-` nos negativos.
pub open spec fn texto_decimal(v: int) -> Seq<char> {
    if v < 0 {
        seq!['-'] + algarismos((-v) as nat)
    } else {
        algarismos(v as nat)
    }
}

fn algarismo_exec(d: u32) -> (c: char)
    requires
        d < 10,
    ensures
        c == algarismo(d as int),
{
    if d == 0 {
        '0'
    } else if d == 1 {
        '1'
    } else if d == 2 {
        '2'
    } else if d == 3 {
        '3'
    } else if d == 4 {
        '4'
    } else if d == 5 {
        '5'
    } else if d == 6 {
        '6'
    } else if d == 7 {
        '7'
    } else if d == 8 {
        '8'
    } else {
        '9'
    }
}

fn empurrar_algarismos(s: &mut String, n: u32)
    ensures
        final(s)@ == old(s)@ + algarismos(n as nat),
    decreases n,
{
    if n >= 10 {
        empurrar_algarismos(s, n / 10);
        let c = algarismo_exec(n % 10);
        empurrar(s, c);
        proof {
            assert(algarismos(n as nat) == algarismos((n / 10) as nat).push(algarismo((n % 10) as int)));
        }
    } else {
        let c = algarismo_exec(n);
        empurrar(s, c);
    }
}

/// A escrita decimal de `v` (`i32::to_string`).
pub fn inteiro_para_texto(v: i32) -> (r: String)
    ensures
        r@ == texto_decimal(v as int),
{
    let mut r = String::new();
    if v < 0 {
        empurrar(&mut r, '-');
        let m: i64 = -(v as i64);
        empurrar_algarismos(&mut r, m as u32);
    } else {
        empurrar_algarismos(&mut r, v as u32);
    }
    r
}

/// O sobrescrito de um algarismo; os demais caracteres ficam como estão.
pub open spec fn sobrescrito(c: char) -> char {
    if c == '0' {
        '⁰'
    } else if c == '1' {
        '¹'
    } else if c == '2' {
        '²'
    } else if c == '3' {
        '³'
    } else if c == '4' {
        '⁴'
    } else if c == '5' {
        '⁵'
    } else if c == '6' {
        '⁶'
    } else if c == '7' {
        '⁷'
    } else if c == '8' {
        '⁸'
    } else if c == '9' {
        '⁹'
    } else {
        c
    }
}

fn sobrescrito_exec(c: char) -> (r: char)
    ensures
        r == sobrescrito(c),
{
    match c {
        '0' => '⁰',
        '1' => '¹',
        '2' => '²',
        '3' => '³',
        '4' => '⁴',
        '5' => '⁵',
        '6' => '⁶',
        '7' => '⁷',
        '8' => '⁸',
        '9' => '⁹',
        _ => c,
    }
}

/// O número escrito em algarismos sobrescritos.
pub open spec fn elevado(v: int) -> Seq<char> {
    texto_decimal(v).map_values(|c: char| sobrescrito(c))
}

/// Escreve `valor` em algarismos sobrescritos (o sinal `-` dos negativos fica como está).
pub fn formatar_elevado(valor: i32) -> (r: String)
    ensures
        r@ == elevado(valor as int),
{
    let decimal = inteiro_para_texto(valor);
    let v = caracteres(decimal.as_str());
    let mut r = String::new();
    let mut i: usize = 0;
    while i < v.len()
        invariant
            0 <= i <= v.len(),
            v@ == texto_decimal(valor as int),
            r@ == v@.take(i as int).map_values(|c: char| sobrescrito(c)),
        decreases v.len() - i,
    {
        let c = sobrescrito_exec(v[i]);
        empurrar(&mut r, c);
        proof {
            assert(v@.take(i + 1) == v@.take(i as int).push(v@[i as int]));
            assert(v@.take(i + 1).map_values(|c: char| sobrescrito(c)) == v@.take(i as int).map_values(
                |c: char| sobrescrito(c),
            ).push(sobrescrito(v@[i as int])));
        }
        i = i + 1;
    }
    proof {
        assert(v@.take(v.len() as int) == v@);
    }
    r
}

} // verus!
