//! Propriedades que valem para todas as entradas e relacionam várias operações.
use vstd::prelude::*;
use crate::estado::{clique_anterior, clique_proximo, navegar, selecao_apos_gesto, tecla_voltar, termo_para_busca, valor_do_tema, voltar, Visao};
use crate::busca::{normalizado, titulo};
use crate::cores::{estilo_de, hex_fatiavel, rgb_de_hex, sem_cerquilhas, CorTexto};
use crate::modelo::{favorito_de, ResultadoBusca, Tela, Versiculo};
use vstd::utf8::{encode_utf8, is_ascii_chars, is_ascii_chars_encode_utf8};
use crate::texto::{
    algarismo, algarismos, aparado, eh_espaco_spec, elevado, sem_espacos_finais, sem_espacos_iniciais,
    sobrescrito, texto_decimal,
};

verus! {

/// Voltar desfaz uma navegação que mudou de tela: estado e histórico voltam a ser os de antes.
pub proof fn lei_voltar_desfaz_navegar(s: Visao, nova: Tela)
    requires
        s.tela_atual != nova,
    ensures
        voltar(navegar(s, nova)) == s,
{
    assert(s.historico.push(s.tela_atual).drop_last() == s.historico);
}

/// Navegar duas vezes para a mesma tela é o mesmo que navegar uma vez; navegar para a
/// tela em que se está não muda nada.
pub proof fn lei_navegar_idempotente(s: Visao, nova: Tela)
    ensures
        navegar(navegar(s, nova), nova) == navegar(s, nova),
        navegar(s, s.tela_atual) == s,
{
}

/// Num estado bem formado, voltar com histórico leva sempre a uma tela diferente da atual.
pub proof fn lei_voltar_muda_de_tela(s: Visao)
    requires
        s.bem_formado(),
        s.historico.len() > 0,
    ensures
        voltar(s).tela_atual != s.tela_atual,
{
    let c = s.caminho();
    assert(c[c.len() - 2] != c[c.len() - 1]);
}

/// Navegar mantém o estado bem formado.
pub proof fn lei_navegar_mantem_invariante(s: Visao, nova: Tela)
    requires
        s.bem_formado(),
    ensures
        navegar(s, nova).bem_formado(),
{
    if s.tela_atual != nova {
        let c = navegar(s, nova).caminho();
        assert(c == s.caminho().push(nova));
        assert forall|i: int| 0 <= i < c.len() - 1 implies #[trigger] c[i] != c[i + 1] by {
            if i < c.len() - 2 {
                assert(c[i] == s.caminho()[i]);
                assert(c[i + 1] == s.caminho()[i + 1]);
                assert(s.caminho()[i] != s.caminho()[i + 1]);
            }
        }
    }
}

/// Voltar, e a tecla de voltar, mantêm o estado bem formado.
pub proof fn lei_voltar_mantem_invariante(s: Visao)
    requires
        s.bem_formado(),
    ensures
        voltar(s).bem_formado(),
        tecla_voltar(s).0.bem_formado(),
{
    if s.historico.len() > 0 {
        let c = voltar(s).caminho();
        assert(c == s.caminho().drop_last());
        assert forall|i: int| 0 <= i < c.len() - 1 implies #[trigger] c[i] != c[i + 1] by {
            assert(c[i] == s.caminho()[i]);
            assert(c[i + 1] == s.caminho()[i + 1]);
            assert(s.caminho()[i] != s.caminho()[i + 1]);
        }
    }
}

/// Com o menu fechado e sem tela para voltar, a tecla de voltar fecha a janela no segundo
/// toque (ou já no primeiro, se o aviso já tinha sido dado), e o primeiro toque só avisa.
pub proof fn lei_sair_com_dois_toques(s: Visao)
    requires
        !s.menu_aberto,
        s.historico.len() == 0,
    ensures
        tecla_voltar(s).1 == s.aguardando_saida,
        tecla_voltar(tecla_voltar(s).0).1,
        tecla_voltar(s).0.tela_atual == s.tela_atual,
{
}

/// Com o menu lateral aberto, a tecla de voltar só o fecha: não muda de tela nem fecha a janela.
pub proof fn lei_tecla_fecha_menu_primeiro(s: Visao)
    requires
        s.menu_aberto,
    ensures
        !tecla_voltar(s).1,
        !tecla_voltar(s).0.menu_aberto,
        tecla_voltar(s).0.tela_atual == s.tela_atual,
        tecla_voltar(s).0.historico == s.historico,
{
}

/// As setas de capítulo mantêm o capítulo entre 1 e o total do livro.
pub proof fn lei_capitulo_nos_limites(s: Visao, total: i32)
    requires
        1 <= s.capitulo <= total,
    ensures
        1 <= clique_anterior(s).0.capitulo <= total,
        1 <= clique_proximo(s, total).0.capitulo <= total,
{
}

/// Voltar um capítulo desfaz o avanço de um capítulo (a menos do pedido de rolar ao topo).
pub proof fn lei_anterior_desfaz_proximo(s: Visao, total: i32)
    requires
        1 <= s.capitulo < total,
    ensures
        clique_anterior(clique_proximo(s, total).0).0 == (Visao { capitulo_mudou: true, ..s }),
{
}

/// Clicar duas vezes no mesmo versículo devolve a seleção que havia (sem seleção, ou ele mesmo).
pub proof fn lei_clique_duplo_desfaz(atual: Option<i32>, numero: i32)
    requires
        atual is None || atual == Some(numero),
    ensures
        ({
            let uma = selecao_apos_gesto(atual, atual, numero, true, false, false);
            selecao_apos_gesto(uma, uma, numero, true, false, false) == atual
        }),
{
}

/// O tema gravado na configuração é lido de volta como o mesmo tema.
pub proof fn lei_tema_ida_e_volta(escuro: bool)
    ensures
        (valor_do_tema(escuro) == "escuro"@) == escuro,
{
    reveal_strlit("escuro");
    reveal_strlit("claro");
    if !escuro {
        assert(("claro"@).len() != ("escuro"@).len());
    }
}

/// Espaços antes e depois do texto digitado não mudam o termo da busca.
pub proof fn lei_busca_ignora_espacos(digitado: Seq<char>)
    ensures
        termo_para_busca(seq![' '] + digitado) == termo_para_busca(digitado),
        termo_para_busca(digitado + seq![' ']) == termo_para_busca(digitado),
{
    assert((seq![' '] + digitado).drop_first() == digitado);
    lema_espaco_final_some(digitado);
}

proof fn lema_espaco_final_some(t: Seq<char>)
    ensures
        aparado(t + seq![' ']) == aparado(t),
    decreases t.len(),
{
    let u = t + seq![' '];
    assert(u.last() == ' ');
    if t.len() > 0 && eh_espaco_spec(t[0]) {
        assert(u[0] == t[0]);
        assert(u.drop_first() == t.drop_first() + seq![' ']);
        lema_espaco_final_some(t.drop_first());
        assert(sem_espacos_iniciais(u) == sem_espacos_iniciais(u.drop_first()));
    } else if t.len() == 0 {
        assert(u.drop_first() == Seq::<char>::empty());
        assert(sem_espacos_iniciais(u) == sem_espacos_iniciais(Seq::<char>::empty()));
        assert(sem_espacos_iniciais(t) == t);
    } else {
        assert(u[0] == t[0]);
        assert(sem_espacos_iniciais(u) == u);
        assert(sem_espacos_iniciais(t) == t);
        assert(u.drop_last() == t);
        assert(sem_espacos_finais(u) == sem_espacos_finais(t));
    }
}


proof fn lema_algarismos_forma(n: nat)
    ensures
        algarismos(n).len() >= 1,
        n >= 10 ==> algarismos(n).len() >= 2,
        forall|i: int|
            0 <= i < algarismos(n).len() ==> '0' <= #[trigger] algarismos(n)[i] <= '9',
    decreases n,
{
    if n >= 10 {
        lema_algarismos_forma(n / 10);
        let a = algarismos(n / 10);
        assert forall|i: int| 0 <= i < algarismos(n).len() implies '0' <= #[trigger] algarismos(
            n,
        )[i] <= '9' by {
            if i < a.len() {
                assert(algarismos(n)[i] == a[i]);
            }
        }
    }
}

proof fn lema_algarismos_injetivo(a: nat, b: nat)
    requires
        algarismos(a) == algarismos(b),
    ensures
        a == b,
    decreases a,
{
    lema_algarismos_forma(a);
    lema_algarismos_forma(b);
    if a < 10 && b < 10 {
        assert(algarismos(a)[0] == algarismo(a as int));
        assert(algarismos(b)[0] == algarismo(b as int));
    } else if a >= 10 && b >= 10 {
        assert(algarismos(a).last() == algarismo((a % 10) as int));
        assert(algarismos(b).last() == algarismo((b % 10) as int));
        assert(algarismos(a).drop_last() == algarismos(a / 10));
        assert(algarismos(b).drop_last() == algarismos(b / 10));
        lema_algarismos_injetivo(a / 10, b / 10);
    } else {
        assert(algarismos(a).len() != algarismos(b).len());
    }
}

/// Caracteres da escrita decimal: algarismos e o sinal de menos.
spec fn caractere_decimal(c: char) -> bool {
    c == '-' || ('0' <= c && c <= '9')
}

proof fn lema_texto_decimal_forma(v: int)
    ensures
        forall|i: int|
            0 <= i < texto_decimal(v).len() ==> caractere_decimal(#[trigger] texto_decimal(v)[i]),
        v < 0 ==> texto_decimal(v)[0] == '-',
        v >= 0 ==> '0' <= texto_decimal(v)[0] <= '9',
        texto_decimal(v).len() >= 1,
{
    if v < 0 {
        let a = algarismos((-v) as nat);
        lema_algarismos_forma((-v) as nat);
        assert forall|i: int| 0 <= i < texto_decimal(v).len() implies caractere_decimal(
            #[trigger] texto_decimal(v)[i],
        ) by {
            if i > 0 {
                assert(texto_decimal(v)[i] == a[i - 1]);
            }
        }
    } else {
        lema_algarismos_forma(v as nat);
    }
}

/// Números diferentes têm escritas decimais diferentes.
pub proof fn lei_texto_decimal_injetivo(a: int, b: int)
    requires
        texto_decimal(a) == texto_decimal(b),
    ensures
        a == b,
{
    lema_texto_decimal_forma(a);
    lema_texto_decimal_forma(b);
    if a < 0 && b < 0 {
        assert(texto_decimal(a).drop_first() == algarismos((-a) as nat));
        assert(texto_decimal(b).drop_first() == algarismos((-b) as nat));
        lema_algarismos_injetivo((-a) as nat, (-b) as nat);
    } else if a >= 0 && b >= 0 {
        lema_algarismos_injetivo(a as nat, b as nat);
    } else {
        assert(texto_decimal(a)[0] != texto_decimal(b)[0]);
    }
}

/// Versículos de números diferentes recebem rótulos sobrescritos diferentes.
pub proof fn lei_elevado_injetivo(a: int, b: int)
    requires
        elevado(a) == elevado(b),
    ensures
        a == b,
{
    let x = texto_decimal(a);
    let y = texto_decimal(b);
    lema_texto_decimal_forma(a);
    lema_texto_decimal_forma(b);
    assert(x.len() == elevado(a).len());
    assert(y.len() == elevado(b).len());
    assert forall|i: int| 0 <= i < x.len() implies x[i] == y[i] by {
        assert(elevado(a)[i] == sobrescrito(x[i]));
        assert(elevado(b)[i] == sobrescrito(y[i]));
        assert(caractere_decimal(x[i]));
        assert(caractere_decimal(y[i]));
    }
    assert(x == y);
    lei_texto_decimal_injetivo(a, b);
}


proof fn lema_bytes_ascii(s: Seq<char>)
    requires
        is_ascii_chars(s),
    ensures
        encode_utf8(s) == Seq::new(s.len(), |i: int| s[i] as u8),
{
    is_ascii_chars_encode_utf8(s);
    assert(encode_utf8(s) =~= Seq::new(s.len(), |i: int| s[i] as u8));
}

/// As cores da paleta do menu de marcação podem ser lidas e dão as cores desenhadas no menu.
pub proof fn lei_paleta_legivel()
    ensures
        hex_fatiavel(encode_utf8("#FFF83B"@)),
        rgb_de_hex(encode_utf8("#FFF83B"@)) == (255u8, 248u8, 59u8),
        hex_fatiavel(encode_utf8("#90EE90"@)),
        rgb_de_hex(encode_utf8("#90EE90"@)) == (144u8, 238u8, 144u8),
        hex_fatiavel(encode_utf8("#ADD8E6"@)),
        rgb_de_hex(encode_utf8("#ADD8E6"@)) == (173u8, 216u8, 230u8),
        hex_fatiavel(encode_utf8("#FFB6C1"@)),
        rgb_de_hex(encode_utf8("#FFB6C1"@)) == (255u8, 182u8, 193u8),
{
    reveal_strlit("#FFF83B");
    reveal_strlit("#90EE90");
    reveal_strlit("#ADD8E6");
    reveal_strlit("#FFB6C1");
    let a = "#FFF83B"@;
    let b = "#90EE90"@;
    let c = "#ADD8E6"@;
    let d = "#FFB6C1"@;
    lema_bytes_ascii(a);
    lema_bytes_ascii(b);
    lema_bytes_ascii(c);
    lema_bytes_ascii(d);
    let ba = encode_utf8(a);
    let bb = encode_utf8(b);
    let bc = encode_utf8(c);
    let bd = encode_utf8(d);
    assert(sem_cerquilhas(ba.drop_first()) == ba.drop_first());
    assert(sem_cerquilhas(bb.drop_first()) == bb.drop_first());
    assert(sem_cerquilhas(bc.drop_first()) == bc.drop_first());
    assert(sem_cerquilhas(bd.drop_first()) == bd.drop_first());
}


/// Uma execução de `n` quadros: `estados[i]` é o estado no começo do quadro `i` (o
/// primeiro vem de `BibliaApp::new`, sem aviso de saída), `teclas[i]` diz se a tecla de
/// voltar foi tratada nesse quadro e `fecha[i]` se a janela foi fechada nele. Um quadro com a
/// tecla é `tecla_voltar`; nos demais quadros o aviso de saída não muda e nada fecha (todos
/// os outros métodos de `BibliaApp` deixam `aguardando_saida` como está).
pub open spec fn execucao(estados: Seq<Visao>, teclas: Seq<bool>, fecha: Seq<bool>, n: int) -> bool {
    &&& 0 <= n
    &&& estados.len() == n + 1
    &&& teclas.len() == n
    &&& fecha.len() == n
    &&& !estados[0].aguardando_saida
    &&& forall|i: int|
        #![trigger estados[i + 1]]
        0 <= i < n ==> if teclas[i] {
            (estados[i + 1], fecha[i]) == tecla_voltar(estados[i])
        } else {
            &&& estados[i + 1].aguardando_saida == estados[i].aguardando_saida
            &&& !fecha[i]
        }
}

/// As mudanças de estado descritas por funções de especificação, fora a tecla de voltar,
/// não mexem no aviso de saída (os demais métodos o copiam do estado anterior no `ensures`).
pub proof fn lei_outros_passos_mantem_aviso(s: Visao, nova: Tela, total: i32)
    ensures
        navegar(s, nova).aguardando_saida == s.aguardando_saida,
        voltar(s).aguardando_saida == s.aguardando_saida,
        clique_anterior(s).0.aguardando_saida == s.aguardando_saida,
        clique_proximo(s, total).0.aguardando_saida == s.aguardando_saida,
{
}

/// No quadro `i` a tecla de voltar chegou com o menu fechado e sem tela para voltar.
pub open spec fn tecla_sem_destino(estados: Seq<Visao>, teclas: Seq<bool>, i: int) -> bool {
    &&& teclas[i]
    &&& !estados[i].menu_aberto
    &&& estados[i].historico.len() == 0
}

proof fn lema_aviso_tem_causa(estados: Seq<Visao>, teclas: Seq<bool>, fecha: Seq<bool>, n: int, k: int)
    requires
        execucao(estados, teclas, fecha, n),
        0 <= k <= n,
        estados[k].aguardando_saida,
    ensures
        exists|j: int| 0 <= j < k && #[trigger] tecla_sem_destino(estados, teclas, j),
    decreases k,
{
    if k > 0 {
        let i = k - 1;
        assert(estados[i + 1] == estados[k]);
        if tecla_sem_destino(estados, teclas, i) {
            assert(tecla_sem_destino(estados, teclas, i));
        } else {
            assert(estados[i].aguardando_saida);
            lema_aviso_tem_causa(estados, teclas, fecha, n, i);
            let j = choose|j: int| 0 <= j < i && #[trigger] tecla_sem_destino(estados, teclas, j);
            assert(tecla_sem_destino(estados, teclas, j));
        }
    }
}

/// Sair pede dois toques: em qualquer execução que começa no estado inicial, a janela só
/// fecha num quadro em que a tecla de voltar chegou com o menu fechado e sem tela para
/// voltar, e depois de um quadro anterior em que ela chegou do mesmo jeito (esse só avisou).
pub proof fn lei_sair_pede_dois_toques(estados: Seq<Visao>, teclas: Seq<bool>, fecha: Seq<bool>, n: int, k: int)
    requires
        execucao(estados, teclas, fecha, n),
        0 <= k < n,
        fecha[k],
    ensures
        tecla_sem_destino(estados, teclas, k),
        estados[k].aguardando_saida,
        exists|j: int| 0 <= j < k && #[trigger] tecla_sem_destino(estados, teclas, j),
{
    assert(estados[k + 1] == estados[k + 1]);
    lema_aviso_tem_causa(estados, teclas, fecha, n, k);
}


/// Com o menu fechado e histórico, a tecla de voltar volta exatamente uma tela: a última do
/// histórico passa a ser a atual e sai do histórico; nada mais muda e a janela não fecha.
pub proof fn lei_tecla_volta_uma_tela(s: Visao)
    requires
        !s.menu_aberto,
        s.historico.len() > 0,
    ensures
        tecla_voltar(s).0 == (Visao {
            tela_atual: s.historico[s.historico.len() - 1],
            historico: s.historico.subrange(0, s.historico.len() - 1),
            ..s
        }),
        !tecla_voltar(s).1,
{
}

/// A tecla de voltar desfaz uma navegação que mudou de tela (com o menu fechado).
pub proof fn lei_tecla_desfaz_navegar(s: Visao, nova: Tela)
    requires
        s.tela_atual != nova,
        !s.menu_aberto,
    ensures
        navegar(s, nova).tela_atual == nova,
        navegar(s, nova).historico.len() == s.historico.len() + 1,
        tecla_voltar(navegar(s, nova)).0 == s,
        !tecla_voltar(navegar(s, nova)).1,
{
    assert(s.historico.push(s.tela_atual).subrange(0, s.historico.len() as int) == s.historico);
}

/// Um versículo sem gesto e sem salto pendente para ele mantém a seleção já decidida no
/// quadro, seja qual for a seleção do começo do quadro; um toque longo ou um salto sempre o
/// selecionam; um clique sozinho o seleciona se não estava selecionado e desfaz a seleção
/// se estava.
pub proof fn lei_selecao_por_gesto(atual: Option<i32>, novo: Option<i32>, numero: i32)
    ensures
        selecao_apos_gesto(atual, novo, numero, false, false, false) == novo,
        forall|clicado: bool|
            selecao_apos_gesto(atual, novo, numero, clicado, true, false) == Some(numero),
        forall|clicado: bool, longo: bool|
            selecao_apos_gesto(atual, novo, numero, clicado, longo, true) == Some(numero),
        atual == Some(numero) ==> selecao_apos_gesto(atual, novo, numero, true, false, false)
            is None,
        atual != Some(numero) ==> selecao_apos_gesto(atual, novo, numero, true, false, false)
            == Some(numero),
{
}

/// O texto aparado é um trecho contíguo do texto digitado: o que fica fora dele é todo
/// espaço, e ele não começa nem termina com espaço.
pub proof fn lei_aparado_e_trecho(d: Seq<char>)
    ensures
        exists|i: int, j: int|
            {
                &&& 0 <= i <= j <= d.len()
                &&& aparado(d) == d.subrange(i, j)
                &&& forall|k: int| 0 <= k < i ==> eh_espaco_spec(#[trigger] d[k])
                &&& forall|k: int| j <= k < d.len() ==> eh_espaco_spec(#[trigger] d[k])
            },
        aparado(d).len() > 0 ==> !eh_espaco_spec(aparado(d)[0]) && !eh_espaco_spec(
            aparado(d)[aparado(d).len() - 1],
        ),
        (forall|k: int| 0 <= k < d.len() ==> !eh_espaco_spec(#[trigger] d[k])) ==> aparado(d) == d,
{
    let (i, e) = lema_iniciais_trecho(d);
    let m = d.subrange(i, d.len() as int);
    let j = lema_finais_trecho(m);
    assert(aparado(d) == d.subrange(i, i + j)) by {
        assert(m.subrange(0, j) == d.subrange(i, i + j));
    }
    assert forall|k: int| i + j <= k < d.len() implies eh_espaco_spec(#[trigger] d[k]) by {
        assert(d[k] == m[k - i]);
    }
    if aparado(d).len() > 0 {
        assert(aparado(d)[0] == m[0]);
        assert(aparado(d)[aparado(d).len() - 1] == m[j - 1]);
    }
    if forall|k: int| 0 <= k < d.len() ==> !eh_espaco_spec(#[trigger] d[k]) {
        if d.len() > 0 {
            assert(!eh_espaco_spec(d[0]));
        }
        assert(i == 0);
        assert(m == d);
        if j < m.len() {
            assert(!eh_espaco_spec(m[j]));
        }
        assert(d.subrange(0, d.len() as int) == d);
    }
}

proof fn lema_iniciais_trecho(d: Seq<char>) -> (r: (int, bool))
    ensures
        0 <= r.0 <= d.len(),
        sem_espacos_iniciais(d) == d.subrange(r.0, d.len() as int),
        forall|k: int| 0 <= k < r.0 ==> eh_espaco_spec(#[trigger] d[k]),
        r.0 < d.len() ==> !eh_espaco_spec(d[r.0]),
    decreases d.len(),
{
    if d.len() > 0 && eh_espaco_spec(d[0]) {
        let t = d.drop_first();
        let (i, b) = lema_iniciais_trecho(t);
        assert(t.subrange(i, t.len() as int) == d.subrange(i + 1, d.len() as int));
        assert forall|k: int| 0 <= k < i + 1 implies eh_espaco_spec(#[trigger] d[k]) by {
            if k > 0 {
                assert(d[k] == t[k - 1]);
            }
        }
        if i + 1 < d.len() {
            assert(d[i + 1] == t[i]);
        }
        (i + 1, b)
    } else {
        assert(d.subrange(0, d.len() as int) == d);
        (0, true)
    }
}

proof fn lema_finais_trecho(m: Seq<char>) -> (j: int)
    ensures
        0 <= j <= m.len(),
        sem_espacos_finais(m) == m.subrange(0, j),
        forall|k: int| j <= k < m.len() ==> eh_espaco_spec(#[trigger] m[k]),
        j > 0 ==> !eh_espaco_spec(m[j - 1]),
    decreases m.len(),
{
    if m.len() > 0 && eh_espaco_spec(m.last()) {
        let t = m.drop_last();
        let j = lema_finais_trecho(t);
        assert(t.subrange(0, j) == m.subrange(0, j));
        assert forall|k: int| j <= k < m.len() implies eh_espaco_spec(#[trigger] m[k]) by {
            if k < t.len() {
                assert(m[k] == t[k]);
            }
        }
        if j > 0 {
            assert(m[j - 1] == t[j - 1]);
        }
        j
    } else {
        assert(m.subrange(0, m.len() as int) == m);
        m.len() as int
    }
}

/// A busca só é recusada quando o texto digitado é todo espaço; qualquer outro texto, de
/// qualquer tamanho, vira a frase exata entre aspas.
pub proof fn lei_termo_de_busca(d: Seq<char>)
    ensures
        termo_para_busca(d) is None <==> (forall|k: int| 0 <= k < d.len() ==> eh_espaco_spec(
            #[trigger] d[k],
        )),
        (exists|k: int| 0 <= k < d.len() && !eh_espaco_spec(#[trigger] d[k])) ==> termo_para_busca(
            d,
        ) == Some(seq!['"'] + aparado(d) + seq!['"']),
        (forall|k: int| 0 <= k < d.len() ==> !eh_espaco_spec(#[trigger] d[k])) && d.len() > 0
            ==> termo_para_busca(d) == Some(seq!['"'] + d + seq!['"']),
{
    lei_aparado_e_trecho(d);
    let (i, j) = choose|i: int, j: int|
        {
            &&& 0 <= i <= j <= d.len()
            &&& aparado(d) == d.subrange(i, j)
            &&& forall|k: int| 0 <= k < i ==> eh_espaco_spec(#[trigger] d[k])
            &&& forall|k: int| j <= k < d.len() ==> eh_espaco_spec(#[trigger] d[k])
        };
    if aparado(d).len() == 0 {
        assert forall|k: int| 0 <= k < d.len() implies eh_espaco_spec(#[trigger] d[k]) by {
            assert(k < i || j <= k);
        }
    } else {
        assert(!eh_espaco_spec(d[i])) by {
            assert(aparado(d)[0] == d[i]);
        }
    }
}

/// O estilo de um versículo: marcado com cor, fundo dessa cor e texto preto; favorito sem
/// cor, dourado e em negrito nos dois temas; sem cor nem favorito, branco no tema escuro e
/// preto no claro; sublinhado exatamente quando selecionado.
pub proof fn lei_estilo_versiculo(v: Versiculo, selecionado: bool, tema_escuro: bool)
    ensures
        estilo_de(v, selecionado, tema_escuro).sublinhado == selecionado,
        v.cor_hex is None && v.favorito ==> {
            &&& estilo_de(v, selecionado, tema_escuro).cor == CorTexto::Dourado
            &&& estilo_de(v, selecionado, tema_escuro).negrito
            &&& estilo_de(v, selecionado, tema_escuro).fundo is None
        },
        v.cor_hex is None && !v.favorito ==> {
            &&& estilo_de(v, selecionado, tema_escuro).cor == (if tema_escuro {
                CorTexto::Branco
            } else {
                CorTexto::Preto
            })
            &&& !estilo_de(v, selecionado, tema_escuro).negrito
            &&& estilo_de(v, selecionado, tema_escuro).fundo is None
        },
        v.cor_hex matches Some(h) ==> {
            &&& estilo_de(v, selecionado, tema_escuro).cor == CorTexto::Preto
            &&& !estilo_de(v, selecionado, tema_escuro).negrito
            &&& estilo_de(v, selecionado, tema_escuro).fundo == Some(rgb_de_hex(encode_utf8(h@)))
        },
{
}

/// O valor de um algarismo decimal.
pub open spec fn valor_algarismo(c: char) -> int {
    (c as int) - ('0' as int)
}

/// O número que uma sequência de algarismos decimais escreve (da esquerda para a direita).
pub open spec fn valor_decimal(s: Seq<char>) -> int
    decreases s.len(),
{
    if s.len() == 0 {
        0
    } else {
        10 * valor_decimal(s.drop_last()) + valor_algarismo(s.last())
    }
}

/// O número que uma escrita decimal com sinal opcional representa.
pub open spec fn valor_com_sinal(s: Seq<char>) -> int {
    if s.len() > 0 && s[0] == '-' {
        -valor_decimal(s.drop_first())
    } else {
        valor_decimal(s)
    }
}

proof fn lema_valor_algarismos(n: nat)
    ensures
        valor_decimal(algarismos(n)) == n,
    decreases n,
{
    if n >= 10 {
        lema_valor_algarismos(n / 10);
        lema_valor_de_algarismo((n % 10) as int);
        assert(algarismos(n).drop_last() == algarismos(n / 10));
        assert(algarismos(n).last() == algarismo((n % 10) as int));
        assert(algarismos(n).len() > 0);
        assert(valor_decimal(algarismos(n)) == 10 * valor_decimal(algarismos(n / 10))
            + valor_algarismo(algarismo((n % 10) as int)));
        assert(n == 10 * (n / 10) + n % 10);
    } else {
        lema_valor_de_algarismo(n as int);
        assert(algarismos(n).drop_last() == Seq::<char>::empty());
        assert(algarismos(n).len() == 1);
        assert(algarismos(n).last() == algarismo(n as int));
        assert(valor_decimal(Seq::<char>::empty()) == 0);
        assert(valor_decimal(algarismos(n)) == 10 * valor_decimal(Seq::<char>::empty())
            + valor_algarismo(algarismo(n as int)));
    }
}

proof fn lema_valor_de_algarismo(d: int)
    requires
        0 <= d < 10,
    ensures
        valor_algarismo(algarismo(d)) == d,
{
}

/// A escrita decimal de um número lê-se de volta como o próprio número, e só usa
/// algarismos (e o sinal `-` à frente dos negativos).
pub proof fn lei_texto_decimal_le_de_volta(v: int)
    ensures
        valor_com_sinal(texto_decimal(v)) == v,
        texto_decimal(v).len() >= 1,
        forall|i: int|
            0 <= i < texto_decimal(v).len() ==> (#[trigger] texto_decimal(v)[i] == '-' && i == 0
                && v < 0) || ('0' <= texto_decimal(v)[i] <= '9'),
{
    lema_texto_decimal_forma(v);
    if v < 0 {
        lema_valor_algarismos((-v) as nat);
        lema_algarismos_forma((-v) as nat);
        let a = algarismos((-v) as nat);
        assert(texto_decimal(v).drop_first() == a);
        assert forall|i: int| 0 <= i < texto_decimal(v).len() implies (#[trigger] texto_decimal(
            v,
        )[i] == '-' && i == 0 && v < 0) || ('0' <= texto_decimal(v)[i] <= '9') by {
            if i > 0 {
                assert(texto_decimal(v)[i] == a[i - 1]);
            }
        }
    } else {
        lema_valor_algarismos(v as nat);
        lema_algarismos_forma(v as nat);
        let a = algarismos(v as nat);
        if a.len() > 0 {
            assert(a[0] != '-');
        }
    }
}

proof fn lema_separa_em_dois_pontos(a: Seq<char>, b: Seq<char>, c: Seq<char>, d: Seq<char>)
    requires
        a + seq![':'] + b == c + seq![':'] + d,
        forall|i: int| 0 <= i < a.len() ==> #[trigger] a[i] != ':',
        forall|i: int| 0 <= i < c.len() ==> #[trigger] c[i] != ':',
    ensures
        a == c,
        b == d,
{
    let x = a + seq![':'] + b;
    let y = c + seq![':'] + d;
    if a.len() < c.len() {
        assert(x[a.len() as int] == ':');
        assert(y[a.len() as int] == c[a.len() as int]);
    } else if c.len() < a.len() {
        assert(y[c.len() as int] == ':');
        assert(x[c.len() as int] == a[c.len() as int]);
    }
    assert(a == x.subrange(0, a.len() as int));
    assert(c == y.subrange(0, c.len() as int));
    assert(b == x.subrange(a.len() as int + 1, x.len() as int));
    assert(d == y.subrange(c.len() as int + 1, y.len() as int));
}

/// O título de um resultado é `nome capítulo:versículo`, com capítulo e versículo na
/// sua escrita decimal: resultados do mesmo livro têm o mesmo título só se têm o mesmo
/// capítulo e o mesmo versículo, e o capítulo e o versículo lêem-se de volta do título.
#[verifier::rlimit(50)]
pub proof fn lei_titulo_resultado(r1: ResultadoBusca, r2: ResultadoBusca)
    ensures
        ({
            let n: int = r1.livro_nome@.len() as int + 1;
            let c: int = texto_decimal(r1.capitulo as int).len() as int;
            &&& titulo(r1).subrange(0, r1.livro_nome@.len() as int) == r1.livro_nome@
            &&& titulo(r1)[r1.livro_nome@.len() as int] == ' '
            &&& valor_com_sinal(titulo(r1).subrange(n, n + c)) == r1.capitulo
            &&& titulo(r1)[n + c] == ':'
            &&& valor_com_sinal(titulo(r1).subrange(n + c + 1, titulo(r1).len() as int))
                == r1.numero
        }),
        r1.livro_nome@ == r2.livro_nome@ && titulo(r1) == titulo(r2) ==> r1.capitulo
            == r2.capitulo && r1.numero == r2.numero,
{
    let nome = r1.livro_nome@;
    let n: int = nome.len() as int + 1;
    let c1 = texto_decimal(r1.capitulo as int);
    let m1 = texto_decimal(r1.numero as int);
    let t = titulo(r1);
    assert(t == nome + seq![' '] + c1 + seq![':'] + m1);
    assert(t.subrange(0, nome.len() as int) == nome);
    assert(t.subrange(n, n + c1.len() as int) == c1);
    assert(t.subrange(n + c1.len() as int + 1, t.len() as int) == m1);
    lei_texto_decimal_le_de_volta(r1.capitulo as int);
    lei_texto_decimal_le_de_volta(r1.numero as int);
    if r1.livro_nome@ == r2.livro_nome@ && titulo(r1) == titulo(r2) {
        let c2 = texto_decimal(r2.capitulo as int);
        let m2 = texto_decimal(r2.numero as int);
        let pre = nome + seq![' '];
        assert(titulo(r2) == pre + (c2 + seq![':'] + m2));
        assert(t == pre + (c1 + seq![':'] + m1));
        assert(c1 + seq![':'] + m1 == t.subrange(pre.len() as int, t.len() as int));
        assert(c2 + seq![':'] + m2 == titulo(r2).subrange(pre.len() as int, t.len() as int));
        lei_texto_decimal_le_de_volta(r2.capitulo as int);
        lema_separa_em_dois_pontos(c1, m1, c2, m2);
        lei_texto_decimal_injetivo(r1.capitulo as int, r2.capitulo as int);
        lei_texto_decimal_injetivo(r1.numero as int, r2.numero as int);
    }
}


/// O texto normalizado de uma concatenação é a concatenação dos normalizados: cada caractere
/// é tratado sozinho.
pub proof fn lei_normalizado_concatena(a: Seq<char>, b: Seq<char>)
    ensures
        normalizado(a + b) == normalizado(a) + normalizado(b),
{
    let p = |c: char| crate::busca::mantido(c);
    let f = |c: char| crate::busca::minuscula(c);
    Seq::filter_distributes_over_add(a, b, p);
    assert((a.filter(p) + b.filter(p)).map_values(f) == a.filter(p).map_values(f) + b.filter(
        p,
    ).map_values(f));
}

/// A normalização de um caractere: letras minúsculas, algarismos ASCII e espaços ficam como
/// estão; maiúsculas ASCII viram a minúscula correspondente; tudo mais (acentos soltos,
/// pontuação, letras fora do ASCII) some.
pub proof fn lei_normalizado_um_caractere(c: char)
    ensures
        ('a' <= c <= 'z' || '0' <= c <= '9' || eh_espaco_spec(c)) ==> normalizado(seq![c]) == seq![c],
        'A' <= c <= 'Z' ==> normalizado(seq![c]) == seq![((c as int) + 32) as char],
        !('a' <= c <= 'z' || '0' <= c <= '9' || 'A' <= c <= 'Z' || eh_espaco_spec(c))
            ==> normalizado(seq![c]).len() == 0,
{
    reveal_with_fuel(Seq::filter, 2);
    let p = |c: char| crate::busca::mantido(c);
    assert(seq![c].drop_last() == Seq::<char>::empty());
    assert(Seq::<char>::empty().filter(p) == Seq::<char>::empty());
    if crate::busca::mantido(c) {
        assert(seq![c].filter(p) == seq![c]);
    } else {
        assert(seq![c].filter(p) == Seq::<char>::empty());
    }
}

/// Só a coluna `favorito` igual a 1 marca o versículo como favorito.
pub proof fn lei_favorito(f: i32)
    ensures
        favorito_de(Some(f)) <==> f == 1,
        !favorito_de(None),
{
}

/// O algarismo comum que um algarismo sobrescrito representa (os demais ficam como estão).
pub open spec fn sem_sobrescrito(c: char) -> char {
    if c == '⁰' {
        '0'
    } else if c == '¹' {
        '1'
    } else if c == '²' {
        '2'
    } else if c == '³' {
        '3'
    } else if c == '⁴' {
        '4'
    } else if c == '⁵' {
        '5'
    } else if c == '⁶' {
        '6'
    } else if c == '⁷' {
        '7'
    } else if c == '⁸' {
        '8'
    } else if c == '⁹' {
        '9'
    } else {
        c
    }
}

/// O rótulo sobrescrito de um versículo, lido algarismo a algarismo, dá o número dele, e só
/// tem algarismos sobrescritos (e o sinal `-` nos negativos).
pub proof fn lei_elevado_le_de_volta(v: int)
    ensures
        valor_com_sinal(elevado(v).map_values(|c: char| sem_sobrescrito(c))) == v,
        forall|i: int|
            0 <= i < elevado(v).len() ==> {
                let c = #[trigger] elevado(v)[i];
                ||| (c == '-' && i == 0 && v < 0)
                ||| c == '⁰' || c == '¹' || c == '²' || c == '³' || c == '⁴'
                ||| c == '⁵' || c == '⁶' || c == '⁷' || c == '⁸' || c == '⁹'
            },
{
    lei_texto_decimal_le_de_volta(v);
    let t = texto_decimal(v);
    let volta = elevado(v).map_values(|c: char| sem_sobrescrito(c));
    assert(volta.len() == t.len());
    assert forall|i: int| 0 <= i < t.len() implies volta[i] == t[i] by {
        assert(elevado(v)[i] == sobrescrito(t[i]));
        assert(('0' <= t[i] <= '9') || t[i] == '-');
    }
    assert(volta == t);
    assert forall|i: int| 0 <= i < elevado(v).len() implies {
        let c = #[trigger] elevado(v)[i];
        ||| (c == '-' && i == 0 && v < 0)
        ||| c == '⁰' || c == '¹' || c == '²' || c == '³' || c == '⁴'
        ||| c == '⁵' || c == '⁶' || c == '⁷' || c == '⁸' || c == '⁹'
    } by {
        assert(elevado(v)[i] == sobrescrito(t[i]));
        assert((t[i] == '-' && i == 0 && v < 0) || ('0' <= t[i] <= '9'));
    }
}

/// O algarismo hexadecimal maiúsculo (em ASCII) de `d`, para `0 <= d < 16`.
pub open spec fn byte_hex(d: int) -> u8 {
    if d < 10 {
        (0x30 + d) as u8
    } else {
        (0x41 + d - 10) as u8
    }
}

/// `#RRGGBB` em maiúsculas, em bytes.
pub open spec fn codigo_hex(r: u8, g: u8, b: u8) -> Seq<u8> {
    seq![
        0x23u8,
        byte_hex((r / 16) as int),
        byte_hex((r % 16) as int),
        byte_hex((g / 16) as int),
        byte_hex((g % 16) as int),
        byte_hex((b / 16) as int),
        byte_hex((b % 16) as int),
    ]
}

proof fn lema_par_hex(x: u8)
    ensures
        crate::cores::par_hex(byte_hex((x / 16) as int), byte_hex((x % 16) as int)) == x,
{
    assert(x == 16 * (x / 16) + x % 16);
}

/// Ler o código `#RRGGBB` de uma cor dá a própria cor, para toda cor: a leitura inverte a
/// escrita em hexadecimal.
pub proof fn lei_hex_le_de_volta(r: u8, g: u8, b: u8)
    ensures
        hex_fatiavel(codigo_hex(r, g, b)),
        rgb_de_hex(codigo_hex(r, g, b)) == (r, g, b),
{
    let c = codigo_hex(r, g, b);
    let h = c.drop_first();
    assert(h[0] != 0x23);
    assert(sem_cerquilhas(h) == h);
    assert(sem_cerquilhas(c) == h);
    assert(h[0] == byte_hex((r / 16) as int) && h[1] == byte_hex((r % 16) as int));
    assert(h[2] == byte_hex((g / 16) as int) && h[3] == byte_hex((g % 16) as int));
    assert(h[4] == byte_hex((b / 16) as int) && h[5] == byte_hex((b % 16) as int));
    lema_par_hex(r);
    lema_par_hex(g);
    lema_par_hex(b);
}

} // verus!
