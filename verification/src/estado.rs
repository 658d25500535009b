//! O estado do leitor e as regras que o mudam a cada gesto do usuário.
//!
//! O banco de dados e a interface ficam fora daqui: cada método decide o novo estado,
//! e quem o chama lê ou grava o banco quando a regra pede (por exemplo, recarregar
//! o capítulo depois de mudar de capítulo).
use vstd::prelude::*;
use vstd::string::*;
use crate::leis::{lei_navegar_mantem_invariante, lei_voltar_mantem_invariante};
use crate::modelo::{Livro, ResultadoBusca, Tela, Versiculo};
use crate::texto::{aparado, aparar, caracteres, empurrar};

verus! {

/// O estado da aplicação, sem o que só a interface gráfica conhece.
pub struct BibliaApp {
    pub tela_atual: Tela,
    pub livro_selecionado: i32,
    pub nome_livro: String,
    pub lista_livros: Vec<Livro>,
    pub capitulo: i32,
    pub versiculos: Vec<Versiculo>,
    pub menu_aberto: bool,
    pub capitulo_mudou: bool,
    pub aguardando_saida: bool,
    pub historico: Vec<Tela>,
    pub selecionado: Option<i32>,
    pub mostrar_menu_cores: bool,
    pub termo_busca: String,
    pub resultados: Vec<ResultadoBusca>,
    pub pular_para_versiculo: Option<i32>,
    pub buscando: bool,
    pub tema_escuro: bool,
    pub popup_config_aberto: bool,
}

/// O estado visto como valores matemáticos.
#[verifier::ext_equal]
pub struct Visao {
    pub tela_atual: Tela,
    pub livro_selecionado: i32,
    pub nome_livro: Seq<char>,
    pub lista_livros: Seq<Livro>,
    pub capitulo: i32,
    pub versiculos: Seq<Versiculo>,
    pub menu_aberto: bool,
    pub capitulo_mudou: bool,
    pub aguardando_saida: bool,
    pub historico: Seq<Tela>,
    pub selecionado: Option<i32>,
    pub mostrar_menu_cores: bool,
    pub termo_busca: Seq<char>,
    pub resultados: Seq<ResultadoBusca>,
    pub pular_para_versiculo: Option<i32>,
    pub buscando: bool,
    pub tema_escuro: bool,
    pub popup_config_aberto: bool,
}

impl View for BibliaApp {
    type V = Visao;

    open spec fn view(&self) -> Visao {
        Visao {
            tela_atual: self.tela_atual,
            livro_selecionado: self.livro_selecionado,
            nome_livro: self.nome_livro@,
            lista_livros: self.lista_livros@,
            capitulo: self.capitulo,
            versiculos: self.versiculos@,
            menu_aberto: self.menu_aberto,
            capitulo_mudou: self.capitulo_mudou,
            aguardando_saida: self.aguardando_saida,
            historico: self.historico@,
            selecionado: self.selecionado,
            mostrar_menu_cores: self.mostrar_menu_cores,
            termo_busca: self.termo_busca@,
            resultados: self.resultados@,
            pular_para_versiculo: self.pular_para_versiculo,
            buscando: self.buscando,
            tema_escuro: self.tema_escuro,
            popup_config_aberto: self.popup_config_aberto,
        }
    }
}

/// Nenhuma tela aparece duas vezes seguidas no caminho percorrido.
pub open spec fn sem_repeticao_vizinha(s: Seq<Tela>) -> bool {
    forall|i: int| 0 <= i < s.len() - 1 ==> #[trigger] s[i] != s[i + 1]
}

impl Visao {
    /// O caminho de telas: o histórico seguido da tela atual.
    pub open spec fn caminho(self) -> Seq<Tela> {
        self.historico.push(self.tela_atual)
    }

    /// O invariante da navegação: voltar nunca leva à mesma tela em que se está.
    pub open spec fn bem_formado(self) -> bool {
        sem_repeticao_vizinha(self.caminho())
    }
}

/// Ir para `nova`: a tela atual vai para o histórico, a não ser que já se esteja em `nova`.
pub open spec fn navegar(s: Visao, nova: Tela) -> Visao {
    if s.tela_atual != nova {
        Visao { tela_atual: nova, historico: s.historico.push(s.tela_atual), ..s }
    } else {
        s
    }
}

/// Voltar à última tela do histórico, se houver uma.
pub open spec fn voltar(s: Visao) -> Visao {
    if s.historico.len() > 0 {
        Visao { tela_atual: s.historico.last(), historico: s.historico.drop_last(), ..s }
    } else {
        s
    }
}

/// A tecla de voltar (Esc, ou o botão voltar do Android): fecha o menu lateral se
/// estiver aberto; senão volta uma tela; sem tela para voltar, o primeiro toque só
/// avisa e o seguinte pede para fechar a janela (o `bool` do resultado).
pub open spec fn tecla_voltar(s: Visao) -> (Visao, bool) {
    if s.menu_aberto {
        (Visao { menu_aberto: false, ..s }, false)
    } else if s.historico.len() > 0 {
        (voltar(s), false)
    } else if s.aguardando_saida {
        (s, true)
    } else {
        (Visao { aguardando_saida: true, ..s }, false)
    }
}

/// O termo que vai para a busca de texto completo: o texto digitado, aparado e entre
/// aspas (frase exata); nenhum, se só há espaços.
pub open spec fn termo_para_busca(digitado: Seq<char>) -> Option<Seq<char>> {
    if aparado(digitado).len() == 0 {
        None
    } else {
        Some(seq!['"'] + aparado(digitado) + seq!['"'])
    }
}

/// A seleção depois de um gesto sobre o versículo `numero`, dada a seleção `novo` já
/// decidida neste quadro e a seleção `atual` no começo do quadro: um clique alterna,
/// um toque longo seleciona, e um salto vindo da busca seleciona.
pub open spec fn selecao_apos_gesto(
    atual: Option<i32>,
    novo: Option<i32>,
    numero: i32,
    clicado: bool,
    toque_longo: bool,
    saltou: bool,
) -> Option<i32> {
    if saltou || toque_longo {
        Some(numero)
    } else if clicado {
        if atual == Some(numero) {
            None
        } else {
            Some(numero)
        }
    } else {
        novo
    }
}

/// Clique na seta do capítulo anterior (ativa a partir do capítulo 2).
pub open spec fn clique_anterior(s: Visao) -> (Visao, bool) {
    if s.capitulo > 1 {
        (Visao { capitulo: (s.capitulo - 1) as i32, capitulo_mudou: true, ..s }, true)
    } else {
        (s, false)
    }
}

/// Clique na seta do próximo capítulo (ativa antes do último, `total`).
pub open spec fn clique_proximo(s: Visao, total: i32) -> (Visao, bool) {
    if s.capitulo < total {
        (Visao { capitulo: (s.capitulo + 1) as i32, capitulo_mudou: true, ..s }, true)
    } else {
        (s, false)
    }
}

/// O índice do primeiro versículo de número `id`, se houver.
pub open spec fn primeiro_com_numero(v: Seq<Versiculo>, id: i32, i: int) -> bool {
    &&& 0 <= i < v.len()
    &&& v[i].numero == id
    &&& forall|k: int| 0 <= k < i ==> (#[trigger] v[k]).numero != id
}

/// O valor gravado na configuração `tema` para cada tema.
pub open spec fn valor_do_tema(escuro: bool) -> Seq<char> {
    if escuro {
        "escuro"@
    } else {
        "claro"@
    }
}

fn mesmos_caracteres(a: &Vec<char>, b: &Vec<char>) -> (r: bool)
    ensures
        r == (a@ == b@),
{
    if a.len() != b.len() {
        return false;
    }
    let mut i: usize = 0;
    while i < a.len()
        invariant
            0 <= i <= a.len() == b.len(),
            forall|k: int| 0 <= k < i ==> a@[k] == b@[k],
        decreases a.len() - i,
    {
        if a[i] != b[i] {
            return false;
        }
        i = i + 1;
    }
    proof {
        assert(a@ =~= b@);
    }
    true
}

/// Diz se o valor lido da configuração `tema` pede o tema escuro.
pub fn tema_salvo_escuro(valor: &str) -> (escuro: bool)
    ensures
        escuro == (valor@ == "escuro"@),
{
    let v = caracteres(valor);
    let e = caracteres("escuro");
    mesmos_caracteres(&v, &e)
}

impl BibliaApp {
    /// O estado inicial: lendo Gênesis 1, sem histórico, seleção, busca ou menus abertos,
    /// tema claro.
    pub fn new() -> (app: BibliaApp)
        ensures
            app@.tela_atual == Tela::Leitura,
            app@.livro_selecionado == 1,
            app@.nome_livro == "Gênesis"@,
            app@.lista_livros.len() == 0,
            app@.capitulo == 1,
            app@.versiculos.len() == 0,
            !app@.menu_aberto,
            !app@.capitulo_mudou,
            !app@.aguardando_saida,
            app@.historico.len() == 0,
            app@.selecionado is None,
            !app@.mostrar_menu_cores,
            app@.termo_busca.len() == 0,
            app@.resultados.len() == 0,
            app@.pular_para_versiculo is None,
            !app@.buscando,
            !app@.tema_escuro,
            !app@.popup_config_aberto,
            app@.bem_formado(),
    {
        BibliaApp {
            tela_atual: Tela::Leitura,
            livro_selecionado: 1,
            nome_livro: String::from_str("Gênesis"),
            lista_livros: Vec::new(),
            capitulo: 1,
            versiculos: Vec::new(),
            menu_aberto: false,
            capitulo_mudou: false,
            aguardando_saida: false,
            historico: Vec::new(),
            selecionado: None,
            mostrar_menu_cores: false,
            termo_busca: String::new(),
            resultados: Vec::new(),
            pular_para_versiculo: None,
            buscando: false,
            tema_escuro: false,
            popup_config_aberto: false,
        }
    }

    /// Vai para a tela `nova_tela`, guardando a atual no histórico se ela muda.
    pub fn navegar_para(&mut self, nova_tela: Tela)
        ensures
            final(self)@ == navegar(old(self)@, nova_tela),
            old(self)@.bem_formado() ==> final(self)@.bem_formado(),
    {
        if self.tela_atual != nova_tela {
            let antiga = self.tela_atual;
            self.tela_atual = nova_tela;
            self.historico.push(antiga);
        }
        proof {
            if old(self)@.bem_formado() {
                lei_navegar_mantem_invariante(old(self)@, nova_tela);
            }
        }
    }

    /// Volta à tela anterior do histórico, se houver.
    pub fn voltar(&mut self)
        ensures
            final(self)@ == voltar(old(self)@),
            old(self)@.bem_formado() ==> final(self)@.bem_formado(),
    {
        if let Some(tela_anterior) = self.historico.pop() {
            self.tela_atual = tela_anterior;
        }
        proof {
            if old(self)@.bem_formado() {
                lei_voltar_mantem_invariante(old(self)@);
            }
        }
    }

    /// Trata a tecla de voltar; o resultado diz se a janela deve fechar.
    pub fn tecla_voltar(&mut self) -> (fechar: bool)
        ensures
            (final(self)@, fechar) == tecla_voltar(old(self)@),
            old(self)@.bem_formado() ==> final(self)@.bem_formado(),
    {
        if self.menu_aberto {
            self.menu_aberto = false;
            false
        } else if self.historico.len() > 0 {
            self.voltar();
            false
        } else if self.aguardando_saida {
            true
        } else {
            self.aguardando_saida = true;
            false
        }
    }

    /// Abre ou fecha o menu lateral de livros (botão ☰).
    pub fn alternar_menu(&mut self)
        ensures
            final(self)@ == (Visao { menu_aberto: !old(self)@.menu_aberto, ..old(self)@ }),
    {
        self.menu_aberto = !self.menu_aberto;
    }

    /// Abre a janela de opções (botão de engrenagem).
    pub fn abrir_popup_config(&mut self)
        ensures
            final(self)@ == (Visao { popup_config_aberto: true, ..old(self)@ }),
    {
        self.popup_config_aberto = true;
    }

    /// Fecha a janela de opções se o botão FECHAR foi clicado ou se houve um clique fora dela.
    pub fn fechar_popup_se(&mut self, botao_fechar: bool, clique_fora: bool)
        ensures
            final(self)@ == (if botao_fechar || clique_fora {
                Visao { popup_config_aberto: false, ..old(self)@ }
            } else {
                old(self)@
            }),
    {
        if botao_fechar || clique_fora {
            self.popup_config_aberto = false;
        }
    }

    /// Escolhe um livro no menu lateral: abre o capítulo 1 dele na tela de leitura e fecha
    /// o menu. Quem chama recarrega o capítulo.
    pub fn selecionar_livro(&mut self, livro: &Livro)
        ensures
            final(self)@ == navegar(
                Visao {
                    livro_selecionado: livro.id,
                    nome_livro: livro.name@,
                    capitulo: 1,
                    capitulo_mudou: true,
                    menu_aberto: false,
                    ..old(self)@
                },
                Tela::Leitura,
            ),
            old(self)@.bem_formado() ==> final(self)@.bem_formado(),
    {
        self.livro_selecionado = livro.id;
        self.nome_livro = livro.name.clone();
        self.capitulo = 1;
        self.capitulo_mudou = true;
        self.menu_aberto = false;
        self.navegar_para(Tela::Leitura);
    }

    /// Abre a tela de configurações a partir da janela de opções, fechando a janela.
    pub fn abrir_configuracoes(&mut self)
        ensures
            final(self)@ == (Visao {
                popup_config_aberto: false,
                ..navegar(old(self)@, Tela::Configuracoes)
            }),
            old(self)@.bem_formado() ==> final(self)@.bem_formado(),
    {
        self.navegar_para(Tela::Configuracoes);
        self.popup_config_aberto = false;
    }

    /// Volta um capítulo, se não se está no primeiro; o resultado diz se o capítulo mudou
    /// (e então quem chama o recarrega).
    pub fn livro_anterior(&mut self) -> (mudou: bool)
        ensures
            mudou == (old(self).capitulo > 1),
            final(self)@ == (if mudou {
                Visao { capitulo: (old(self).capitulo - 1) as i32, ..old(self)@ }
            } else {
                old(self)@
            }),
    {
        if self.capitulo > 1 {
            self.capitulo = self.capitulo - 1;
            true
        } else {
            false
        }
    }

    /// Avança um capítulo. Quem chama recarrega o capítulo.
    pub fn proximo_livro(&mut self)
        requires
            old(self).capitulo < i32::MAX,
        ensures
            final(self)@ == (Visao { capitulo: (old(self).capitulo + 1) as i32, ..old(self)@ }),
    {
        self.capitulo = self.capitulo + 1;
    }

    /// O botão do capítulo anterior está ativo.
    pub fn anterior_habilitado(&self) -> (b: bool)
        ensures
            b == (self.capitulo > 1),
    {
        self.capitulo > 1
    }

    /// O botão do próximo capítulo está ativo, sendo `total` o número de capítulos do livro.
    pub fn proximo_habilitado(&self, total: i32) -> (b: bool)
        ensures
            b == (self.capitulo < total),
    {
        self.capitulo < total
    }

    /// Clique na seta do capítulo anterior: só age com o botão ativo, e então volta um
    /// capítulo e pede que a leitura role para o topo. O resultado diz se o capítulo mudou.
    pub fn clicar_anterior(&mut self) -> (mudou: bool)
        ensures
            (final(self)@, mudou) == clique_anterior(old(self)@),
    {
        if self.anterior_habilitado() {
            self.livro_anterior();
            self.capitulo_mudou = true;
            true
        } else {
            false
        }
    }

    /// Clique na seta do próximo capítulo, sendo `total` o número de capítulos do livro:
    /// só age com o botão ativo, e então avança um capítulo e pede que a leitura role
    /// para o topo. O resultado diz se o capítulo mudou.
    pub fn clicar_proximo(&mut self, total: i32) -> (mudou: bool)
        ensures
            (final(self)@, mudou) == clique_proximo(old(self)@, total),
    {
        if self.proximo_habilitado(total) {
            self.proximo_livro();
            self.capitulo_mudou = true;
            true
        } else {
            false
        }
    }

    /// Se o capítulo acabou de mudar, consome o aviso; o resultado diz se a leitura deve
    /// voltar ao topo.
    pub fn consumir_capitulo_mudou(&mut self) -> (rolar_ao_topo: bool)
        ensures
            rolar_ao_topo == old(self).capitulo_mudou,
            final(self)@ == (Visao { capitulo_mudou: false, ..old(self)@ }),
    {
        let r = self.capitulo_mudou;
        self.capitulo_mudou = false;
        r
    }

    /// Um gesto sobre o versículo `numero` na lista: `novo` é a seleção já decidida neste
    /// quadro. Um clique alterna a seleção e fecha o menu de cores; um toque longo (ou clique
    /// direito) seleciona e abre o menu de cores; se a busca pediu um salto para este
    /// versículo, ele é selecionado e o salto é consumido. Devolve a nova seleção e se a
    /// lista deve rolar até o versículo.
    pub fn gesto_versiculo(
        &mut self,
        novo: Option<i32>,
        numero: i32,
        clicado: bool,
        toque_longo: bool,
    ) -> (r: (Option<i32>, bool))
        ensures
            r.1 == (old(self).pular_para_versiculo == Some(numero)),
            r.0 == selecao_apos_gesto(old(self).selecionado, novo, numero, clicado, toque_longo, r.1),
            final(self)@ == (Visao {
                mostrar_menu_cores: if toque_longo {
                    true
                } else if clicado {
                    false
                } else {
                    old(self).mostrar_menu_cores
                },
                pular_para_versiculo: if r.1 {
                    None
                } else {
                    old(self).pular_para_versiculo
                },
                ..old(self)@
            }),
    {
        let estava_selecionado = match self.selecionado {
            Some(n) => n == numero,
            None => false,
        };
        let mut novo = novo;
        if clicado {
            novo = if estava_selecionado {
                None
            } else {
                Some(numero)
            };
            self.mostrar_menu_cores = false;
        }
        if toque_longo {
            novo = Some(numero);
            self.mostrar_menu_cores = true;
        }
        let saltou = match self.pular_para_versiculo {
            Some(n) => n == numero,
            None => false,
        };
        if saltou {
            self.pular_para_versiculo = None;
            novo = Some(numero);
        }
        (novo, saltou)
    }

    /// Pinta na memória o primeiro versículo de número `id` com a cor `hex` e fecha o menu
    /// de cores. Quem chama grava a marcação e recarrega o capítulo.
    pub fn aplicar_cor(&mut self, id: i32, hex: &str)
        ensures
            final(self)@ == (Visao {
                versiculos: final(self)@.versiculos,
                mostrar_menu_cores: false,
                ..old(self)@
            }),
            final(self)@.versiculos.len() == old(self)@.versiculos.len(),
            forall|i: int|
                #![trigger final(self)@.versiculos[i]]
                0 <= i < old(self)@.versiculos.len() ==> if primeiro_com_numero(
                    old(self)@.versiculos,
                    id,
                    i,
                ) {
                    &&& final(self)@.versiculos[i].numero == old(self)@.versiculos[i].numero
                    &&& final(self)@.versiculos[i].numero_formatado
                        == old(self)@.versiculos[i].numero_formatado
                    &&& final(self)@.versiculos[i].texto == old(self)@.versiculos[i].texto
                    &&& final(self)@.versiculos[i].favorito == old(self)@.versiculos[i].favorito
                    &&& final(self)@.versiculos[i].cor_hex matches Some(c) && c@ == hex@
                } else {
                    final(self)@.versiculos[i] == old(self)@.versiculos[i]
                },
    {
        let mut i: usize = 0;
        let n = self.versiculos.len();
        while i < n && self.versiculos[i].numero != id
            invariant
                0 <= i <= n == self.versiculos@.len(),
                self@ == old(self)@,
                forall|k: int| 0 <= k < i ==> (#[trigger] self.versiculos@[k]).numero != id,
            decreases n - i,
        {
            i = i + 1;
        }
        if i < n {
            self.versiculos[i].cor_hex = Some(String::from_str(hex));
        }
        self.mostrar_menu_cores = false;
    }

    /// Fecha o menu de cores (depois de favoritar, ou no botão ✕).
    pub fn fechar_menu_cores(&mut self)
        ensures
            final(self)@ == (Visao { mostrar_menu_cores: false, ..old(self)@ }),
    {
        self.mostrar_menu_cores = false;
    }

    /// Desfaz a seleção de versículo (depois de apagar uma marcação).
    pub fn limpar_selecao(&mut self)
        ensures
            final(self)@ == (Visao { selecionado: None, ..old(self)@ }),
    {
        self.selecionado = None;
    }

    /// Dispara a busca do texto digitado: devolve o termo para a consulta e marca que a
    /// busca está em andamento; com o campo vazio (ou só espaços) não faz nada.
    pub fn executar_busca(&mut self) -> (termo: Option<String>)
        ensures
            match termo_para_busca(old(self)@.termo_busca) {
                None => termo is None && final(self)@ == old(self)@,
                Some(t) => {
                    &&& termo matches Some(x) && x@ == t
                    &&& final(self)@ == (Visao { buscando: true, ..old(self)@ })
                },
            },
    {
        let t = aparar(self.termo_busca.as_str());
        if t.as_str().is_empty() {
            None
        } else {
            let mut r = String::new();
            empurrar(&mut r, '"');
            r.append(t.as_str());
            empurrar(&mut r, '"');
            self.buscando = true;
            proof {
                assert(r@ == seq!['"'] + aparado(old(self)@.termo_busca) + seq!['"']);
            }
            Some(r)
        }
    }

    /// Recebe os resultados da busca em andamento.
    pub fn receber_resultados(&mut self, resultados: Vec<ResultadoBusca>)
        ensures
            final(self)@ == (Visao { resultados: resultados@, buscando: false, ..old(self)@ }),
    {
        self.resultados = resultados;
        self.buscando = false;
    }

    /// Diz se a tela de busca deve avisar que nada foi encontrado.
    pub fn sem_resultados(&self) -> (b: bool)
        ensures
            b == (self@.resultados.len() == 0 && !self.buscando),
    {
        self.resultados.len() == 0 && !self.buscando
    }

    /// Abre um resultado da busca: vai para o capítulo dele na tela de leitura e pede que a
    /// lista salte até o versículo. O nome do livro mostrado não muda. Quem chama recarrega
    /// o capítulo.
    pub fn abrir_resultado(&mut self, livro_id: i32, capitulo: i32, numero: i32)
        ensures
            final(self)@ == navegar(
                Visao {
                    livro_selecionado: livro_id,
                    capitulo: capitulo,
                    pular_para_versiculo: Some(numero),
                    ..old(self)@
                },
                Tela::Leitura,
            ),
            old(self)@.bem_formado() ==> final(self)@.bem_formado(),
    {
        self.livro_selecionado = livro_id;
        self.capitulo = capitulo;
        self.pular_para_versiculo = Some(numero);
        self.navegar_para(Tela::Leitura);
    }

    /// Escolhe o tema (escuro ou claro) e devolve o valor a gravar na configuração `tema`.
    pub fn escolher_tema(&mut self, escuro: bool) -> (valor: String)
        ensures
            final(self)@ == (Visao { tema_escuro: escuro, ..old(self)@ }),
            valor@ == valor_do_tema(escuro),
    {
        self.tema_escuro = escuro;
        if escuro {
            String::from_str("escuro")
        } else {
            String::from_str("claro")
        }
    }

    /// Aplica o tema lido da configuração `tema`: escuro só se o valor é `escuro`.
    pub fn aplicar_tema_salvo(&mut self, valor: &str)
        ensures
            final(self)@ == (Visao { tema_escuro: valor@ == "escuro"@, ..old(self)@ }),
    {
        self.tema_escuro = tema_salvo_escuro(valor);
    }
}

} // verus!
