# biblia_egui

Leitor da Bíblia para desktop e Android, com interface egui/eframe e textos num banco SQLite.

- `src/` é a biblioteca verificada com Verus: o estado do leitor (`estado.rs`: telas,
  histórico, capítulos, seleção e marcação de versículos, busca, tema), a formatação de
  números e textos (`texto.rs`), as cores das marcações (`cores.rs`), a normalização dos
  termos de busca e os títulos dos resultados (`busca.rs`), os dados (`modelo.rs`) e as
  propriedades provadas sobre tudo isso (`leis.rs`).
- `app/` é o programa: a janela egui, o banco SQLite (`db.rs`) e a entrada no Android.
  Ele desenha, lê os gestos do usuário, pede à biblioteca o novo estado e grava ou lê o
  banco quando o estado pede.
- `tests/` exercita a biblioteca com valores concretos.
