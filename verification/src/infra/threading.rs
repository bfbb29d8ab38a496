use vstd::prelude::*;

use crate::config::GeneralConfig;

verus! {

/// Hilos del pool de cómputo actual (`rayon::current_num_threads`): al
/// menos uno (un pool sin número configurado toma el paralelismo disponible
/// o 1); el valor exacto depende de la máquina y no se promete.
#[verifier::external_body]
fn hilos_del_pool() -> (r: usize)
    ensures r >= 1,
{
    rayon::current_num_threads()
}

/// Hilos que usará el pool para la configuración dada: los configurados, o
/// los que el pool elige por sí mismo cuando la configuración pide 0.
pub fn num_threads_efectivos(config: &GeneralConfig) -> (r: usize)
    ensures
        config.num_threads != 0 ==> r == config.num_threads,
        r >= 1,
{
    if config.num_threads == 0 {
        hilos_del_pool()
    } else {
        config.num_threads
    }
}

/// Construye el pool global de cómputo con `n` hilos
/// (`rayon::ThreadPoolBuilder::num_threads(n).build_global`); `false` si ya
/// estaba construido. Nada se promete del resultado.
#[verifier::external_body]
fn construir_pool_global(n: usize) -> bool {
    rayon::ThreadPoolBuilder::new().num_threads(n).build_global().is_ok()
}

/// Inicializa el pool global de cómputo según la configuración: con 0 hilos
/// no hace nada y deja que el pool elija; si no, pide ese número de hilos
/// (si el pool ya existía, la petición se ignora). Devuelve el número de
/// hilos pedido, si hubo petición.
pub fn inicializar_thread_pool(config: &GeneralConfig) -> (r: Option<usize>)
    ensures
        config.num_threads == 0 ==> r is None,
        config.num_threads != 0 ==> r == Some(config.num_threads),
{
    if config.num_threads == 0 {
        return None;
    }
    let _construido = construir_pool_global(config.num_threads);
    Some(config.num_threads)
}

} // verus!
