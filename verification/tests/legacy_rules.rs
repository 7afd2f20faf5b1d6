use battery_assistant::audio::AudioEvent;
use battery_assistant::battery::monitor::{AlertEvent, NANOS_PER_SEC};
use battery_assistant::battery::types::{BatteryData, BatteryState};
use battery_assistant::monitor::{
    aviso_para, cooldown_vencido, debe_alertar_alta, debe_alertar_baja, ConfigApp, MonitorBateria,
};
use battery_assistant::notification::Urgency;

fn bateria(pct: i64, state: BatteryState) -> BatteryData {
    BatteryData { state, percentage: pct, time_to_full: None, time_to_empty: None }
}

fn monitor() -> MonitorBateria {
    MonitorBateria::new(ConfigApp { umbral_baja: 2000, umbral_alta: 8000, cooldown_segundos: 60 })
}

#[test]
fn umbral_bajo_es_inclusivo() {
    assert!(debe_alertar_baja(BatteryState::Discharging, 2000, 2000));
    assert!(!debe_alertar_baja(BatteryState::Charging, 1000, 2000));
}

#[test]
fn umbral_alto_es_inclusivo() {
    assert!(debe_alertar_alta(BatteryState::Charging, 8000, 8000));
    assert!(debe_alertar_alta(BatteryState::Full, 8000, 8000));
    assert!(!debe_alertar_alta(BatteryState::Discharging, 9500, 8000));
}

#[test]
fn cooldown_no_repite_antes_de_tiempo() {
    let base: u128 = 1_000;
    let ahora = base + 59 * NANOS_PER_SEC;
    assert!(!cooldown_vencido(Some(base), ahora, 60 * NANOS_PER_SEC));
}

#[test]
fn cooldown_repite_al_cumplir_tiempo() {
    let base: u128 = 1_000;
    let ahora = base + 60 * NANOS_PER_SEC;
    assert!(cooldown_vencido(Some(base), ahora, 60 * NANOS_PER_SEC));
}

// ---- further cases ----

#[test]
fn cooldown_sin_aviso_previo_vence() {
    assert!(cooldown_vencido(None, 0, 60 * NANOS_PER_SEC));
}

#[test]
fn cooldown_con_reloj_anterior_no_vence() {
    assert!(!cooldown_vencido(Some(5 * NANOS_PER_SEC), NANOS_PER_SEC, NANOS_PER_SEC));
}

#[test]
fn monitor_bateria_avisa_conexion_y_bateria_baja() {
    let mut m = monitor();
    m.inicializar(&bateria(5000, BatteryState::Discharging), 0);
    assert_eq!(
        m.procesar_ciclo(&bateria(5000, BatteryState::Charging), NANOS_PER_SEC),
        vec![AlertEvent::ChargerConnected]
    );
    assert_eq!(
        m.procesar_ciclo(&bateria(1500, BatteryState::Discharging), 2 * NANOS_PER_SEC),
        vec![AlertEvent::ChargerDisconnected]
    );
    assert_eq!(
        m.procesar_ciclo(&bateria(1500, BatteryState::Discharging), 3 * NANOS_PER_SEC),
        vec![AlertEvent::LowBattery { percentage: 1500, time_to_empty: None }]
    );
    assert!(m.procesar_ciclo(&bateria(1400, BatteryState::Discharging), 4 * NANOS_PER_SEC).is_empty());
}

#[test]
fn monitor_bateria_de_lleno_a_cargando_no_revisa_niveles() {
    let mut m = monitor();
    m.inicializar(&bateria(9000, BatteryState::Full), 0);
    assert!(m.procesar_ciclo(&bateria(9000, BatteryState::Charging), 100 * NANOS_PER_SEC).is_empty());
    assert_eq!(
        m.procesar_ciclo(&bateria(9000, BatteryState::Charging), 101 * NANOS_PER_SEC),
        vec![AlertEvent::HighBattery { percentage: 9000, time_to_full: None }]
    );
}

#[test]
fn monitor_bateria_espera_dinamica() {
    let m = monitor();
    assert_eq!(m.tiempo_espera_dinamico(&bateria(5000, BatteryState::Discharging)), 30);
    assert_eq!(m.tiempo_espera_dinamico(&bateria(2300, BatteryState::Discharging)), 5);
    assert_eq!(m.tiempo_espera_dinamico(&bateria(7700, BatteryState::Charging)), 5);
}

#[test]
fn avisos_en_espanol() {
    let a = aviso_para(&AlertEvent::LowBattery { percentage: 1449, time_to_empty: Some(750) });
    assert_eq!(a.consola, "⚠️ Batería Crítica (14%)");
    assert_eq!(a.titulo, "Batería Baja");
    assert_eq!(a.cuerpo, "Nivel crítico: 14%. Conecta el cargador. Tiempo estimado restante: 12 min.");
    assert_eq!(a.urgencia, Urgency::Critical);
    assert_eq!(a.sonido, AudioEvent::LowBattery);

    let a = aviso_para(&AlertEvent::HighBattery { percentage: 8000, time_to_full: Some(600) });
    assert_eq!(a.consola, "✅ Carga Suficiente (80%)");
    assert_eq!(
        a.cuerpo,
        "Nivel alcanzado: 80%. Desconecta el cargador para cuidar la vida útil. Faltan 10 min para el 100%."
    );
    assert_eq!(a.urgencia, Urgency::Normal);

    let a = aviso_para(&AlertEvent::ChargerConnected);
    assert_eq!((a.titulo.as_str(), a.cuerpo.as_str()), ("Energía", "Cargador conectado al sistema"));
    assert_eq!(a.consola, "🔌 Cargador Conectado");
    let a = aviso_para(&AlertEvent::ChargerDisconnected);
    assert_eq!(a.cuerpo, "Usando energía de la batería");
    assert_eq!(a.sonido, AudioEvent::Disconnected);
}
