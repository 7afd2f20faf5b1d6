//! A battery monitor that announces in Spanish, with its threshold and cooldown rules.
use crate::alerts::{
    append_decimal, append_percent, minutes_text, percent_text, round_half_even_exec,
};
use crate::audio::AudioEvent;
use crate::battery::monitor::{
    alerts_high, alerts_low, cooldown_over, elapsed, has_high_alert, has_low_alert,
    lemma_check_levels_shape, lemma_level_events_carry_the_reading, sleep_secs, AlertEvent, MonitorConfig, MonitorView, NANOS_PER_SEC,
};
use crate::battery::types::{BatteryData, BatteryState};
use crate::notification::Urgency;
use vstd::prelude::*;
use vstd::string::*;

verus! {

/// `true` when no alert was given yet or at least `cooldown` nanoseconds
/// separate `ultimo_aviso` from `ahora` (an earlier `ahora` counts as no time passed).
pub fn cooldown_vencido(ultimo_aviso: Option<u128>, ahora: u128, cooldown: u128) -> (r: bool)
    ensures
        r == cooldown_over(ultimo_aviso, ahora, cooldown),
{
    match ultimo_aviso {
        None => true,
        Some(instante) => ahora.saturating_sub(instante) >= cooldown,
    }
}

/// `true` when the battery discharges at or below `umbral_baja` (inclusive).
pub fn debe_alertar_baja(estado: BatteryState, porcentaje: i64, umbral_baja: i64) -> (r: bool)
    ensures
        r == alerts_low(estado, porcentaje as int, umbral_baja as int),
{
    estado == BatteryState::Discharging && porcentaje <= umbral_baja
}

/// `true` when the battery charges or is full at or above `umbral_alta` (inclusive).
pub fn debe_alertar_alta(estado: BatteryState, porcentaje: i64, umbral_alta: i64) -> (r: bool)
    ensures
        r == alerts_high(estado, porcentaje as int, umbral_alta as int),
{
    (estado == BatteryState::Charging || estado == BatteryState::Full) && porcentaje >= umbral_alta
}

/// Settings of the Spanish-language monitor: thresholds in hundredths of a
/// percent and the cooldown in seconds.
#[derive(Debug, Clone, Copy, PartialEq, Eq, Structural)]
pub struct ConfigApp {
    pub umbral_baja: i64,
    pub umbral_alta: i64,
    pub cooldown_segundos: u64,
}

/// The state of a `MonitorBateria`, as the contracts speak of it.
pub struct MonitorBateriaView {
    pub estado_anterior: BatteryState,
    pub ultimo_aviso_baja: Option<u128>,
    pub ultimo_aviso_cargada: Option<u128>,
    pub umbral_baja: i64,
    pub umbral_alta: i64,
    pub cooldown: u128,
}

impl MonitorBateriaView {
    /// After `inicializar`: the state is taken as it reads, and a level already past
    /// a threshold counts as announced at `ahora`.
    pub open spec fn inicializar(self, bateria: BatteryData, ahora: u128) -> MonitorBateriaView {
        MonitorBateriaView {
            estado_anterior: bateria.state,
            ultimo_aviso_baja: if bateria.percentage <= self.umbral_baja {
                Some(ahora)
            } else {
                self.ultimo_aviso_baja
            },
            ultimo_aviso_cargada: if bateria.percentage >= self.umbral_alta {
                Some(ahora)
            } else {
                self.ultimo_aviso_cargada
            },
            ..self
        }
    }

    /// A change of the charger's state, with whether it takes priority over the
    /// level checks: any change to charging does (and clears the low-battery
    /// cooldown), but is announced only after discharging or an unknown state;
    /// a change to discharging after charging or full is announced.
    pub open spec fn cambio_estado(self, estado: BatteryState) -> (MonitorBateriaView, bool, Option<
        AlertEvent,
    >) {
        if estado == BatteryState::Charging {
            (
                MonitorBateriaView { ultimo_aviso_baja: None, ..self },
                true,
                if self.estado_anterior == BatteryState::Discharging || self.estado_anterior
                    == BatteryState::Unknown {
                    Some(AlertEvent::ChargerConnected)
                } else {
                    None
                },
            )
        } else if estado == BatteryState::Discharging && (self.estado_anterior
            == BatteryState::Charging || self.estado_anterior == BatteryState::Full) {
            (
                MonitorBateriaView { ultimo_aviso_cargada: None, ..self },
                true,
                Some(AlertEvent::ChargerDisconnected),
            )
        } else {
            (self, false, None)
        }
    }

    /// The same state seen as a `BatteryMonitor`, whose level check this monitor shares.
    pub open spec fn as_monitor(self) -> MonitorView {
        MonitorView {
            previous_state: self.estado_anterior,
            last_low_alert: self.ultimo_aviso_baja,
            last_high_alert: self.ultimo_aviso_cargada,
            config: MonitorConfig {
                low_threshold: self.umbral_baja,
                high_threshold: self.umbral_alta,
                cooldown: self.cooldown,
            },
            initialized: true,
        }
    }

    /// The level alerts of one reading, each at most once per cooldown.
    pub open spec fn verificar_niveles(self, bateria: BatteryData, ahora: u128) -> (
        MonitorBateriaView,
        Seq<AlertEvent>,
    ) {
        let monitor = self.as_monitor();
        let checked = monitor.check_levels(bateria, ahora);
        (
            MonitorBateriaView {
                ultimo_aviso_baja: checked.0.last_low_alert,
                ultimo_aviso_cargada: checked.0.last_high_alert,
                ..self
            },
            checked.1,
        )
    }

    /// One cycle: a change of the charger's state (an unknown reading is none)
    /// comes first; the levels are checked only when the change took no priority.
    pub open spec fn ciclo(self, bateria: BatteryData, ahora: u128) -> (
        MonitorBateriaView,
        Seq<AlertEvent>,
    ) {
        if bateria.state != BatteryState::Unknown && bateria.state != self.estado_anterior {
            let cambio = self.cambio_estado(bateria.state);
            let siguiente = MonitorBateriaView { estado_anterior: bateria.state, ..cambio.0 };
            let anunciado = match cambio.2 {
                Some(e) => seq![e],
                None => Seq::<AlertEvent>::empty(),
            };
            if cambio.1 {
                (siguiente, anunciado)
            } else {
                siguiente.verificar_niveles(bateria, ahora)
            }
        } else {
            self.verificar_niveles(bateria, ahora)
        }
    }
}

/// Manages the state and the alerts of one battery, announcing in Spanish.
#[derive(Debug, Clone, Copy)]
pub struct MonitorBateria {
    estado_anterior: BatteryState,
    ultimo_aviso_baja: Option<u128>,
    ultimo_aviso_cargada: Option<u128>,
    umbral_baja: i64,
    umbral_alta: i64,
    cooldown: u128,
}

impl View for MonitorBateria {
    type V = MonitorBateriaView;

    closed spec fn view(&self) -> MonitorBateriaView {
        MonitorBateriaView {
            estado_anterior: self.estado_anterior,
            ultimo_aviso_baja: self.ultimo_aviso_baja,
            ultimo_aviso_cargada: self.ultimo_aviso_cargada,
            umbral_baja: self.umbral_baja,
            umbral_alta: self.umbral_alta,
            cooldown: self.cooldown,
        }
    }
}

impl MonitorBateria {
    pub fn new(config: ConfigApp) -> (m: Self)
        ensures
            m@ == (MonitorBateriaView {
                estado_anterior: BatteryState::Unknown,
                ultimo_aviso_baja: None,
                ultimo_aviso_cargada: None,
                umbral_baja: config.umbral_baja,
                umbral_alta: config.umbral_alta,
                cooldown: (config.cooldown_segundos * NANOS_PER_SEC) as u128,
            }),
    {
        MonitorBateria {
            estado_anterior: BatteryState::Unknown,
            ultimo_aviso_baja: None,
            ultimo_aviso_cargada: None,
            umbral_baja: config.umbral_baja,
            umbral_alta: config.umbral_alta,
            cooldown: (config.cooldown_segundos as u128) * NANOS_PER_SEC,
        }
    }

    /// Takes the state read at start-up; a level already past a threshold counts
    /// as announced at `ahora`, so that start-up brings no alert before the cooldown.
    pub fn inicializar(&mut self, bateria: &BatteryData, ahora: u128)
        ensures
            final(self)@ == old(self)@.inicializar(*bateria, ahora),
    {
        self.estado_anterior = bateria.state;
        if bateria.percentage <= self.umbral_baja {
            self.ultimo_aviso_baja = Some(ahora);
        }
        if bateria.percentage >= self.umbral_alta {
            self.ultimo_aviso_cargada = Some(ahora);
        }
    }

    /// Evaluates one reading taken at `ahora`; returns what to announce (see `aviso_para`).
    pub fn procesar_ciclo(&mut self, bateria: &BatteryData, ahora: u128) -> (eventos: Vec<
        AlertEvent,
    >)
        ensures
            final(self)@ == old(self)@.ciclo(*bateria, ahora).0,
            eventos@ == old(self)@.ciclo(*bateria, ahora).1,
    {
        let estado_actual = bateria.state;
        let mut eventos: Vec<AlertEvent> = Vec::new();
        let mut hubo_evento_prioritario = false;
        if estado_actual != BatteryState::Unknown && estado_actual != self.estado_anterior {
            let (prioritario, evento) = self.manejar_cambio_estado(estado_actual);
            hubo_evento_prioritario = prioritario;
            if let Some(e) = evento {
                eventos.push(e);
            }
            self.estado_anterior = estado_actual;
        }
        if !hubo_evento_prioritario {
            eventos = self.verificar_niveles(bateria, ahora);
        }
        proof {
            assert(eventos@ =~= old(self)@.ciclo(*bateria, ahora).1);
        }
        eventos
    }

    /// Seconds to wait before the next reading: 5 within 3 percentage points of a
    /// threshold (or past it), 30 otherwise.
    pub fn tiempo_espera_dinamico(&self, bateria: &BatteryData) -> (segundos: u64)
        ensures
            segundos == sleep_secs(
                MonitorConfig {
                    low_threshold: self@.umbral_baja,
                    high_threshold: self@.umbral_alta,
                    cooldown: self@.cooldown,
                },
                bateria.percentage as int,
            ),
    {
        let porcentaje = bateria.percentage as i128;
        if porcentaje <= self.umbral_baja as i128 + 300 || porcentaje >= self.umbral_alta as i128
            - 300 {
            5
        } else {
            30
        }
    }

    fn manejar_cambio_estado(&mut self, estado: BatteryState) -> (r: (bool, Option<AlertEvent>))
        ensures
            final(self)@ == old(self)@.cambio_estado(estado).0,
            r.0 == old(self)@.cambio_estado(estado).1,
            r.1 == old(self)@.cambio_estado(estado).2,
    {
        if estado == BatteryState::Charging {
            let anunciar = self.estado_anterior == BatteryState::Discharging || self.estado_anterior
                == BatteryState::Unknown;
            self.ultimo_aviso_baja = None;
            (
                true,
                if anunciar {
                    Some(AlertEvent::ChargerConnected)
                } else {
                    None
                },
            )
        } else if estado == BatteryState::Discharging && (self.estado_anterior
            == BatteryState::Charging || self.estado_anterior == BatteryState::Full) {
            self.ultimo_aviso_cargada = None;
            (true, Some(AlertEvent::ChargerDisconnected))
        } else {
            (false, None)
        }
    }

    fn verificar_niveles(&mut self, bateria: &BatteryData, ahora: u128) -> (eventos: Vec<
        AlertEvent,
    >)
        ensures
            final(self)@ == old(self)@.verificar_niveles(*bateria, ahora).0,
            eventos@ == old(self)@.verificar_niveles(*bateria, ahora).1,
    {
        let mut eventos: Vec<AlertEvent> = Vec::new();
        if debe_alertar_baja(bateria.state, bateria.percentage, self.umbral_baja) {
            if self.debe_avisar(self.ultimo_aviso_baja, ahora) {
                eventos.push(
                    AlertEvent::LowBattery {
                        percentage: bateria.percentage,
                        time_to_empty: bateria.time_to_empty,
                    },
                );
                self.ultimo_aviso_baja = Some(ahora);
            }
        } else if bateria.state == BatteryState::Charging {
            self.ultimo_aviso_baja = None;
        }
        if debe_alertar_alta(bateria.state, bateria.percentage, self.umbral_alta) {
            if self.debe_avisar(self.ultimo_aviso_cargada, ahora) {
                eventos.push(
                    AlertEvent::HighBattery {
                        percentage: bateria.percentage,
                        time_to_full: bateria.time_to_full,
                    },
                );
                self.ultimo_aviso_cargada = Some(ahora);
            }
        } else if bateria.state == BatteryState::Discharging {
            self.ultimo_aviso_cargada = None;
        }
        proof {
            assert(eventos@ =~= old(self)@.verificar_niveles(*bateria, ahora).1);
        }
        eventos
    }

    /// Whether the cooldown since `ultimo_aviso` is over at `ahora`.
    fn debe_avisar(&self, ultimo_aviso: Option<u128>, ahora: u128) -> (r: bool)
        ensures
            r == cooldown_over(ultimo_aviso, ahora, self@.cooldown),
    {
        cooldown_vencido(ultimo_aviso, ahora, self.cooldown)
    }
}

/// What is printed, shown and played for one event, in Spanish.
pub struct Aviso {
    /// The line printed on the console.
    pub consola: String,
    pub titulo: String,
    pub cuerpo: String,
    pub urgencia: Urgency,
    pub sonido: AudioEvent,
}

/// The remaining-time part of a low-battery message.
pub open spec fn texto_restante(tiempo: Option<u64>) -> Seq<char> {
    match tiempo {
        Some(segundos) => " Tiempo estimado restante: "@ + minutes_text(segundos as nat) + " min."@,
        None => Seq::<char>::empty(),
    }
}

/// The time-to-full part of a charged-battery message; a zero estimate is not shown.
pub open spec fn texto_para_llenar(tiempo: Option<u64>) -> Seq<char> {
    match tiempo {
        Some(segundos) => if segundos > 0 {
            " Faltan "@ + minutes_text(segundos as nat) + " min para el 100%."@
        } else {
            Seq::<char>::empty()
        },
        None => Seq::<char>::empty(),
    }
}

pub open spec fn consola_de(evento: AlertEvent) -> Seq<char> {
    match evento {
        AlertEvent::ChargerConnected => "🔌 Cargador Conectado"@,
        AlertEvent::ChargerDisconnected => "🔋 Cargador Desconectado"@,
        AlertEvent::LowBattery { percentage, .. } => "⚠️ Batería Crítica ("@ + percent_text(
            percentage as int,
        ) + "%)"@,
        AlertEvent::HighBattery { percentage, .. } => "✅ Carga Suficiente ("@ + percent_text(
            percentage as int,
        ) + "%)"@,
    }
}

pub open spec fn titulo_de(evento: AlertEvent) -> Seq<char> {
    match evento {
        AlertEvent::ChargerConnected => "Energía"@,
        AlertEvent::ChargerDisconnected => "Energía"@,
        AlertEvent::LowBattery { .. } => "Batería Baja"@,
        AlertEvent::HighBattery { .. } => "Carga Suficiente"@,
    }
}

pub open spec fn cuerpo_de(evento: AlertEvent) -> Seq<char> {
    match evento {
        AlertEvent::ChargerConnected => "Cargador conectado al sistema"@,
        AlertEvent::ChargerDisconnected => "Usando energía de la batería"@,
        AlertEvent::LowBattery { percentage, time_to_empty } => "Nivel crítico: "@ + percent_text(
            percentage as int,
        ) + "%. Conecta el cargador."@ + texto_restante(time_to_empty),
        AlertEvent::HighBattery { percentage, time_to_full } => "Nivel alcanzado: "@
            + percent_text(percentage as int)
            + "%. Desconecta el cargador para cuidar la vida útil."@ + texto_para_llenar(
            time_to_full,
        ),
    }
}

/// The console line, notification and sound of an event, in Spanish.
pub fn aviso_para(evento: &AlertEvent) -> (aviso: Aviso)
    ensures
        aviso.consola@ == consola_de(*evento),
        aviso.titulo@ == titulo_de(*evento),
        aviso.cuerpo@ == cuerpo_de(*evento),
        aviso.urgencia == (if *evento is LowBattery {
            Urgency::Critical
        } else {
            Urgency::Normal
        }),
        aviso.sonido == crate::alerts::notice_sound(*evento),
{
    match *evento {
        AlertEvent::ChargerConnected => Aviso {
            consola: String::from_str("🔌 Cargador Conectado"),
            titulo: String::from_str("Energía"),
            cuerpo: String::from_str("Cargador conectado al sistema"),
            urgencia: Urgency::Normal,
            sonido: AudioEvent::Connected,
        },
        AlertEvent::ChargerDisconnected => Aviso {
            consola: String::from_str("🔋 Cargador Desconectado"),
            titulo: String::from_str("Energía"),
            cuerpo: String::from_str("Usando energía de la batería"),
            urgencia: Urgency::Normal,
            sonido: AudioEvent::Disconnected,
        },
        AlertEvent::LowBattery { percentage, time_to_empty } => {
            let mut consola = String::from_str("⚠️ Batería Crítica (");
            append_percent(&mut consola, percentage);
            consola.append("%)");
            let mut cuerpo = String::from_str("Nivel crítico: ");
            append_percent(&mut cuerpo, percentage);
            cuerpo.append("%. Conecta el cargador.");
            match time_to_empty {
                Some(segundos) => {
                    cuerpo.append(" Tiempo estimado restante: ");
                    append_decimal(&mut cuerpo, round_half_even_exec(segundos, 60));
                    cuerpo.append(" min.");
                },
                None => {},
            }
            proof {
                assert(consola@ =~= consola_de(*evento));
                assert(cuerpo@ =~= cuerpo_de(*evento));
            }
            Aviso {
                consola,
                titulo: String::from_str("Batería Baja"),
                cuerpo,
                urgencia: Urgency::Critical,
                sonido: AudioEvent::LowBattery,
            }
        },
        AlertEvent::HighBattery { percentage, time_to_full } => {
            let mut consola = String::from_str("✅ Carga Suficiente (");
            append_percent(&mut consola, percentage);
            consola.append("%)");
            let mut cuerpo = String::from_str("Nivel alcanzado: ");
            append_percent(&mut cuerpo, percentage);
            cuerpo.append("%. Desconecta el cargador para cuidar la vida útil.");
            match time_to_full {
                Some(segundos) => {
                    if segundos > 0 {
                        cuerpo.append(" Faltan ");
                        append_decimal(&mut cuerpo, round_half_even_exec(segundos, 60));
                        cuerpo.append(" min para el 100%.");
                    }
                },
                None => {},
            }
            proof {
                assert(consola@ =~= consola_de(*evento));
                assert(cuerpo@ =~= cuerpo_de(*evento));
            }
            Aviso {
                consola,
                titulo: String::from_str("Carga Suficiente"),
                cuerpo,
                urgencia: Urgency::Normal,
                sonido: AudioEvent::HighBattery,
            }
        },
    }
}

/// Plugging in takes priority: a reading that switches to charging gives no
/// level alert, and clears the low-battery cooldown.
pub proof fn lemma_cambio_a_carga_tiene_prioridad(
    m: MonitorBateriaView,
    bateria: BatteryData,
    ahora: u128,
)
    requires
        bateria.state == BatteryState::Charging,
        m.estado_anterior != BatteryState::Charging,
    ensures
        !has_low_alert(m.ciclo(bateria, ahora).1),
        !has_high_alert(m.ciclo(bateria, ahora).1),
        m.ciclo(bateria, ahora).0.ultimo_aviso_baja is None,
        m.ciclo(bateria, ahora).0.estado_anterior == BatteryState::Charging,
{
    lemma_ciclo_shape(m, bateria, ahora);
}

/// While the last low-battery alert is less than a cooldown old, no cycle gives
/// another one.
pub proof fn lemma_aviso_baja_respeta_cooldown(m: MonitorBateriaView, bateria: BatteryData, ahora: u128)
    requires
        m.ultimo_aviso_baja is Some,
        elapsed(m.ultimo_aviso_baja->0, ahora) < m.cooldown,
    ensures
        !has_low_alert(m.ciclo(bateria, ahora).1),
{
    lemma_ciclo_shape(m, bateria, ahora);
}

/// A level alert of a cycle comes from the level check with its cooldown over; a
/// change of state that takes priority gives no level alert.
proof fn lemma_ciclo_shape(m: MonitorBateriaView, bateria: BatteryData, ahora: u128)
    ensures
        has_low_alert(m.ciclo(bateria, ahora).1) ==> cooldown_over(
            m.ultimo_aviso_baja,
            ahora,
            m.cooldown,
        ),
        has_low_alert(m.ciclo(bateria, ahora).1) || has_high_alert(m.ciclo(bateria, ahora).1)
            ==> !(bateria.state != BatteryState::Unknown && bateria.state != m.estado_anterior
            && m.cambio_estado(bateria.state).1),
{
    let r = m.ciclo(bateria, ahora);
    if bateria.state != BatteryState::Unknown && bateria.state != m.estado_anterior {
        let cambio = m.cambio_estado(bateria.state);
        let siguiente = MonitorBateriaView { estado_anterior: bateria.state, ..cambio.0 };
        if cambio.1 {
            if r.1.len() > 0 {
                assert(r.1[0] is ChargerConnected || r.1[0] is ChargerDisconnected);
            }
            assert(!has_low_alert(r.1));
            assert(!has_high_alert(r.1));
        } else {
            lemma_check_levels_shape(siguiente.as_monitor(), bateria, ahora);
        }
    } else {
        lemma_check_levels_shape(m.as_monitor(), bateria, ahora);
    }
}

/// Charger changes: plugging in after discharging or an unknown state gives
/// exactly the connection event, and plugging in after full gives nothing; both
/// clear the low-battery cooldown. Unplugging after charging or full gives
/// exactly the disconnection event and clears the charged-battery cooldown.
pub proof fn lemma_cambios_de_cargador_anunciados(
    m: MonitorBateriaView,
    bateria: BatteryData,
    ahora: u128,
)
    ensures
        (m.estado_anterior == BatteryState::Discharging || m.estado_anterior
            == BatteryState::Unknown) && bateria.state == BatteryState::Charging ==> {
            &&& m.ciclo(bateria, ahora).1 == seq![AlertEvent::ChargerConnected]
            &&& m.ciclo(bateria, ahora).0.ultimo_aviso_baja is None
        },
        m.estado_anterior == BatteryState::Full && bateria.state == BatteryState::Charging ==> {
            &&& m.ciclo(bateria, ahora).1 == Seq::<AlertEvent>::empty()
            &&& m.ciclo(bateria, ahora).0.ultimo_aviso_baja is None
        },
        (m.estado_anterior == BatteryState::Charging || m.estado_anterior == BatteryState::Full)
            && bateria.state == BatteryState::Discharging ==> {
            &&& m.ciclo(bateria, ahora).1 == seq![AlertEvent::ChargerDisconnected]
            &&& m.ciclo(bateria, ahora).0.ultimo_aviso_cargada is None
        },
{
}

/// Every level alert carries the reading it was given for: a low-battery alert
/// its percentage and time to empty, a charged-battery alert its percentage and
/// time to full.
pub proof fn lemma_avisos_llevan_la_lectura(m: MonitorBateriaView, bateria: BatteryData, ahora: u128)
    ensures
        forall|i: int|
            0 <= i < m.ciclo(bateria, ahora).1.len() ==> match #[trigger] m.ciclo(
                bateria,
                ahora,
            ).1[i] {
                AlertEvent::LowBattery { percentage, time_to_empty } => percentage
                    == bateria.percentage && time_to_empty == bateria.time_to_empty,
                AlertEvent::HighBattery { percentage, time_to_full } => percentage
                    == bateria.percentage && time_to_full == bateria.time_to_full,
                _ => true,
            },
{
    let r = m.ciclo(bateria, ahora);
    assert forall|i: int| 0 <= i < r.1.len() implies match #[trigger] r.1[i] {
        AlertEvent::LowBattery { percentage, time_to_empty } => percentage == bateria.percentage
            && time_to_empty == bateria.time_to_empty,
        AlertEvent::HighBattery { percentage, time_to_full } => percentage == bateria.percentage
            && time_to_full == bateria.time_to_full,
        _ => true,
    } by {
        if bateria.state != BatteryState::Unknown && bateria.state != m.estado_anterior {
            let cambio = m.cambio_estado(bateria.state);
            let siguiente = MonitorBateriaView { estado_anterior: bateria.state, ..cambio.0 };
            if cambio.1 {
                assert(r.1[i] is ChargerConnected || r.1[i] is ChargerDisconnected);
            } else {
                lemma_level_events_carry_the_reading(siguiente.as_monitor(), bateria, ahora, i);
            }
        } else {
            lemma_level_events_carry_the_reading(m.as_monitor(), bateria, ahora, i);
        }
    }
}

/// Once the cooldown is over it stays over: waiting longer never brings it back.
pub proof fn lemma_cooldown_stays_over(
    last_alert: Option<u128>,
    now: u128,
    later: u128,
    cooldown: u128,
)
    requires
        cooldown_over(last_alert, now, cooldown),
        now <= later,
    ensures
        cooldown_over(last_alert, later, cooldown),
{
}

} // verus!
