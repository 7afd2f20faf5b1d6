# battery-assistant

A battery watcher for Linux: it announces when the charger is plugged in or
out, when the battery runs low and when it is charged enough, with a desktop
notification and a sound.

- `src/` is the verified library (Verus): the per-battery alert state machine
  (`battery::monitor`), configuration validation (`config`), the polling round
  over all batteries and the schedule of the rounds (`assistant`), the text and
  sound of each announcement (`alerts`), the notification request
  (`notification`), and small rules (`monitor`, `logging`, `battery::service`).
  Percentages are fixed-point hundredths, instants are nanoseconds of a
  monotonic clock (`clock`).
- `app/` is the program around it: the tokio main loop with the UPower D-Bus
  signal, sysfs battery reading, the TOML file, notifications, audio, logging.

## Configuration

`~/.config/battery-assistant/config.toml`:

```toml
low_threshold = 20      # or umbral_baja
high_threshold = 80     # or umbral_alta
cooldown_secs = 60      # or cooldown_segundos
volume = 1.0
```

Thresholds outside 0..=100 or not in increasing order are both replaced by the
defaults, a zero cooldown by 60 s, and the volume is clamped to 0..=1.

The four sounds (`conectado.mp3`, `desconectado.mp3`, `baja.mp3`,
`cargada.mp3`) are read from `$XDG_DATA_HOME/battery-assistant/sounds`
(or `~/.local/share/battery-assistant/sounds`).
