//! What is shown and played for each alert event.
use crate::audio::AudioEvent;
use crate::battery::monitor::AlertEvent;
use crate::notification::Urgency;
use vstd::prelude::*;
use vstd::string::*;

verus! {

/// The decimal digit `d` (0..=9).
pub open spec fn digit_char(d: nat) -> char {
    if d == 0 {
        '0'
    } else if d == 1 {
        '1'
    } else if d == 2 {
        '2'
    } else if d == 3 {
        '3'
    } else if d == 4 {
        '4'
    } else if d == 5 {
        '5'
    } else if d == 6 {
        '6'
    } else if d == 7 {
        '7'
    } else if d == 8 {
        '8'
    } else {
        '9'
    }
}

/// `n` written in decimal, without leading zeros.
pub open spec fn decimal(n: nat) -> Seq<char>
    decreases n,
{
    if n < 10 {
        seq![digit_char(n)]
    } else {
        decimal(n / 10).push(digit_char(n % 10))
    }
}

/// `n / unit` rounded to the nearest whole number, a tie going to the even one.
pub open spec fn round_half_even(n: nat, unit: nat) -> nat {
    let q = n / unit;
    let r = n % unit;
    if 2 * r > unit {
        q + 1
    } else if 2 * r < unit {
        q
    } else if q % 2 == 0 {
        q
    } else {
        q + 1
    }
}

/// A percentage given in hundredths, shown as a whole number of percent
/// (rounded half to even); a negative value keeps its minus sign even when it
/// rounds to zero ("-0").
pub open spec fn percent_text(hundredths: int) -> Seq<char> {
    if hundredths < 0 {
        seq!['-'] + decimal(round_half_even((-hundredths) as nat, 100))
    } else {
        decimal(round_half_even(hundredths as nat, 100))
    }
}

/// A number of seconds shown as a whole number of minutes.
pub open spec fn minutes_text(secs: nat) -> Seq<char> {
    decimal(round_half_even(secs, 60))
}

pub open spec fn notice_title(event: AlertEvent) -> Seq<char> {
    match event {
        AlertEvent::ChargerConnected => "Power"@,
        AlertEvent::ChargerDisconnected => "Power"@,
        AlertEvent::LowBattery { .. } => "Low Battery"@,
        AlertEvent::HighBattery { .. } => "Battery Full"@,
    }
}

/// The remaining-time part of a low-battery message.
pub open spec fn remaining_text(time_to_empty: Option<u64>) -> Seq<char> {
    match time_to_empty {
        Some(secs) => " Estimated "@ + minutes_text(secs as nat) + " min remaining."@,
        None => Seq::<char>::empty(),
    }
}

/// The time-to-full part of a charged-battery message; a zero estimate is not shown.
pub open spec fn eta_text(time_to_full: Option<u64>) -> Seq<char> {
    match time_to_full {
        Some(secs) => if secs > 0 {
            " "@ + minutes_text(secs as nat) + " min to full."@
        } else {
            Seq::<char>::empty()
        },
        None => Seq::<char>::empty(),
    }
}

pub open spec fn notice_body(event: AlertEvent) -> Seq<char> {
    match event {
        AlertEvent::ChargerConnected => "Charger connected"@,
        AlertEvent::ChargerDisconnected => "Running on battery power"@,
        AlertEvent::LowBattery { percentage, time_to_empty } => "Critical level: "@ + percent_text(
            percentage as int,
        ) + "%. Connect the charger."@ + remaining_text(time_to_empty),
        AlertEvent::HighBattery { percentage, time_to_full } => "Level reached: "@ + percent_text(
            percentage as int,
        ) + "%. Unplug to preserve battery life."@ + eta_text(time_to_full),
    }
}

pub open spec fn notice_urgency(event: AlertEvent) -> Urgency {
    match event {
        AlertEvent::LowBattery { .. } => Urgency::Critical,
        _ => Urgency::Normal,
    }
}

pub open spec fn notice_sound(event: AlertEvent) -> AudioEvent {
    match event {
        AlertEvent::ChargerConnected => AudioEvent::Connected,
        AlertEvent::ChargerDisconnected => AudioEvent::Disconnected,
        AlertEvent::LowBattery { .. } => AudioEvent::LowBattery,
        AlertEvent::HighBattery { .. } => AudioEvent::HighBattery,
    }
}

/// Half-to-even rounding gives the nearest whole number: `round_half_even(n, unit)`
/// times `unit` is at most half a unit away from `n`, and on a tie it is even.
pub proof fn lemma_round_half_even_is_nearest(n: nat, unit: nat)
    requires
        unit > 0,
    ensures
        ({
            let r = round_half_even(n, unit) as int;
            let gap = n - r * unit;
            &&& -unit <= 2 * gap <= unit
            &&& (2 * gap == unit || 2 * gap == -unit) ==> r % 2 == 0
        }),
{
    let q = (n / unit) as int;
    let rem = (n % unit) as int;
    vstd::arithmetic::div_mod::lemma_fundamental_div_mod(n as int, unit as int);
    assert((q + 1) * unit == q * unit + unit) by (nonlinear_arith);
}

/// What each event announces: only a low battery is critical; each event plays
/// its own sound and has its own title.
pub proof fn lemma_notice_kinds(event: AlertEvent)
    ensures
        notice_urgency(event) == Urgency::Critical <==> event is LowBattery,
        event is ChargerConnected ==> notice_sound(event) == AudioEvent::Connected
            && notice_body(event) == "Charger connected"@,
        event is ChargerDisconnected ==> notice_sound(event) == AudioEvent::Disconnected
            && notice_body(event) == "Running on battery power"@,
        event is LowBattery ==> notice_sound(event) == AudioEvent::LowBattery && notice_title(event)
            == "Low Battery"@,
        event is HighBattery ==> notice_sound(event) == AudioEvent::HighBattery && notice_title(
            event,
        ) == "Battery Full"@,
{
}

/// A desktop notification and a sound that announce one alert event.
pub struct Notice {
    pub title: String,
    pub body: String,
    pub urgency: Urgency,
    pub sound: AudioEvent,
}

/// The notification and the sound for an alert event.
pub fn notice_for(event: &AlertEvent) -> (notice: Notice)
    ensures
        notice.title@ == notice_title(*event),
        notice.body@ == notice_body(*event),
        notice.urgency == notice_urgency(*event),
        notice.sound == notice_sound(*event),
{
    match *event {
        AlertEvent::ChargerConnected => Notice {
            title: String::from_str("Power"),
            body: String::from_str("Charger connected"),
            urgency: Urgency::Normal,
            sound: AudioEvent::Connected,
        },
        AlertEvent::ChargerDisconnected => Notice {
            title: String::from_str("Power"),
            body: String::from_str("Running on battery power"),
            urgency: Urgency::Normal,
            sound: AudioEvent::Disconnected,
        },
        AlertEvent::LowBattery { percentage, time_to_empty } => {
            let mut body = String::from_str("Critical level: ");
            append_percent(&mut body, percentage);
            body.append("%. Connect the charger.");
            match time_to_empty {
                Some(secs) => {
                    body.append(" Estimated ");
                    append_decimal(&mut body, round_half_even_exec(secs, 60));
                    body.append(" min remaining.");
                },
                None => {},
            }
            proof {
                assert(body@ =~= notice_body(*event));
            }
            Notice {
                title: String::from_str("Low Battery"),
                body,
                urgency: Urgency::Critical,
                sound: AudioEvent::LowBattery,
            }
        },
        AlertEvent::HighBattery { percentage, time_to_full } => {
            let mut body = String::from_str("Level reached: ");
            append_percent(&mut body, percentage);
            body.append("%. Unplug to preserve battery life.");
            match time_to_full {
                Some(secs) => {
                    if secs > 0 {
                        body.append(" ");
                        append_decimal(&mut body, round_half_even_exec(secs, 60));
                        body.append(" min to full.");
                    }
                },
                None => {},
            }
            proof {
                assert(body@ =~= notice_body(*event));
            }
            Notice {
                title: String::from_str("Battery Full"),
                body,
                urgency: Urgency::Normal,
                sound: AudioEvent::HighBattery,
            }
        },
    }
}

/// `n / unit` rounded half to even.
pub(crate) fn round_half_even_exec(n: u64, unit: u64) -> (r: u64)
    requires
        unit >= 2,
    ensures
        r == round_half_even(n as nat, unit as nat),
{
    let q = n / unit;
    let rem = n % unit;
    proof {
        vstd::arithmetic::div_mod::lemma_div_is_ordered_by_denominator(n as int, 2, unit as int);
    }
    if rem > unit - rem {
        q + 1
    } else if rem < unit - rem {
        q
    } else if q % 2 == 0 {
        q
    } else {
        q + 1
    }
}

/// The one-character string of the digit `d`.
fn digit_str(d: u64) -> (s: &'static str)
    requires
        d < 10,
    ensures
        s@ == seq![digit_char(d as nat)],
{
    if d == 0 {
        proof {
            reveal_strlit("0");
        }
        "0"
    } else if d == 1 {
        proof {
            reveal_strlit("1");
        }
        "1"
    } else if d == 2 {
        proof {
            reveal_strlit("2");
        }
        "2"
    } else if d == 3 {
        proof {
            reveal_strlit("3");
        }
        "3"
    } else if d == 4 {
        proof {
            reveal_strlit("4");
        }
        "4"
    } else if d == 5 {
        proof {
            reveal_strlit("5");
        }
        "5"
    } else if d == 6 {
        proof {
            reveal_strlit("6");
        }
        "6"
    } else if d == 7 {
        proof {
            reveal_strlit("7");
        }
        "7"
    } else if d == 8 {
        proof {
            reveal_strlit("8");
        }
        "8"
    } else {
        proof {
            reveal_strlit("9");
        }
        "9"
    }
}

/// Appends `n` in decimal.
pub(crate) fn append_decimal(s: &mut String, n: u64)
    ensures
        final(s)@ == old(s)@ + decimal(n as nat),
    decreases n,
{
    if n >= 10 {
        append_decimal(s, n / 10);
    }
    s.append(digit_str(n % 10));
    proof {
        if n >= 10 {
            assert(old(s)@ + decimal(n as nat) =~= old(s)@ + decimal((n / 10) as nat) + seq![
                digit_char((n % 10) as nat),
            ]);
        } else {
            assert(old(s)@ + decimal(n as nat) =~= old(s)@ + seq![digit_char((n % 10) as nat)]);
        }
    }
}

/// Appends a percentage given in hundredths as a whole number of percent.
pub(crate) fn append_percent(s: &mut String, hundredths: i64)
    ensures
        final(s)@ == old(s)@ + percent_text(hundredths as int),
{
    if hundredths >= 0 {
        append_decimal(s, round_half_even_exec(hundredths as u64, 100));
    } else {
        let magnitude = (-(hundredths as i128)) as u64;
        let r = round_half_even_exec(magnitude, 100);
        proof {
            reveal_strlit("-");
        }
        s.append("-");
        append_decimal(s, r);
        proof {
            assert(old(s)@ + percent_text(hundredths as int) =~= final(s)@);
        }
    }
}

} // verus!
