//! Configuration of the controller, validated at load time.
//!
//! The loosely-typed configuration file collapses here into explicit
//! structs with validated fields. A module's sensor channel is written as
//! hexadecimal bus address, a dash, and a decimal pin, like `"e8-3"`.
//! Invalid configuration is rejected before any worker starts.

use vstd::prelude::*;
use crate::calib::{CalibrationBounds, MAX_RAW, MOISTURE_SCALE};
use crate::errors::ConfigError;
use crate::model::{ModuleConfig, ModuleId};
use crate::schedule::{cron_valid, schedule_expression_valid};

verus! {

/// Credentials of the persistence backend.
#[derive(Clone, Debug)]
pub struct DbCredentials {
    /// Account name.
    pub username: String,
    /// Account secret.
    pub password: String,
    /// Database to write into.
    pub database: String,
}

/// Where one module's moisture sensor hangs: a converter on the shared
/// bus, and one of its analog inputs.
#[derive(Clone, Copy, Debug, PartialEq, Eq, Structural)]
pub struct MoistureChannel {
    /// Bus address of the converter device.
    pub i2c_address: u16,
    /// Analog input of the converter.
    pub analog_pin: u8,
}

/// A schedule-driven pump's configuration: a recurring expression, and how
/// long each run lasts.
#[derive(Clone, Debug)]
pub struct PumpSchedule {
    /// The recurring schedule expression.
    pub start: String,
    /// How long the pump stays on per run, in seconds.
    pub duration_seconds: u64,
}

/// A decimal digit.
pub open spec fn is_dec_digit(c: char) -> bool {
    48 <= c as u32 <= 57
}

/// A hexadecimal digit, either case.
pub open spec fn is_hex_digit(c: char) -> bool {
    is_dec_digit(c) || 97 <= c as u32 <= 102 || 65 <= c as u32 <= 70
}

/// The value of a digit character; zero on anything else.
pub open spec fn digit_val(c: char) -> int {
    if 48 <= c as u32 <= 57 {
        c as u32 - 48
    } else if 97 <= c as u32 <= 102 {
        c as u32 - 87
    } else if 65 <= c as u32 <= 70 {
        c as u32 - 55
    } else {
        0
    }
}

/// The value of a digit string in the given radix, most significant digit
/// first.
pub open spec fn val_radix(s: Seq<char>, radix: int) -> int
    decreases s.len(),
{
    if s.len() == 0 {
        0
    } else {
        val_radix(s.drop_last(), radix) * radix + digit_val(s.last())
    }
}

/// Position `d` holds the only dash of `s`.
pub open spec fn dash_at(s: Seq<char>, d: int) -> bool {
    &&& 0 <= d < s.len()
    &&& s[d] == '-'
    &&& forall|i: int| 0 <= i < s.len() && i != d ==> s[i] != '-'
}

/// Around the dash at `d`, `s` is a well-formed channel text: a nonempty
/// bus address in hexadecimal that fits sixteen bits, and a nonempty pin
/// in decimal that fits eight.
pub open spec fn channel_parts_ok(s: Seq<char>, d: int) -> bool {
    &&& 1 <= d
    &&& d + 1 < s.len()
    &&& (forall|i: int| 0 <= i < d ==> is_hex_digit(#[trigger] s[i]))
    &&& val_radix(s.take(d), 16) <= 0xffff
    &&& (forall|i: int| d < i < s.len() ==> is_dec_digit(#[trigger] s[i]))
    &&& val_radix(s.skip(d + 1), 10) <= 0xff
}

/// A well-formed channel text: hexadecimal address, one dash, decimal pin.
pub open spec fn valid_channel_text(s: Seq<char>) -> bool {
    exists|d: int| dash_at(s, d) && channel_parts_ok(s, d)
}

/// The value of a digit string never shrinks as digits are appended.
proof fn lemma_val_radix_prefix(s: Seq<char>, j: int, radix: int)
    requires
        0 <= j <= s.len(),
        radix >= 1,
    ensures
        0 <= val_radix(s.take(j), radix) <= val_radix(s, radix),
    decreases s.len(),
{
    if s.len() == 0 {
        assert(s.take(j) =~= s);
    } else if j == s.len() {
        assert(s.take(j) =~= s);
        lemma_val_radix_prefix(s.drop_last(), s.len() - 1, radix);
        let v = val_radix(s.drop_last(), radix);
        assert(v * radix >= v * 1) by (nonlinear_arith)
            requires
                v >= 0,
                radix >= 1,
        ;
    } else {
        lemma_val_radix_prefix(s.drop_last(), j, radix);
        assert(s.drop_last().take(j) =~= s.take(j));
        let v = val_radix(s.drop_last(), radix);
        assert(v * radix >= v * 1) by (nonlinear_arith)
            requires
                v >= 0,
                radix >= 1,
        ;
    }
}

/// Parse a channel text like `"e8-3"` into its bus address and pin.
/// Exactly the well-formed texts are accepted; anything else is the
/// configuration error, fatal at startup.
pub fn parse_moisture_channel(s: &str) -> (r: Result<MoistureChannel, ConfigError>)
    ensures
        r is Ok ==> valid_channel_text(s@),
        forall|d: int|
            dash_at(s@, d) && channel_parts_ok(s@, d) ==> r == Ok::<MoistureChannel, ConfigError>(
                MoistureChannel {
                    i2c_address: val_radix(s@.take(d), 16) as u16,
                    analog_pin: val_radix(s@.skip(d + 1), 10) as u8,
                },
            ),
        !valid_channel_text(s@) ==> r == Err::<MoistureChannel, ConfigError>(
            ConfigError::InvalidChannelSpec,
        ),
{
    let len = s.unicode_len();
    let mut dash: Option<usize> = None;
    let mut k: usize = 0;
    while k < len
        invariant
            k <= len,
            len == s@.len(),
            match dash {
                Some(d) => d < k && s@[d as int] == '-' && (forall|i: int|
                    0 <= i < k && i != d ==> s@[i] != '-'),
                None => forall|i: int| 0 <= i < k ==> s@[i] != '-',
            },
        decreases len - k,
    {
        let c = s.get_char(k);
        if c == '-' {
            match dash {
                Some(d) => {
                    proof {
                        assert forall|q: int| !(dash_at(s@, q) && channel_parts_ok(
                            s@,
                            q,
                        )) by {
                            if dash_at(s@, q) {
                                if q != d {
                                    assert(s@[d as int] == '-');
                                } else {
                                    assert(s@[k as int] == '-');
                                }
                            }
                        }
                    }
                    return Err(ConfigError::InvalidChannelSpec);
                },
                None => {
                    dash = Some(k);
                },
            }
        }
        k = k + 1;
    }
    let d = match dash {
        Some(d) => d,
        None => {
            proof {
                assert forall|q: int| !(dash_at(s@, q) && channel_parts_ok(s@, q)) by {}
            }
            return Err(ConfigError::InvalidChannelSpec);
        },
    };
    if d < 1 || d + 1 >= len {
        proof {
            assert forall|q: int| !(dash_at(s@, q) && channel_parts_ok(s@, q)) by {
                if dash_at(s@, q) && q != d {
                    assert(s@[d as int] == '-');
                }
            }
        }
        return Err(ConfigError::InvalidChannelSpec);
    }
    let ghost part_hex = s@.take(d as int);
    let mut address: u32 = 0;
    let mut i: usize = 0;
    while i < d
        invariant
            i <= d,
            d < len,
            len == s@.len(),
            part_hex == s@.take(d as int),
            s@[d as int] == '-',
            forall|q: int| 0 <= q < len && q != d ==> s@[q] != '-',
            forall|q: int| 0 <= q < i ==> is_hex_digit(#[trigger] s@[q]),
            address == val_radix(part_hex.take(i as int), 16),
            address <= 0xffff,
        decreases d - i,
    {
        let c = s.get_char(i);
        let u = c as u32;
        let dv: u32 = if 48 <= u && u <= 57 {
            u - 48
        } else if 97 <= u && u <= 102 {
            u - 87
        } else if 65 <= u && u <= 70 {
            u - 55
        } else {
            proof {
                assert(!is_hex_digit(s@[i as int]));
                assert forall|q: int| !(dash_at(s@, q) && channel_parts_ok(s@, q)) by {
                    if dash_at(s@, q) {
                        if q != d {
                            assert(s@[d as int] == '-');
                        }
                    }
                }
            }
            return Err(ConfigError::InvalidChannelSpec);
        };
        proof {
            assert(part_hex.take(i + 1).drop_last() =~= part_hex.take(i as int));
            assert(part_hex.take(i + 1).last() == s@[i as int]);
            assert(digit_val(s@[i as int]) == dv);
        }
        address = address * 16 + dv;
        i = i + 1;
        if address > 0xffff {
            proof {
                lemma_val_radix_prefix(part_hex, i as int, 16);
                assert forall|q: int| !(dash_at(s@, q) && channel_parts_ok(s@, q)) by {
                    if dash_at(s@, q) {
                        if q != d {
                            assert(s@[d as int] == '-');
                        } else {
                            assert(val_radix(s@.take(d as int), 16) > 0xffff);
                        }
                    }
                }
            }
            return Err(ConfigError::InvalidChannelSpec);
        }
    }
    proof {
        assert(part_hex.take(d as int) =~= part_hex);
    }
    let ghost part_dec = s@.skip(d + 1);
    let mut pin: u32 = 0;
    let mut j: usize = d + 1;
    while j < len
        invariant
            d + 1 <= j <= len,
            d < len,
            len == s@.len(),
            part_dec == s@.skip(d + 1),
            s@[d as int] == '-',
            forall|q: int| 0 <= q < len && q != d ==> s@[q] != '-',
            forall|q: int| d < q < j ==> is_dec_digit(#[trigger] s@[q]),
            pin == val_radix(part_dec.take(j - d - 1), 10),
            pin <= 0xff,
        decreases len - j,
    {
        let c = s.get_char(j);
        let u = c as u32;
        let dv: u32 = if 48 <= u && u <= 57 {
            u - 48
        } else {
            proof {
                assert(!is_dec_digit(s@[j as int]));
                assert forall|q: int| !(dash_at(s@, q) && channel_parts_ok(s@, q)) by {
                    if dash_at(s@, q) {
                        if q != d {
                            assert(s@[d as int] == '-');
                        }
                    }
                }
            }
            return Err(ConfigError::InvalidChannelSpec);
        };
        proof {
            assert(part_dec.take(j - d).drop_last() =~= part_dec.take(j - d - 1));
            assert(part_dec.take(j - d).last() == s@[j as int]);
            assert(digit_val(s@[j as int]) == dv);
        }
        pin = pin * 10 + dv;
        j = j + 1;
        if pin > 0xff {
            proof {
                lemma_val_radix_prefix(part_dec, j - d - 1, 10);
                assert forall|q: int| !(dash_at(s@, q) && channel_parts_ok(s@, q)) by {
                    if dash_at(s@, q) {
                        if q != d {
                            assert(s@[d as int] == '-');
                        } else {
                            assert(val_radix(s@.skip(d + 1), 10) > 0xff);
                        }
                    }
                }
            }
            return Err(ConfigError::InvalidChannelSpec);
        }
    }
    proof {
        assert(part_dec.take(len - d - 1) =~= part_dec);
        assert(dash_at(s@, d as int));
        assert(channel_parts_ok(s@, d as int));
        assert forall|q: int| dash_at(s@, q) implies q == d by {
            if q != d {
                assert(s@[d as int] == '-');
            }
        }
    }
    Ok(MoistureChannel { i2c_address: address as u16, analog_pin: pin as u8 })
}

/// Assemble and validate one module's configuration. Checked in order:
/// the pin must be one of the converter's four inputs, the thresholds an
/// ordered pair of fractions, the reference voltages an ordered pair in
/// range, and the schedule expression, when present, must parse. Nothing
/// runs for a module whose configuration is rejected.
pub fn module_config_new(
    id: ModuleId,
    name: String,
    description: String,
    channel: MoistureChannel,
    pump_enabled: bool,
    pump_schedule: Option<PumpSchedule>,
    pump_channel: u64,
    min_moisture: u64,
    max_moisture: u64,
    voltage_wet: u64,
    voltage_dry: u64,
) -> (r: Result<ModuleConfig, ConfigError>)
    ensures
        channel.analog_pin > 3 ==> r == Err::<ModuleConfig, ConfigError>(
            ConfigError::UnknownChannel { pin: channel.analog_pin },
        ),
        channel.analog_pin <= 3 && !(min_moisture <= max_moisture <= MOISTURE_SCALE) ==> r
            == Err::<ModuleConfig, ConfigError>(ConfigError::InvalidThresholds),
        channel.analog_pin <= 3 && min_moisture <= max_moisture <= MOISTURE_SCALE && !(voltage_wet
            <= voltage_dry <= MAX_RAW) ==> r == Err::<ModuleConfig, ConfigError>(
            ConfigError::InvalidCalibration,
        ),
        channel.analog_pin <= 3 && min_moisture <= max_moisture <= MOISTURE_SCALE && voltage_wet
            <= voltage_dry <= MAX_RAW && (pump_schedule matches Some(ps) && !cron_valid(
            ps.start@,
        )) ==> r == Err::<ModuleConfig, ConfigError>(ConfigError::InvalidSchedule),
        r matches Ok(cfg) ==> {
            &&& channel.analog_pin <= 3
            &&& min_moisture <= max_moisture <= MOISTURE_SCALE
            &&& voltage_wet <= voltage_dry <= MAX_RAW
            &&& cfg.id == id
            &&& cfg.name == name
            &&& cfg.description == description
            &&& cfg.moisture_i2c_address == channel.i2c_address
            &&& cfg.moisture_channel == channel.analog_pin
            &&& cfg.pump_enabled == pump_enabled
            &&& cfg.pump_channel == pump_channel
            &&& cfg.min_moisture == min_moisture
            &&& cfg.max_moisture == max_moisture
            &&& cfg.calibration == (CalibrationBounds { wet: voltage_wet, dry: voltage_dry })
            &&& (match pump_schedule {
                Some(ps) => cfg.pump_schedule == Some(ps.start) && cron_valid(ps.start@)
                    && cfg.pump_duration_secs == ps.duration_seconds,
                None => cfg.pump_schedule is None && cfg.pump_duration_secs == 0,
            })
            &&& cfg.wf()
        },
        r is Err <==> (channel.analog_pin > 3 || !(min_moisture <= max_moisture <= MOISTURE_SCALE)
            || !(voltage_wet <= voltage_dry <= MAX_RAW) || (pump_schedule matches Some(ps)
            && !cron_valid(ps.start@))),
{
    if channel.analog_pin > 3 {
        return Err(ConfigError::UnknownChannel { pin: channel.analog_pin });
    }
    if !(min_moisture <= max_moisture && max_moisture <= MOISTURE_SCALE) {
        return Err(ConfigError::InvalidThresholds);
    }
    if !(voltage_wet <= voltage_dry && voltage_dry <= MAX_RAW) {
        return Err(ConfigError::InvalidCalibration);
    }
    let (schedule_expr, duration) = match pump_schedule {
        Some(ps) => {
            if !schedule_expression_valid(ps.start.as_str()) {
                return Err(ConfigError::InvalidSchedule);
            }
            (Some(ps.start), ps.duration_seconds)
        },
        None => (None, 0),
    };
    Ok(
        ModuleConfig {
            id,
            name,
            description,
            moisture_i2c_address: channel.i2c_address,
            moisture_channel: channel.analog_pin,
            pump_enabled,
            pump_schedule: schedule_expr,
            pump_duration_secs: duration,
            pump_channel,
            min_moisture,
            max_moisture,
            calibration: CalibrationBounds { wet: voltage_wet, dry: voltage_dry },
        },
    )
}

} // verus!
