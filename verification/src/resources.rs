//! Resource sampling logic: selecting the CPU thermal sensor, reading
//! battery and AC-power state out of power-supply entries, and deriving the
//! throttling signal.  Fractional readings are carried as hundredths
//! (centi-units), so a CPU usage of 75.25 % is 7525 and a temperature of
//! 85 °C is 8500.
//!
//! The unverified shell gathers the raw platform data (sensor labels and
//! temperatures, power-supply directory contents) and hands it in as plain
//! values; everything derived from those values is decided here.

use vstd::prelude::*;
use crate::text::{spec_trim, trim, spec_all_digits, spec_dec_val, parse_u64, bytes_eq};

verus! {

/// CPU usage above which the host is considered throttled, in centi-percent.
pub const USAGE_LIMIT_CPCT: u64 = 7000;

/// CPU temperature above which the host is considered throttled, in
/// centi-degrees Celsius.
pub const TEMP_LIMIT_CC: i64 = 8500;

/// Battery percentage below which the host is considered throttled when not
/// on AC power.
pub const BATTERY_LIMIT_PCT: u64 = 30;

/// The derived throttling signal: CPU usage over 70 %, or a CPU temperature
/// reading over 85 °C, or — when both battery and AC state are known — a
/// battery under 30 % while not on AC power.  Any one condition alone trips
/// the flag.
pub open spec fn spec_throttled(
    usage_cpct: u64,
    temp_cc: Option<i64>,
    battery_pct: Option<u64>,
    on_ac: Option<bool>,
) -> bool {
    usage_cpct > USAGE_LIMIT_CPCT || (temp_cc is Some && temp_cc->0 > TEMP_LIMIT_CC) || (
    battery_pct is Some && on_ac is Some && battery_pct->0 < BATTERY_LIMIT_PCT && !on_ac->0)
}

/// Decide the throttling signal from one cycle's readings.
pub fn throttled(
    usage_cpct: u64,
    temp_cc: Option<i64>,
    battery_pct: Option<u64>,
    on_ac: Option<bool>,
) -> (r: bool)
    ensures
        r == spec_throttled(usage_cpct, temp_cc, battery_pct, on_ac),
{
    if usage_cpct > USAGE_LIMIT_CPCT {
        return true;
    }
    if let Some(t) = temp_cc {
        if t > TEMP_LIMIT_CC {
            return true;
        }
    }
    if let Some(pct) = battery_pct {
        if let Some(ac) = on_ac {
            if pct < BATTERY_LIMIT_PCT && !ac {
                return true;
            }
        }
    }
    false
}

/// One thermal sensor as reported by the platform: its label and its current
/// temperature in centi-degrees Celsius.
pub struct SensorReading {
    pub label: Vec<u8>,
    pub temp_cc: i64,
}

/// ASCII lowercase folding of one byte.
pub open spec fn to_lower(b: u8) -> u8 {
    if 65 <= b <= 90 {
        (b + 32) as u8
    } else {
        b
    }
}

/// The label contains "cpu", compared with ASCII case folding.
pub open spec fn spec_label_is_cpu(label: Seq<u8>) -> bool {
    exists|i: int|
        0 <= i && i + 3 <= label.len() && to_lower(#[trigger] label[i]) == 99 && to_lower(
            label[i + 1],
        ) == 112 && to_lower(label[i + 2]) == 117
}

/// Whether the sensor label names the CPU: it contains "cpu" in any mix of
/// ASCII cases.
pub fn label_is_cpu(label: &[u8]) -> (r: bool)
    ensures
        r == spec_label_is_cpu(label@),
{
    let n = label.len();
    if n < 3 {
        return false;
    }
    let mut i: usize = 0;
    while i <= n - 3
        invariant
            3 <= n,
            0 <= i <= n - 2,
            n == label@.len(),
            forall|k: int|
                0 <= k < i ==> !(to_lower(#[trigger] label@[k]) == 99 && to_lower(
                    label@[k + 1],
                ) == 112 && to_lower(label@[k + 2]) == 117),
        decreases n - i,
    {
        let a = lower_byte(label[i]);
        let b = lower_byte(label[i + 1]);
        let c = lower_byte(label[i + 2]);
        if a == 99 && b == 112 && c == 117 {
            return true;
        }
        i = i + 1;
    }
    false
}

/// ASCII lowercase folding of one byte.
fn lower_byte(b: u8) -> (r: u8)
    ensures
        r == to_lower(b),
{
    if 65 <= b && b <= 90 {
        b + 32
    } else {
        b
    }
}

/// Index of the first CPU-labelled sensor at or after `i`; `sensors.len()`
/// if there is none.
pub open spec fn first_cpu_sensor(sensors: Seq<SensorReading>, i: int) -> int
    decreases sensors.len() - i when 0 <= i <= sensors.len()
{
    if i < sensors.len() {
        if spec_label_is_cpu(sensors[i].label@) {
            i
        } else {
            first_cpu_sensor(sensors, i + 1)
        }
    } else {
        i
    }
}

/// The CPU temperature the platform reports: that of the first sensor whose
/// label contains "cpu" (case-insensitive), absent if no such sensor exists.
pub open spec fn spec_cpu_temp(sensors: Seq<SensorReading>) -> Option<i64> {
    let i = first_cpu_sensor(sensors, 0);
    if i == sensors.len() {
        None
    } else {
        Some(sensors[i].temp_cc)
    }
}

/// Select the CPU temperature: the first sensor whose label contains "cpu",
/// compared case-insensitively; `None` if no sensor matches.
pub fn select_cpu_temp(sensors: &Vec<SensorReading>) -> (r: Option<i64>)
    ensures
        r == spec_cpu_temp(sensors@),
{
    let n = sensors.len();
    let mut i: usize = 0;
    while i < n
        invariant
            0 <= i <= n,
            n == sensors@.len(),
            first_cpu_sensor(sensors@, 0) == first_cpu_sensor(sensors@, i as int),
        decreases n - i,
    {
        if label_is_cpu(sensors[i].label.as_slice()) {
            return Some(sensors[i].temp_cc);
        }
        i = i + 1;
    }
    proof {
        lemma_first_cpu_sensor_bounds(sensors@, i as int);
    }
    None
}

proof fn lemma_first_cpu_sensor_bounds(sensors: Seq<SensorReading>, i: int)
    requires
        0 <= i <= sensors.len(),
    ensures
        i <= first_cpu_sensor(sensors, i) <= sensors.len(),
    decreases sensors.len() - i,
{
    if i < sensors.len() && !spec_label_is_cpu(sensors[i].label@) {
        lemma_first_cpu_sensor_bounds(sensors, i + 1);
    }
}

/// One entry of the platform's power-supply listing, as raw file contents:
/// the `type` file, the `capacity` file and the `online` file.  A file the
/// platform does not provide is handed in as an empty byte string.
pub struct PowerSupplyEntry {
    pub kind: Vec<u8>,
    pub capacity: Vec<u8>,
    pub online: Vec<u8>,
}

/// The trimmed kind is "Battery" and the trimmed capacity parses as a
/// decimal percentage.
pub open spec fn entry_battery_pct(e: PowerSupplyEntry) -> Option<u64> {
    if spec_trim(e.kind@) == "Battery"@.map_values(|c: char| c as u8) && spec_all_digits(
        spec_trim(e.capacity@),
    ) && spec_dec_val(spec_trim(e.capacity@)) <= u64::MAX {
        Some(spec_dec_val(spec_trim(e.capacity@)) as u64)
    } else {
        None
    }
}

/// The trimmed kind is "Mains" or "AC" and the trimmed online flag parses as
/// a decimal number; on-AC means it parsed to 1.
pub open spec fn entry_on_ac(e: PowerSupplyEntry) -> Option<bool> {
    if (spec_trim(e.kind@) == "Mains"@.map_values(|c: char| c as u8) || spec_trim(e.kind@)
        == "AC"@.map_values(|c: char| c as u8)) && spec_all_digits(spec_trim(e.online@))
        && spec_dec_val(spec_trim(e.online@)) <= u64::MAX {
        Some(spec_dec_val(spec_trim(e.online@)) == 1)
    } else {
        None
    }
}

/// Battery percentage after scanning the first `i` entries: the value of the
/// last battery entry among them whose capacity parsed.
pub open spec fn spec_battery_pct(entries: Seq<PowerSupplyEntry>, i: int) -> Option<u64>
    decreases i when 0 <= i <= entries.len()
{
    if i <= 0 {
        None
    } else if entry_battery_pct(entries[i - 1]) is Some {
        entry_battery_pct(entries[i - 1])
    } else {
        spec_battery_pct(entries, i - 1)
    }
}

/// AC-power state after scanning the first `i` entries: that of the last
/// mains entry among them whose online flag parsed.
pub open spec fn spec_on_ac(entries: Seq<PowerSupplyEntry>, i: int) -> Option<bool>
    decreases i when 0 <= i <= entries.len()
{
    if i <= 0 {
        None
    } else if entry_on_ac(entries[i - 1]) is Some {
        entry_on_ac(entries[i - 1])
    } else {
        spec_on_ac(entries, i - 1)
    }
}

/// Battery percentage and AC-power state read out of the power-supply
/// entries.  An entry of kind "Battery" supplies the percentage, one of kind
/// "Mains" or "AC" the online state; entries whose values do not parse are
/// passed over, and a platform with no such entries yields `None` for both —
/// a legitimate outcome, not an error.
pub fn read_power_state(entries: &Vec<PowerSupplyEntry>) -> (r: (Option<u64>, Option<bool>))
    ensures
        r.0 == spec_battery_pct(entries@, entries@.len() as int),
        r.1 == spec_on_ac(entries@, entries@.len() as int),
{
    let n = entries.len();
    let mut battery: Option<u64> = None;
    let mut on_ac: Option<bool> = None;
    let mut i: usize = 0;
    while i < n
        invariant
            0 <= i <= n,
            n == entries@.len(),
            battery == spec_battery_pct(entries@, i as int),
            on_ac == spec_on_ac(entries@, i as int),
        decreases n - i,
    {
        proof {
            lemma_battery_lit();
            lemma_mains_lit();
        }
        let e = &entries[i];
        let kind = trim(e.kind.as_slice());
        if bytes_eq(kind, &[66, 97, 116, 116, 101, 114, 121]) {
            if let Some(v) = parse_u64(trim(e.capacity.as_slice())) {
                battery = Some(v);
            }
        } else if bytes_eq(kind, &[77, 97, 105, 110, 115]) || bytes_eq(kind, &[65, 67]) {
            if let Some(v) = parse_u64(trim(e.online.as_slice())) {
                on_ac = Some(v == 1);
            }
        }
        i = i + 1;
    }
    (battery, on_ac)
}

/// The byte spellings of the power-supply kind "Battery".
proof fn lemma_battery_lit()
    ensures
        "Battery"@.map_values(|c: char| c as u8) =~= seq![66u8, 97, 116, 116, 101, 114, 121],
{
    reveal_strlit("Battery");
}

/// The byte spellings of the power-supply kinds "Mains" and "AC".
proof fn lemma_mains_lit()
    ensures
        "Mains"@.map_values(|c: char| c as u8) =~= seq![77u8, 97, 105, 110, 115],
        "AC"@.map_values(|c: char| c as u8) =~= seq![65u8, 67],
{
    reveal_strlit("Mains");
    reveal_strlit("AC");
}

/// One sampling cycle's observation, constructed fresh each cycle, never
/// mutated, immediately rendered and persisted.
pub struct ResourceSnapshot {
    pub timestamp: i64,
    pub cpu_usage_cpct: u64,
    pub cpu_temp_cc: Option<i64>,
    pub battery_pct: Option<u64>,
    pub on_ac_power: Option<bool>,
    pub throttled: bool,
}

impl ResourceSnapshot {
    /// A snapshot is well formed when its throttling flag is exactly the
    /// signal derived from its own readings.
    pub open spec fn wf(self) -> bool {
        self.throttled == spec_throttled(
            self.cpu_usage_cpct,
            self.cpu_temp_cc,
            self.battery_pct,
            self.on_ac_power,
        )
    }

    /// Build one cycle's snapshot, deriving the throttling flag from the
    /// readings.
    pub fn new(
        timestamp: i64,
        cpu_usage_cpct: u64,
        cpu_temp_cc: Option<i64>,
        battery_pct: Option<u64>,
        on_ac_power: Option<bool>,
    ) -> (r: Self)
        ensures
            r.timestamp == timestamp,
            r.cpu_usage_cpct == cpu_usage_cpct,
            r.cpu_temp_cc == cpu_temp_cc,
            r.battery_pct == battery_pct,
            r.on_ac_power == on_ac_power,
            r.throttled == spec_throttled(cpu_usage_cpct, cpu_temp_cc, battery_pct, on_ac_power),
            r.wf(),
    {
        let t = throttled(cpu_usage_cpct, cpu_temp_cc, battery_pct, on_ac_power);
        ResourceSnapshot {
            timestamp,
            cpu_usage_cpct,
            cpu_temp_cc,
            battery_pct,
            on_ac_power,
            throttled: t,
        }
    }
}

} // verus!
