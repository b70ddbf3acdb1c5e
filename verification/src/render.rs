//! Rendering of a `ResourceSnapshot` as a JSON object, specified character
//! by character.  Centi-scaled readings are printed with two decimal places,
//! so they appear as JSON numbers with a fractional part; absent readings
//! render as `null`.  The rendered text, with a trailing newline added by
//! the writer, is what the atomic state file holds.

use vstd::prelude::*;
use vstd::string::StringExecFns;
use crate::resources::ResourceSnapshot;

verus! {

/// The decimal spelling of the digit `d`.
pub open spec fn spec_digit(d: nat) -> Seq<char> {
    if d == 0 {
        "0"@
    } else if d == 1 {
        "1"@
    } else if d == 2 {
        "2"@
    } else if d == 3 {
        "3"@
    } else if d == 4 {
        "4"@
    } else if d == 5 {
        "5"@
    } else if d == 6 {
        "6"@
    } else if d == 7 {
        "7"@
    } else if d == 8 {
        "8"@
    } else {
        "9"@
    }
}

/// The decimal spelling of `n`, most significant digit first, no sign and no
/// leading zeros (except for zero itself).
pub open spec fn spec_dec(n: nat) -> Seq<char>
    decreases n,
{
    if n < 10 {
        spec_digit(n)
    } else {
        spec_dec(n / 10) + spec_digit(n % 10)
    }
}

/// The decimal spelling of the signed value `v`.
pub open spec fn spec_dec_signed(v: int) -> Seq<char> {
    if v >= 0 {
        spec_dec(v as nat)
    } else {
        "-"@ + spec_dec((-v) as nat)
    }
}

/// The spelling of `c` hundredths as a decimal fraction: the integer part,
/// a point, and exactly two fractional digits.
pub open spec fn spec_centi(c: nat) -> Seq<char> {
    spec_dec(c / 100) + "."@ + spec_digit((c / 10) % 10) + spec_digit(c % 10)
}

/// The spelling of the signed value `c` hundredths.
pub open spec fn spec_centi_signed(c: int) -> Seq<char> {
    if c >= 0 {
        spec_centi(c as nat)
    } else {
        "-"@ + spec_centi((-c) as nat)
    }
}

/// The spelling of a JSON boolean.
pub open spec fn spec_bool(b: bool) -> Seq<char> {
    if b {
        "true"@
    } else {
        "false"@
    }
}

/// The JSON object a snapshot renders to.
pub open spec fn spec_snapshot_json(s: ResourceSnapshot) -> Seq<char> {
    "{\"timestamp\":"@ + spec_dec_signed(s.timestamp as int) + ",\"cpu_usage_pct\":"@ + spec_centi(
        s.cpu_usage_cpct as nat,
    ) + ",\"cpu_temp_c\":"@ + (match s.cpu_temp_cc {
        Some(t) => spec_centi_signed(t as int),
        None => "null"@,
    }) + ",\"battery_pct\":"@ + (match s.battery_pct {
        Some(b) => spec_dec(b as nat),
        None => "null"@,
    }) + ",\"on_ac_power\":"@ + (match s.on_ac_power {
        Some(b) => spec_bool(b),
        None => "null"@,
    }) + ",\"throttled\":"@ + spec_bool(s.throttled) + "}"@
}

/// Append the spelling of the digit `d`.
fn push_digit(out: &mut String, d: u64)
    requires
        d < 10,
    ensures
        final(out)@ == old(out)@ + spec_digit(d as nat),
{
    if d == 0 {
        out.append("0");
    } else if d == 1 {
        out.append("1");
    } else if d == 2 {
        out.append("2");
    } else if d == 3 {
        out.append("3");
    } else if d == 4 {
        out.append("4");
    } else if d == 5 {
        out.append("5");
    } else if d == 6 {
        out.append("6");
    } else if d == 7 {
        out.append("7");
    } else if d == 8 {
        out.append("8");
    } else {
        out.append("9");
    }
}

/// Append the decimal spelling of `n`.
fn push_dec(out: &mut String, n: u64)
    ensures
        final(out)@ == old(out)@ + spec_dec(n as nat),
    decreases n,
{
    if n >= 10 {
        push_dec(out, n / 10);
        push_digit(out, n % 10);
    } else {
        push_digit(out, n);
    }
}

/// Append the decimal spelling of the signed value `v`.
fn push_dec_signed(out: &mut String, v: i64)
    ensures
        final(out)@ == old(out)@ + spec_dec_signed(v as int),
{
    if v >= 0 {
        push_dec(out, v as u64);
    } else {
        out.append("-");
        let m: u64 = if v == i64::MIN {
            9223372036854775808u64
        } else {
            (-v) as u64
        };
        assert(m as nat == (-(v as int)) as nat);
        push_dec(out, m);
    }
}

/// Append the spelling of `c` hundredths as a two-place decimal fraction.
fn push_centi(out: &mut String, c: u64)
    ensures
        final(out)@ == old(out)@ + spec_centi(c as nat),
{
    push_dec(out, c / 100);
    out.append(".");
    push_digit(out, (c / 10) % 10);
    push_digit(out, c % 10);
}

/// Append the spelling of the signed value `c` hundredths.
fn push_centi_signed(out: &mut String, c: i64)
    ensures
        final(out)@ == old(out)@ + spec_centi_signed(c as int),
{
    if c >= 0 {
        push_centi(out, c as u64);
    } else {
        out.append("-");
        let m: u64 = if c == i64::MIN {
            9223372036854775808u64
        } else {
            (-c) as u64
        };
        assert(m as nat == (-(c as int)) as nat);
        push_centi(out, m);
    }
}

/// Append a JSON boolean.
fn push_bool(out: &mut String, b: bool)
    ensures
        final(out)@ == old(out)@ + spec_bool(b),
{
    if b {
        out.append("true");
    } else {
        out.append("false");
    }
}

/// Render one snapshot as the JSON object the state file and the event
/// channel carry.
pub fn render_snapshot(s: &ResourceSnapshot) -> (r: String)
    ensures
        r@ == spec_snapshot_json(*s),
{
    let mut out = String::new();
    out.append("{\"timestamp\":");
    push_dec_signed(&mut out, s.timestamp);
    out.append(",\"cpu_usage_pct\":");
    push_centi(&mut out, s.cpu_usage_cpct);
    out.append(",\"cpu_temp_c\":");
    match s.cpu_temp_cc {
        Some(t) => push_centi_signed(&mut out, t),
        None => out.append("null"),
    }
    out.append(",\"battery_pct\":");
    match s.battery_pct {
        Some(b) => push_dec(&mut out, b),
        None => out.append("null"),
    }
    out.append(",\"on_ac_power\":");
    match s.on_ac_power {
        Some(b) => push_bool(&mut out, b),
        None => out.append("null"),
    }
    out.append(",\"throttled\":");
    push_bool(&mut out, s.throttled);
    out.append("}");
    assert(out@ =~= spec_snapshot_json(*s));
    out
}

} // verus!
