use vstd::prelude::*;
use vstd::string::StringExecFns;
use vstd::arithmetic::div_mod::{lemma_fundamental_div_mod, lemma_div_denominator};

verus! {

/// The decimal digits of `n`, most significant first.
pub open spec fn dec_str(n: nat) -> Seq<char>
    decreases n,
{
    if n < 10 {
        seq![dec_digit(n)]
    } else {
        dec_str(n / 10).push(dec_digit(n % 10))
    }
}

/// The character for one decimal digit.
pub open spec fn dec_digit(n: nat) -> char {
    if n == 0 {
        '0'
    } else if n == 1 {
        '1'
    } else if n == 2 {
        '2'
    } else if n == 3 {
        '3'
    } else if n == 4 {
        '4'
    } else if n == 5 {
        '5'
    } else if n == 6 {
        '6'
    } else if n == 7 {
        '7'
    } else if n == 8 {
        '8'
    } else {
        '9'
    }
}

/// One decimal digit as a string slice.
fn digit_str(d: u64) -> (r: &'static str)
    requires
        d < 10,
    ensures
        r@ =~= seq![dec_digit(d as nat)],
{
    proof {
        reveal_strlit("0");
        reveal_strlit("1");
        reveal_strlit("2");
        reveal_strlit("3");
        reveal_strlit("4");
        reveal_strlit("5");
        reveal_strlit("6");
        reveal_strlit("7");
        reveal_strlit("8");
        reveal_strlit("9");
    }
    match d {
        0 => "0",
        1 => "1",
        2 => "2",
        3 => "3",
        4 => "4",
        5 => "5",
        6 => "6",
        7 => "7",
        8 => "8",
        _ => "9",
    }
}

/// `10^k`.
pub open spec fn pow10(k: nat) -> nat
    decreases k,
{
    if k == 0 {
        1
    } else {
        10 * pow10((k - 1) as nat)
    }
}

/// Appends the decimal digits of `n` to `out`.
pub fn append_u64(out: &mut String, n: u64)
    ensures
        final(out)@ == old(out)@ + dec_str(n as nat),
{
    let mut d: u64 = 1;
    let ghost mut k: nat = 0;
    while n / d >= 10
        invariant
            d >= 1,
            d as nat == pow10(k),
            d > 1 ==> n as nat / (d as nat) >= 1,
        decreases n - d,
    {
        proof {
            lemma_fundamental_div_mod(n as int, d as int);
            assert(d as int * (n as int / d as int) >= d as int * 10) by (nonlinear_arith)
                requires
                    n as int / d as int >= 10,
                    d >= 1,
            ;
            assert(n >= 10 * d);
        }
        d = d * 10;
        proof {
            k = k + 1;
            lemma_fundamental_div_mod(n as int, d as int);
            assert(n as nat / d as nat >= 1) by (nonlinear_arith)
                requires
                    n >= d,
                    d >= 1,
                    n as int == (d as int) * ((n as int) / (d as int)) + (n as int) % (d as int),
                    0 <= (n as int) % (d as int),
                    (n as int) % (d as int) < (d as int),
            ;
        }
    }
    let ghost start = out@;
    let first = n / d;
    out.append(digit_str(first));
    proof {
        assert(out@ =~= start + dec_str((n / d) as nat));
    }
    while d > 1
        invariant
            d >= 1,
            d as nat == pow10(k),
            d > 1 ==> n as nat / (d as nat) >= 1,
            out@ == start + dec_str((n as nat) / (d as nat)),
        decreases d,
    {
        let ghost d0 = d as nat;
        proof {
            assert(k >= 1);
            assert(d0 == 10 * pow10((k - 1) as nat));
            vstd::arithmetic::div_mod::lemma_div_multiples_vanish(
                pow10((k - 1) as nat) as int,
                10,
            );
            k = (k - 1) as nat;
        }
        d = d / 10;
        proof {
            assert(d as nat == pow10(k));
            assert(10 * d as nat == d0);
            lemma_div_denominator(n as int, d as int, 10);
            assert((n as nat / d as nat) / 10 == n as nat / d0);
        }
        let digit = (n / d) % 10;
        out.append(digit_str(digit));
        proof {
            lemma_fundamental_div_mod((n as nat / d as nat) as int, 10);
            assert(n as nat / d as nat >= 10);
            assert(dec_str(n as nat / d as nat) == dec_str(n as nat / d0).push(
                dec_digit((n as nat / d as nat) % 10),
            ));
            assert(out@ =~= start + dec_str(n as nat / d as nat));
        }
    }
    proof {
        lemma_fundamental_div_mod(n as int, 1);
        assert(n as nat / 1 == n as nat);
        assert(out@ =~= old(out)@ + dec_str(n as nat));
    }
}

/// The decimal digits of `n` as a fresh string.
pub fn fmt_u64(n: u64) -> (r: String)
    ensures
        r@ == dec_str(n as nat),
{
    let mut s = String::new();
    append_u64(&mut s, n);
    proof {
        assert(s@ =~= dec_str(n as nat));
    }
    s
}

/// Index of the binary unit the value is shown in: bytes up to terabytes.
pub open spec fn unit_index(b: nat) -> nat {
    if b < 1024 {
        0
    } else if b < 1048576 {
        1
    } else if b < 1073741824 {
        2
    } else if b < 1099511627776 {
        3
    } else {
        4
    }
}

/// `1024^u` for the unit indexes in use.
pub open spec fn unit_scale(u: nat) -> nat {
    if u == 0 {
        1
    } else if u == 1 {
        1024
    } else if u == 2 {
        1048576
    } else if u == 3 {
        1073741824
    } else {
        1099511627776
    }
}

/// The unit suffix for a unit index.
pub open spec fn unit_name(u: nat) -> Seq<char> {
    if u == 0 {
        " B"@
    } else if u == 1 {
        " KB"@
    } else if u == 2 {
        " MB"@
    } else if u == 3 {
        " GB"@
    } else {
        " TB"@
    }
}

/// How a byte count prints: whole bytes below 1 KB, otherwise the value in
/// the largest unit up to TB, with one decimal digit, rounded half up.
pub open spec fn format_bytes_spec(b: nat) -> Seq<char> {
    let u = unit_index(b);
    if u == 0 {
        dec_str(b) + unit_name(0)
    } else {
        let p = unit_scale(u);
        let tenths = (10 * b + p / 2) / p;
        dec_str(tenths / 10) + seq!['.', dec_digit(tenths % 10)] + unit_name(u)
    }
}

/// Renders a byte count in a human unit, e.g. 1536 as "1.5 KB".
pub fn format_bytes(bytes: u64) -> (r: String)
    ensures
        r@ == format_bytes_spec(bytes as nat),
{
    proof {
        reveal_strlit(" B");
        reveal_strlit(" KB");
        reveal_strlit(" MB");
        reveal_strlit(" GB");
        reveal_strlit(" TB");
        reveal_strlit(".");
    }
    if bytes < 1024 {
        let mut s = fmt_u64(bytes);
        s.append(" B");
        proof {
            assert(s@ =~= format_bytes_spec(bytes as nat));
        }
        return s;
    }
    let (p, unit): (u128, &'static str) = if bytes < 1048576 {
        (1024, " KB")
    } else if bytes < 1073741824 {
        (1048576, " MB")
    } else if bytes < 1099511627776 {
        (1073741824, " GB")
    } else {
        (1099511627776, " TB")
    };
    let ghost u = unit_index(bytes as nat);
    let num: u128 = (bytes as u128) * 10 + p / 2;
    let tenths_wide: u128 = num / p;
    proof {
        lemma_fundamental_div_mod(num as int, p as int);
        assert(tenths_wide < 0x10000000000000000) by (nonlinear_arith)
            requires
                p >= 1024,
                (p as int) * (tenths_wide as int) <= num as int,
                (num as int) < 0x200000000000000000,
        ;
    }
    let tenths: u64 = tenths_wide as u64;
    let mut s = fmt_u64(tenths / 10);
    s.append(".");
    s.append(digit_str(tenths % 10));
    s.append(unit);
    proof {
        assert((tenths / 10) as nat == ((10 * (bytes as nat) + unit_scale(u) / 2) / unit_scale(u))
            / 10);
        assert(s@ =~= format_bytes_spec(bytes as nat));
    }
    s
}

/// How an uptime prints: days, hours and minutes, omitting leading zero
/// fields down to minutes alone.
pub open spec fn format_uptime_spec(s: nat) -> Seq<char> {
    let days = s / 86400;
    let hours = (s % 86400) / 3600;
    let minutes = (s % 3600) / 60;
    if days > 0 {
        dec_str(days) + "d "@ + dec_str(hours) + "h "@ + dec_str(minutes) + "m"@
    } else if hours > 0 {
        dec_str(hours) + "h "@ + dec_str(minutes) + "m"@
    } else {
        dec_str(minutes) + "m"@
    }
}

/// Renders a duration in seconds as days, hours and minutes.
pub fn format_uptime(seconds: u64) -> (r: String)
    ensures
        r@ == format_uptime_spec(seconds as nat),
{
    proof {
        reveal_strlit("d ");
        reveal_strlit("h ");
        reveal_strlit("m");
    }
    let days = seconds / 86400;
    let hours = (seconds % 86400) / 3600;
    let minutes = (seconds % 3600) / 60;
    let mut s = String::new();
    if days > 0 {
        append_u64(&mut s, days);
        s.append("d ");
        append_u64(&mut s, hours);
        s.append("h ");
        append_u64(&mut s, minutes);
        s.append("m");
    } else if hours > 0 {
        append_u64(&mut s, hours);
        s.append("h ");
        append_u64(&mut s, minutes);
        s.append("m");
    } else {
        append_u64(&mut s, minutes);
        s.append("m");
    }
    proof {
        assert(s@ =~= format_uptime_spec(seconds as nat));
    }
    s
}

/// Renders a memory limit, where zero means no limit was set.
pub fn format_memory_limit(bytes: u64) -> (r: String)
    ensures
        bytes == 0 ==> r@ == "No limit"@,
        bytes > 0 ==> r@ == format_bytes_spec(bytes as nat),
{
    if bytes == 0 {
        proof {
            reveal_strlit("No limit");
        }
        String::from_str("No limit")
    } else {
        format_bytes(bytes)
    }
}

/// Renders a CPU limit given in tenths of a core, where zero means no
/// limit was set, e.g. 15 as "1.5 cores".
pub fn format_cpu_limit(tenths: u64) -> (r: String)
    ensures
        tenths == 0 ==> r@ == "No limit"@,
        tenths > 0 ==> r@ == dec_str((tenths / 10) as nat) + seq![
            '.',
            dec_digit((tenths % 10) as nat),
        ] + " cores"@,
{
    if tenths == 0 {
        proof {
            reveal_strlit("No limit");
        }
        String::from_str("No limit")
    } else {
        proof {
            reveal_strlit(".");
            reveal_strlit(" cores");
        }
        let mut s = fmt_u64(tenths / 10);
        s.append(".");
        s.append(digit_str(tenths % 10));
        s.append(" cores");
        proof {
            assert(s@ =~= dec_str((tenths / 10) as nat) + seq![
                '.',
                dec_digit((tenths % 10) as nat),
            ] + " cores"@);
        }
        s
    }
}

/// Renders the uptime since a creation timestamp, given the current time;
/// a creation time in the future counts as zero.
pub fn format_uptime_from_created(now: u64, created: u64) -> (r: String)
    ensures
        r@ == format_uptime_spec(if now >= created {
            (now - created) as nat
        } else {
            0
        }),
{
    let uptime = if now >= created {
        now - created
    } else {
        0
    };
    format_uptime(uptime)
}

/// Renders a memory amount, where zero means no limit was set.
pub fn format_memory(bytes: u64) -> (r: String)
    ensures
        bytes == 0 ==> r@ == "No limit"@,
        bytes > 0 ==> r@ == format_bytes_spec(bytes as nat),
{
    format_memory_limit(bytes)
}

} // verus!
