//! The rules of the interactive demo client: its command line, how it reads
//! short answers, and how it prints the time.
use vstd::prelude::*;

use crate::native::TransportType;
use crate::text::{
    ascii_lowercase, chars_of, owned, push_str, push_zero_padded, str_eq, to_ascii_lowercase,
    zero_padded,
};

verus! {

/// The CKB RPC used for wallet history discovery unless another is given.
pub const DEFAULT_CKB_DISCOVERY_RPC_URL: &'static str = "https://testnet.ckbapp.dev/";

/// The demo client's settings.
#[derive(Clone, Debug)]
pub struct CliArgs {
    pub config: String,
    pub data: String,
    pub log_level: String,
    pub log_file: Option<String>,
    pub ckb_discovery_rpc: String,
}

/// The settings as text: config, data, log level, log file, discovery RPC.
pub open spec fn cli_view(a: CliArgs) -> (Seq<char>, Seq<char>, Seq<char>, Option<Seq<char>>, Seq<char>) {
    (
        a.config@,
        a.data@,
        a.log_level@,
        match a.log_file {
            Some(f) => Some(f@),
            None => None,
        },
        a.ckb_discovery_rpc@,
    )
}

/// The settings used when the command line changes nothing.
pub open spec fn default_cli() -> (Seq<char>, Seq<char>, Seq<char>, Option<Seq<char>>, Seq<char>) {
    (
        "tools/fiber-demo-cli/config.testnet.yml"@,
        "tools/fiber-demo-cli/data"@,
        "info,fiber_ffi=debug"@,
        None,
        DEFAULT_CKB_DISCOVERY_RPC_URL@,
    )
}

impl CliArgs {
    /// The default settings.
    pub fn default_args() -> (r: CliArgs)
        ensures
            cli_view(r) == default_cli(),
    {
        CliArgs {
            config: owned("tools/fiber-demo-cli/config.testnet.yml"),
            data: owned("tools/fiber-demo-cli/data"),
            log_level: owned("info,fiber_ffi=debug"),
            log_file: None,
            ckb_discovery_rpc: owned(DEFAULT_CKB_DISCOVERY_RPC_URL),
        }
    }
}

/// The outcome of reading the arguments from position `i` on, with the
/// settings `acc` so far: `None` when help is asked for, else the settings
/// or the first error. Each option takes the next argument as its value.
pub open spec fn parse_from(
    a: Seq<Seq<char>>,
    i: int,
    acc: (Seq<char>, Seq<char>, Seq<char>, Option<Seq<char>>, Seq<char>),
) -> Result<Option<(Seq<char>, Seq<char>, Seq<char>, Option<Seq<char>>, Seq<char>)>, Seq<char>>
    decreases a.len() - i,
{
    if i >= a.len() {
        Ok(Some(acc))
    } else if a[i] == "-h"@ || a[i] == "--help"@ {
        Ok(None)
    } else if i + 1 >= a.len() {
        Err(a[i] + " requires a value"@)
    } else if a[i] == "--config"@ {
        parse_from(a, i + 2, (a[i + 1], acc.1, acc.2, acc.3, acc.4))
    } else if a[i] == "--data"@ {
        parse_from(a, i + 2, (acc.0, a[i + 1], acc.2, acc.3, acc.4))
    } else if a[i] == "--log-level"@ {
        parse_from(a, i + 2, (acc.0, acc.1, a[i + 1], acc.3, acc.4))
    } else if a[i] == "--log-file"@ {
        parse_from(a, i + 2, (acc.0, acc.1, acc.2, Some(a[i + 1]), acc.4))
    } else if a[i] == "--ckb-discovery-rpc"@ {
        parse_from(a, i + 2, (acc.0, acc.1, acc.2, acc.3, a[i + 1]))
    } else {
        Err("unknown argument: "@ + a[i] + " (use --help for usage)"@)
    }
}

/// The text views of a list of strings.
pub open spec fn arg_texts(v: Seq<String>) -> Seq<Seq<char>> {
    v.map_values(|s: String| s@)
}

/// Reads the command line (the program name first). `Ok(None)` asks the
/// caller to print the help text.
pub fn parse_args(arguments: Vec<String>) -> (r: Result<Option<CliArgs>, String>)
    ensures
        match parse_from(arg_texts(arguments@), 1, default_cli()) {
            Ok(None) => r matches Ok(None),
            Ok(Some(v)) => r matches Ok(Some(c)) && cli_view(c) == v,
            Err(e) => r matches Err(m) && m@ == e,
        },
{
    let ghost a = arg_texts(arguments@);
    let mut args = CliArgs::default_args();
    let mut i: usize = 1;
    while i < arguments.len()
        invariant
            1 <= i,
            a == arg_texts(arguments@),
            parse_from(a, 1, default_cli()) == parse_from(a, i as int, cli_view(args)),
        decreases arguments.len() - i,
    {
        let argument = arguments[i].as_str();
        proof {
            assert(a[i as int] == argument@);
        }
        if str_eq(argument, "-h") || str_eq(argument, "--help") {
            return Ok(None);
        }
        if i + 1 >= arguments.len() {
            let mut m = owned(argument);
            push_str(&mut m, " requires a value");
            return Err(m);
        }
        let value = arguments[i + 1].clone();
        proof {
            assert(a[i + 1] == value@);
        }
        if str_eq(argument, "--config") {
            args.config = value;
        } else if str_eq(argument, "--data") {
            args.data = value;
        } else if str_eq(argument, "--log-level") {
            args.log_level = value;
        } else if str_eq(argument, "--log-file") {
            args.log_file = Some(value);
        } else if str_eq(argument, "--ckb-discovery-rpc") {
            args.ckb_discovery_rpc = value;
        } else {
            let mut m = owned("unknown argument: ");
            push_str(&mut m, argument);
            push_str(&mut m, " (use --help for usage)");
            return Err(m);
        }
        i = i + 2;
    }
    Ok(Some(args))
}

/// The program name the command line starts with, or the client's own name.
pub fn program_name(arguments: &Vec<String>) -> (r: String)
    ensures
        arguments.len() > 0 ==> r@ == arguments@[0]@,
        arguments.len() == 0 ==> r@ == "fiber-demo-cli"@,
{
    if arguments.len() > 0 {
        arguments[0].clone()
    } else {
        owned("fiber-demo-cli")
    }
}

/// The transport a typed connection type names, ignoring case; blank means
/// TCP.
pub open spec fn transport_named(t: Seq<char>) -> Option<TransportType> {
    let l = ascii_lowercase(t);
    if l == ""@ || l == "tcp"@ {
        Some(TransportType::Tcp)
    } else if l == "ws"@ {
        Some(TransportType::Ws)
    } else if l == "wss"@ {
        Some(TransportType::Wss)
    } else {
        None
    }
}

/// Reads a typed connection type.
pub fn parse_transport(value: &str) -> (r: Result<Option<TransportType>, String>)
    ensures
        match transport_named(value@) {
            Some(t) => r == Ok::<Option<TransportType>, String>(Some(t)),
            None => r matches Err(m) && m@ == "Connection type must be tcp, ws, or wss"@,
        },
{
    let lower = to_ascii_lowercase(&chars_of(value));
    let l = crate::text::string_from_chars(&lower);
    if str_eq(l.as_str(), "") || str_eq(l.as_str(), "tcp") {
        Ok(Some(TransportType::Tcp))
    } else if str_eq(l.as_str(), "ws") {
        Ok(Some(TransportType::Ws))
    } else if str_eq(l.as_str(), "wss") {
        Ok(Some(TransportType::Wss))
    } else {
        Err(owned("Connection type must be tcp, ws, or wss"))
    }
}

/// How a yes/no answer reads, ignoring case: blank takes the default; an
/// answer that is neither is `None` and is asked again.
pub open spec fn yes_no_answer(input: Seq<char>, default: bool) -> Option<bool> {
    let l = ascii_lowercase(input);
    if l == ""@ {
        Some(default)
    } else if l == "y"@ || l == "yes"@ {
        Some(true)
    } else if l == "n"@ || l == "no"@ {
        Some(false)
    } else {
        None
    }
}

/// Reads a yes/no answer.
pub fn read_yes_no(input: &str, default: bool) -> (r: Option<bool>)
    ensures
        r == yes_no_answer(input@, default),
{
    let lower = to_ascii_lowercase(&chars_of(input));
    let l = crate::text::string_from_chars(&lower);
    if str_eq(l.as_str(), "") {
        Some(default)
    } else if str_eq(l.as_str(), "y") || str_eq(l.as_str(), "yes") {
        Some(true)
    } else if str_eq(l.as_str(), "n") || str_eq(l.as_str(), "no") {
        Some(false)
    } else {
        None
    }
}

/// Days from 0000-03-01 in the proleptic Gregorian calendar to 1970-01-01.
pub open spec fn epoch_shift() -> nat {
    719_468
}

/// The civil date (year, month, day) of the day `z` days after 1970-01-01,
/// counting in 400-year eras of 146097 days that begin on March 1.
pub open spec fn civil_from_days(z: nat) -> (nat, nat, nat) {
    let s = z + epoch_shift();
    let era = s / 146_097;
    let doe = s % 146_097;
    let yoe = ((doe - doe / 1_460 + doe / 36_524 - doe / 146_096) / 365) as nat;
    let doy = (doe - (365 * yoe + yoe / 4 - yoe / 100)) as nat;
    let mp = (5 * doy + 2) / 153;
    let d = (doy - (153 * mp + 2) / 5 + 1) as nat;
    let m = if mp < 10 { mp + 3 } else { (mp - 9) as nat };
    let y = yoe + era * 400 + if m <= 2 { 1nat } else { 0nat };
    (y, m, d)
}

/// A leap year of the Gregorian calendar.
pub open spec fn is_leap_year(y: nat) -> bool {
    y % 4 == 0 && (y % 100 != 0 || y % 400 == 0)
}

/// The number of days of month `m` (1 to 12) of year `y`.
pub open spec fn days_in_month(y: nat, m: nat) -> nat {
    if m == 2 {
        if is_leap_year(y) { 29 } else { 28 }
    } else if m == 4 || m == 6 || m == 9 || m == 11 {
        30
    } else {
        31
    }
}

/// The days of year `y` before the first of month `m`.
pub open spec fn days_before_month(y: nat, m: nat) -> nat
    decreases m,
{
    if m <= 1 {
        0
    } else {
        days_before_month(y, (m - 1) as nat) + days_in_month(y, (m - 1) as nat)
    }
}

/// The leap years before year `y`, counting from year 0.
pub open spec fn leap_years_before(y: nat) -> nat
    decreases y,
{
    if y == 0 {
        0
    } else {
        leap_years_before((y - 1) as nat) + if is_leap_year((y - 1) as nat) { 1nat } else { 0nat }
    }
}

/// The days from 0000-01-01 to the first of January of year `y`.
pub open spec fn days_before_year(y: nat) -> nat {
    365 * y + leap_years_before(y)
}

/// The number of days from 1970-01-01 to the date `y-m-d`.
pub open spec fn days_since_epoch(y: nat, m: nat, d: nat) -> int {
    days_before_year(y) + days_before_month(y, m) + d - 1 - days_before_year(1970)
}

/// The leap years before `y`, counted by the divisibility rules.
spec fn leap_count(y: nat) -> nat {
    ((y + 3) / 4 - (y + 99) / 100 + (y + 399) / 400) as nat
}

proof fn lemma_leap_years_before(y: nat)
    ensures
        leap_years_before(y) == leap_count(y),
    decreases y,
{
    if y > 0 {
        lemma_leap_years_before((y - 1) as nat);
        let x = (y - 1) as nat;
        assert((x + 4) / 4 == (x + 3) / 4 + if x % 4 == 0 { 1int } else { 0int });
        assert((x + 100) / 100 == (x + 99) / 100 + if x % 100 == 0 { 1int } else { 0int });
        assert((x + 400) / 400 == (x + 399) / 400 + if x % 400 == 0 { 1int } else { 0int });
        assert(x % 400 == 0 ==> x % 100 == 0 && x % 4 == 0);
        assert(x % 100 == 0 ==> x % 4 == 0);
    }
}

/// Days from the start of a 400-year era (a March 1) to March 1 of its
/// year `k`.
spec fn era_year_start(k: int) -> int {
    365 * k + k / 4 - k / 100
}

/// The length of year `k` of an era counted from March 1: it holds the
/// leap day of the calendar year that follows.
spec fn era_year_len(k: int) -> int {
    if is_leap_year((k + 1) as nat) { 366 } else { 365 }
}

/// The day count that `civil_from_days` divides by 365 to find the year of
/// an era.
spec fn era_day_count(doe: int) -> int {
    doe - doe / 1_460 + doe / 36_524 - doe / 146_096
}

proof fn lemma_era_year_start_bv(k: u32, s: u32, n: u32)
    by (bit_vector)
    requires
        k < 400,
        s == 365 * k + k / 4 - k / 100,
        n == s - s / 1_460 + s / 36_524 - s / 146_096,
    ensures
        n / 365 == k,
{
}

proof fn lemma_era_leap_year_end_bv(k: u32, k1: u32, e: u32, n: u32)
    by (bit_vector)
    requires
        k < 400,
        k1 == k + 1,
        k1 % 4 == 0,
        k1 % 100 != 0 || k1 % 400 == 0,
        e == 365 * k + k / 4 - k / 100 + 365,
        n == e - e / 1_460 + e / 36_524 - e / 146_096,
    ensures
        n / 365 == k,
{
}

proof fn lemma_era_common_year_end_bv(k: u32, k1: u32, e: u32, n: u32)
    by (bit_vector)
    requires
        k < 400,
        k1 == k + 1,
        k1 % 4 != 0 || (k1 % 100 == 0 && k1 % 400 != 0),
        e == 365 * k + k / 4 - k / 100 + 364,
        n == e - e / 1_460 + e / 36_524 - e / 146_096,
    ensures
        n / 365 == k,
{
}

/// Year `k` of an era holds the days from its start to the start of the
/// next year, and `civil_from_days` finds year `k` at both ends.
proof fn lemma_era_year_tiles(k: int)
    requires
        0 <= k < 400,
    ensures
        era_day_count(era_year_start(k)) / 365 == k,
        era_day_count(era_year_start(k) + era_year_len(k) - 1) / 365 == k,
        era_year_start(k) + era_year_len(k) == if k < 399 { era_year_start(k + 1) } else { 146_097 },
{
    let s0 = era_year_start(k);
    let e0 = era_year_start(k) + era_year_len(k) - 1;
    lemma_era_year_start_bv(k as u32, s0 as u32, era_day_count(s0) as u32);
    if is_leap_year((k + 1) as nat) {
        lemma_era_leap_year_end_bv(k as u32, (k + 1) as u32, e0 as u32, era_day_count(e0) as u32);
    } else {
        lemma_era_common_year_end_bv(k as u32, (k + 1) as u32, e0 as u32, era_day_count(e0) as u32);
    }
    assert((k + 1) / 4 == k / 4 + if (k + 1) % 4 == 0 { 1int } else { 0int });
    assert((k + 1) / 100 == k / 100 + if (k + 1) % 100 == 0 { 1int } else { 0int });
    assert((k + 1) % 100 == 0 ==> (k + 1) % 4 == 0);
    assert((k + 1) % 400 == 0 ==> k == 399);
}

proof fn lemma_era_day_count_step(x: int)
    requires
        0 <= x < 146_096,
    ensures
        era_day_count(x) <= era_day_count(x + 1),
{
    assert((x + 1) / 1_460 <= x / 1_460 + 1);
    assert(x / 36_524 <= (x + 1) / 36_524);
    assert((x + 1) / 146_096 <= x / 146_096 + 1);
    assert((x + 1) / 1_460 == x / 1_460 + 1 ==> (x + 1) % 1_460 == 0);
    assert((x + 1) / 146_096 == x / 146_096 + 1 ==> x + 1 == 146_096);
}

proof fn lemma_era_day_count_monotone(a: int, b: int)
    requires
        0 <= a <= b < 146_097,
    ensures
        era_day_count(a) <= era_day_count(b),
    decreases b - a,
{
    if a < b {
        lemma_era_day_count_step(a);
        lemma_era_day_count_monotone(a + 1, b);
    }
}

/// Where a day of an era falls: the year `civil_from_days` finds starts on
/// or before it and lasts beyond it.
proof fn lemma_era_year_of_day(doe: int)
    requires
        0 <= doe < 146_097,
    ensures
        ({
            let k = era_day_count(doe) / 365;
            &&& 0 <= k < 400
            &&& era_year_start(k) <= doe < era_year_start(k) + era_year_len(k)
        }),
{
    let k = era_day_count(doe) / 365;
    lemma_era_year_tiles(0);
    lemma_era_year_tiles(399);
    lemma_era_day_count_monotone(0, doe);
    lemma_era_day_count_monotone(doe, 146_096);
    assert(0 <= k < 400);
    lemma_era_year_tiles(k);
    if doe < era_year_start(k) {
        assert(k >= 1);
        lemma_era_year_tiles(k - 1);
        lemma_era_day_count_monotone(doe, era_year_start(k - 1) + era_year_len(k - 1) - 1);
    }
    if doe >= era_year_start(k) + era_year_len(k) {
        assert(k < 399);
        lemma_era_year_tiles(k + 1);
        lemma_era_day_count_monotone(era_year_start(k + 1), doe);
    }
}

proof fn lemma_march_month_bv(doy: u32, t: u32, mp: u32, w: u32, c: u32)
    by (bit_vector)
    requires
        doy < 366,
        t == 5 * doy + 2,
        mp == t / 153,
        w == 153 * mp + 2,
        c == w / 5,
    ensures
        mp <= 11,
        c <= doy,
{
}

proof fn lemma_march_day_bv(doy: u32, t: u32, mp: u32, w: u32, c: u32, d: u32)
    by (bit_vector)
    requires
        doy < 366,
        t == 5 * doy + 2,
        mp == t / 153,
        w == 153 * mp + 2,
        c == w / 5,
        d == doy + 1 - c,
    ensures
        (mp == 1 || mp == 3 || mp == 6 || mp == 8) ==> d <= 30,
        mp < 11 ==> d <= 31,
        mp == 11 ==> (d <= 28 || (doy == 365 && d == 29)),
{
}

/// The month offset from March (0 to 11) of a day of a March-based year.
spec fn march_month(doy: int) -> int {
    (5 * doy + 2) / 153
}

/// The calendar month of a month offset from March.
spec fn month_of(mp: int) -> nat {
    if mp < 10 { (mp + 3) as nat } else { (mp - 9) as nat }
}

/// How `civil_from_days` splits a day of a March-based year into month and
/// day: each day lands in one of the twelve months from March, within that
/// month's length, February having its 29th day only as day 365.
proof fn lemma_march_year_day(doy: int)
    requires
        0 <= doy < 366,
    ensures
        ({
            let mp = march_month(doy);
            let d = doy - (153 * mp + 2) / 5 + 1;
            &&& 0 <= mp <= 11
            &&& 1 <= d
            &&& mp < 11 ==> d <= days_in_month(1, month_of(mp))
            &&& mp == 11 ==> (d <= 28 || (doy == 365 && d == 29))
        }),
{
    let mp = march_month(doy);
    let c = (153 * mp + 2) / 5;
    assert(0 <= mp <= 11 && 0 <= c <= doy) by {
        let t = 5 * doy + 2;
        lemma_march_month_bv(doy as u32, t as u32, (t / 153) as u32, (153 * (t / 153) + 2) as u32,
            ((153 * (t / 153) + 2) / 5) as u32);
    }
    let d = doy - c + 1;
    lemma_march_day_bv(doy as u32, (5 * doy + 2) as u32, mp as u32, (153 * mp + 2) as u32, c as u32, d as u32);
}

proof fn lemma_days_before_month(y: nat, m: nat)
    requires
        1 <= m <= 12,
    ensures
        days_before_month(y, m) == if m == 1 {
            0
        } else if m == 2 {
            31
        } else {
            59 + (if is_leap_year(y) { 1nat } else { 0nat }) + ((153 * (m - 3) + 2) / 5) as nat
        },
{
    reveal_with_fuel(days_before_month, 13);
}

proof fn lemma_leap_count_of_era(era: nat, x: nat)
    ensures
        leap_count(400 * era + x) == 97 * era + leap_count(x),
        is_leap_year(400 * era + x) == is_leap_year(x),
{
    assert((400 * era + x + 3) / 4 == 100 * era + (x + 3) / 4);
    assert((400 * era + x + 99) / 100 == 4 * era + (x + 99) / 100);
    assert((400 * era + x + 399) / 400 == era + (x + 399) / 400);
    assert((400 * era + x) % 4 == x % 4);
    assert((400 * era + x) % 100 == x % 100);
    assert((400 * era + x) % 400 == x % 400);
}

proof fn lemma_leap_count_in_era(k: nat)
    requires
        k < 400,
    ensures
        leap_count(k + 1) == k / 4 - k / 100 + 1,
        leap_count(k) + (if is_leap_year(k) { 1nat } else { 0nat }) == leap_count(k + 1),
{
    lemma_leap_years_before(k);
    lemma_leap_years_before(k + 1);
    assert(leap_years_before(k + 1) == leap_years_before(k) + if is_leap_year(k) { 1nat } else { 0nat });
}

/// The date of day `doy` (from March 1) of year `k` of era `era`, as
/// `civil_from_days` assembles it.
spec fn era_date(era: nat, k: nat, doy: int) -> (nat, nat, nat) {
    let mp = march_month(doy);
    let m = month_of(mp);
    (
        k + era * 400 + if m <= 2 { 1nat } else { 0nat },
        m,
        (doy - (153 * mp + 2) / 5 + 1) as nat,
    )
}

proof fn lemma_era_date_spring(era: nat, k: nat, doy: int)
    requires
        k < 400,
        0 <= doy < era_year_len(k as int),
        march_month(doy) < 10,
    ensures
        ({
            let (y, m, d) = era_date(era, k, doy);
            &&& 3 <= m <= 12
            &&& 1 <= d <= days_in_month(y, m)
            &&& days_before_year(y) + days_before_month(y, m) + d - 1 == 146_097 * era
                + era_year_start(k as int) + doy + 60
        }),
{
    lemma_march_year_day(doy);
    let (y, m, d) = era_date(era, k, doy);
    let mp = march_month(doy);
    assert(y == 400 * era + k);
    lemma_leap_count_in_era(k);
    lemma_leap_count_of_era(era, k);
    lemma_leap_years_before(y);
    lemma_days_before_month(y, m);
    assert(m - 3 == mp);
}

proof fn lemma_era_date_winter(era: nat, k: nat, doy: int)
    requires
        k < 400,
        0 <= doy < era_year_len(k as int),
        march_month(doy) >= 10,
    ensures
        ({
            let (y, m, d) = era_date(era, k, doy);
            &&& 1 <= m <= 2
            &&& 1 <= d <= days_in_month(y, m)
            &&& days_before_year(y) + days_before_month(y, m) + d - 1 == 146_097 * era
                + era_year_start(k as int) + doy + 60
        }),
{
    lemma_march_year_day(doy);
    let (y, m, d) = era_date(era, k, doy);
    let mp = march_month(doy);
    assert(y == 400 * era + (k + 1));
    lemma_leap_count_in_era(k);
    lemma_leap_count_of_era(era, k + 1);
    lemma_leap_years_before(y);
    lemma_days_before_month(y, m);
    if mp == 11 && d == 29 {
        assert(is_leap_year(k + 1));
    }
}

/// `civil_from_days` finds the calendar date `days` days after 1970-01-01:
/// a valid date of the Gregorian calendar, lying exactly that many days
/// after the epoch.
pub proof fn lemma_civil_from_days_is_the_calendar_date(days: nat)
    ensures
        ({
            let (y, m, d) = civil_from_days(days);
            &&& 1 <= m <= 12
            &&& 1 <= d <= days_in_month(y, m)
            &&& days_since_epoch(y, m, d) == days
        }),
{
    let s = days + epoch_shift();
    let era = s / 146_097;
    let doe = s % 146_097;
    lemma_era_year_of_day(doe as int);
    let k = era_day_count(doe as int) / 365;
    let doy = doe - era_year_start(k);
    assert(civil_from_days(days) == era_date(era, k as nat, doy));
    if march_month(doy) < 10 {
        lemma_era_date_spring(era, k as nat, doy);
    } else {
        lemma_era_date_winter(era, k as nat, doy);
    }
    lemma_leap_years_before(1970);
    assert(s == 146_097 * era + doe);
}

/// `seconds` since the Unix epoch as `YYYY-MM-DD hh:mm:ss UTC`.
pub open spec fn utc_timestamp_text(seconds: nat) -> Seq<char> {
    let date = civil_from_days(seconds / 86_400);
    let t = seconds % 86_400;
    zero_padded(date.0, 4) + "-"@ + zero_padded(date.1, 2) + "-"@ + zero_padded(date.2, 2) + " "@
        + zero_padded(t / 3_600, 2) + ":"@ + zero_padded(t % 3_600 / 60, 2) + ":"@ + zero_padded(
        t % 60,
        2,
    ) + " UTC"@
}

/// Formats a Unix time for people.
pub fn format_utc_timestamp(seconds: u64) -> (r: String)
    ensures
        r@ == utc_timestamp_text(seconds as nat),
{
    let days = seconds / 86_400;
    let seconds_in_day = seconds % 86_400;
    let hour = seconds_in_day / 3_600;
    let minute = seconds_in_day % 3_600 / 60;
    let second = seconds_in_day % 60;
    let shifted = days + 719_468;
    let era = shifted / 146_097;
    let doe = shifted % 146_097;
    let yoe = (doe - doe / 1_460 + doe / 36_524 - doe / 146_096) / 365;
    let doy = doe - (365 * yoe + yoe / 4 - yoe / 100);
    let mp = (5 * doy + 2) / 153;
    let day = doy - (153 * mp + 2) / 5 + 1;
    let month = if mp < 10 { mp + 3 } else { mp - 9 };
    let year = yoe + era * 400 + if month <= 2 { 1 } else { 0 };
    let mut r = String::new();
    push_zero_padded(&mut r, year, 4);
    push_str(&mut r, "-");
    push_zero_padded(&mut r, month, 2);
    push_str(&mut r, "-");
    push_zero_padded(&mut r, day, 2);
    push_str(&mut r, " ");
    push_zero_padded(&mut r, hour, 2);
    push_str(&mut r, ":");
    push_zero_padded(&mut r, minute, 2);
    push_str(&mut r, ":");
    push_zero_padded(&mut r, second, 2);
    push_str(&mut r, " UTC");
    r
}

} // verus!
