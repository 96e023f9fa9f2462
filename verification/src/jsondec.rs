//! A client-side decode of the JSON text of a metrics record, stated
//! as a specification, and the proof that decoding the encoder's output
//! recovers every field exactly.

use vstd::prelude::*;
use crate::config::{digit_value, is_digit_char};
use crate::digits::{centi_of, dec_of, digit_char_of};
use crate::json::{esc, esc_char, json_of, jstr};
use crate::json::{j_uptime, j_load, j_load_five, j_load_fifteen, j_cpu, j_mem_used, j_mem_total,
    j_disk_used, j_disk_total, j_rx_rate, j_tx_rate, j_rx_total, j_tx_total, j_swap_used,
    j_swap_total, j_tcp, j_udp, j_processes, j_threads};
use crate::metrics::Metrics;

verus! {

/// What a decode of the JSON text recovers: every field of the record,
/// as a plain mathematical value.
pub ghost struct MetricsFields {
    pub os_name: Seq<char>,
    pub uptime_days: nat,
    pub load_one_centi: nat,
    pub load_five_centi: nat,
    pub load_fifteen_centi: nat,
    pub cpu_centi: nat,
    pub mem_used: Seq<char>,
    pub mem_total: Seq<char>,
    pub disk_used_gib_centi: nat,
    pub disk_total_gib_centi: nat,
    pub rx_rate: nat,
    pub tx_rate: nat,
    pub rx_total_gib_centi: nat,
    pub tx_total_gib_centi: nat,
    pub swap_used_mib_centi: nat,
    pub swap_total_mib_centi: nat,
    pub tcp: nat,
    pub udp: nat,
    pub processes: nat,
    pub threads: nat,
}

/// The fields a given record carries.
pub open spec fn fields_of(m: Metrics) -> MetricsFields {
    MetricsFields {
        os_name: m.os_name@,
        uptime_days: m.uptime_days as nat,
        load_one_centi: m.load_one_centi as nat,
        load_five_centi: m.load_five_centi as nat,
        load_fifteen_centi: m.load_fifteen_centi as nat,
        cpu_centi: m.cpu_centi as nat,
        mem_used: m.mem_used@,
        mem_total: m.mem_total@,
        disk_used_gib_centi: m.disk_used_gib_centi as nat,
        disk_total_gib_centi: m.disk_total_gib_centi as nat,
        rx_rate: m.rx_rate as nat,
        tx_rate: m.tx_rate as nat,
        rx_total_gib_centi: m.rx_total_gib_centi as nat,
        tx_total_gib_centi: m.tx_total_gib_centi as nat,
        swap_used_mib_centi: m.swap_used_mib_centi as nat,
        swap_total_mib_centi: m.swap_total_mib_centi as nat,
        tcp: m.tcp as nat,
        udp: m.udp as nat,
        processes: m.processes as nat,
        threads: m.threads as nat,
    }
}

/// Consumes an expected literal from the front of the text.
pub open spec fn p_lit(s: Seq<char>, lit: Seq<char>) -> Option<Seq<char>> {
    if lit.is_prefix_of(s) {
        Option::Some(s.skip(lit.len() as int))
    } else {
        Option::None
    }
}

/// Consumes every leading digit, accumulating the value left to right.
pub open spec fn p_digits(s: Seq<char>, acc: nat) -> (nat, Seq<char>)
    decreases s.len(),
{
    if s.len() > 0 && is_digit_char(s[0]) {
        p_digits(s.skip(1), acc * 10 + digit_value(s[0]))
    } else {
        (acc, s)
    }
}

/// Reads a decimal number: at least one digit, maximal.
pub open spec fn p_num(s: Seq<char>) -> Option<(nat, Seq<char>)> {
    if s.len() > 0 && is_digit_char(s[0]) {
        Option::Some(p_digits(s, 0))
    } else {
        Option::None
    }
}

/// Reads a fixed-point decimal with exactly two fraction digits, as a
/// count of hundredths.
pub open spec fn p_centi(s: Seq<char>) -> Option<(nat, Seq<char>)> {
    match p_num(s) {
        Option::None => Option::None,
        Option::Some((ip, r)) => if r.len() >= 3 && r[0] == '.' && is_digit_char(r[1])
            && is_digit_char(r[2]) {
            Option::Some((ip * 100 + digit_value(r[1]) * 10 + digit_value(r[2]), r.skip(3)))
        } else {
            Option::None
        },
    }
}

/// Reads the inside of a JSON string up to its closing quote, undoing
/// the escapes.
pub open spec fn p_jstr_inner(s: Seq<char>) -> Option<(Seq<char>, Seq<char>)>
    decreases s.len(),
{
    if s.len() == 0 {
        Option::None
    } else if s[0] == '"' {
        Option::Some((Seq::empty(), s.skip(1)))
    } else if s[0] == '\\' {
        if s.len() < 2 {
            Option::None
        } else {
            match p_jstr_inner(s.skip(2)) {
                Option::Some((v, r)) => Option::Some((seq![s[1]] + v, r)),
                Option::None => Option::None,
            }
        }
    } else {
        match p_jstr_inner(s.skip(1)) {
            Option::Some((v, r)) => Option::Some((seq![s[0]] + v, r)),
            Option::None => Option::None,
        }
    }
}

/// Reads a JSON string value, quotes and escapes undone.
pub open spec fn p_jstr(s: Seq<char>) -> Option<(Seq<char>, Seq<char>)> {
    if s.len() > 0 && s[0] == '"' {
        p_jstr_inner(s.skip(1))
    } else {
        Option::None
    }
}

pub open spec fn parse_uptime(s: Seq<char>, os_name: Seq<char>) -> Option<MetricsFields> {
    match p_lit(s, ",\"uptime_days\":"@) {
        Option::None => Option::None,
        Option::Some(s1) => match p_num(s1) {
            Option::None => Option::None,
            Option::Some((uptime_days, r)) => parse_load(r, os_name, uptime_days),
        },
    }
}

pub open spec fn parse_load(s: Seq<char>, os_name: Seq<char>, uptime_days: nat) -> Option<MetricsFields> {
    match p_lit(s, ",\"load\":["@) {
        Option::None => Option::None,
        Option::Some(s1) => match p_centi(s1) {
            Option::None => Option::None,
            Option::Some((load_one_centi, r)) => parse_load_five(r, os_name, uptime_days, load_one_centi),
        },
    }
}

pub open spec fn parse_load_five(s: Seq<char>, os_name: Seq<char>, uptime_days: nat, load_one_centi: nat) -> Option<MetricsFields> {
    match p_lit(s, ","@) {
        Option::None => Option::None,
        Option::Some(s1) => match p_centi(s1) {
            Option::None => Option::None,
            Option::Some((load_five_centi, r)) => parse_load_fifteen(r, os_name, uptime_days, load_one_centi, load_five_centi),
        },
    }
}

pub open spec fn parse_load_fifteen(s: Seq<char>, os_name: Seq<char>, uptime_days: nat, load_one_centi: nat, load_five_centi: nat) -> Option<MetricsFields> {
    match p_lit(s, ","@) {
        Option::None => Option::None,
        Option::Some(s1) => match p_centi(s1) {
            Option::None => Option::None,
            Option::Some((load_fifteen_centi, r)) => parse_cpu(r, os_name, uptime_days, load_one_centi, load_five_centi, load_fifteen_centi),
        },
    }
}

pub open spec fn parse_cpu(s: Seq<char>, os_name: Seq<char>, uptime_days: nat, load_one_centi: nat, load_five_centi: nat, load_fifteen_centi: nat) -> Option<MetricsFields> {
    match p_lit(s, "],\"cpu\":"@) {
        Option::None => Option::None,
        Option::Some(s1) => match p_centi(s1) {
            Option::None => Option::None,
            Option::Some((cpu_centi, r)) => parse_mem_used(r, os_name, uptime_days, load_one_centi, load_five_centi, load_fifteen_centi, cpu_centi),
        },
    }
}

pub open spec fn parse_mem_used(s: Seq<char>, os_name: Seq<char>, uptime_days: nat, load_one_centi: nat, load_five_centi: nat, load_fifteen_centi: nat, cpu_centi: nat) -> Option<MetricsFields> {
    match p_lit(s, ",\"mem_used\":"@) {
        Option::None => Option::None,
        Option::Some(s1) => match p_jstr(s1) {
            Option::None => Option::None,
            Option::Some((mem_used, r)) => parse_mem_total(r, os_name, uptime_days, load_one_centi, load_five_centi, load_fifteen_centi, cpu_centi, mem_used),
        },
    }
}

pub open spec fn parse_mem_total(s: Seq<char>, os_name: Seq<char>, uptime_days: nat, load_one_centi: nat, load_five_centi: nat, load_fifteen_centi: nat, cpu_centi: nat, mem_used: Seq<char>) -> Option<MetricsFields> {
    match p_lit(s, ",\"mem_total\":"@) {
        Option::None => Option::None,
        Option::Some(s1) => match p_jstr(s1) {
            Option::None => Option::None,
            Option::Some((mem_total, r)) => parse_disk_used(r, os_name, uptime_days, load_one_centi, load_five_centi, load_fifteen_centi, cpu_centi, mem_used, mem_total),
        },
    }
}

pub open spec fn parse_disk_used(s: Seq<char>, os_name: Seq<char>, uptime_days: nat, load_one_centi: nat, load_five_centi: nat, load_fifteen_centi: nat, cpu_centi: nat, mem_used: Seq<char>, mem_total: Seq<char>) -> Option<MetricsFields> {
    match p_lit(s, ",\"disk_used_gib\":"@) {
        Option::None => Option::None,
        Option::Some(s1) => match p_centi(s1) {
            Option::None => Option::None,
            Option::Some((disk_used_gib_centi, r)) => parse_disk_total(r, os_name, uptime_days, load_one_centi, load_five_centi, load_fifteen_centi, cpu_centi, mem_used, mem_total, disk_used_gib_centi),
        },
    }
}

pub open spec fn parse_disk_total(s: Seq<char>, os_name: Seq<char>, uptime_days: nat, load_one_centi: nat, load_five_centi: nat, load_fifteen_centi: nat, cpu_centi: nat, mem_used: Seq<char>, mem_total: Seq<char>, disk_used_gib_centi: nat) -> Option<MetricsFields> {
    match p_lit(s, ",\"disk_total_gib\":"@) {
        Option::None => Option::None,
        Option::Some(s1) => match p_centi(s1) {
            Option::None => Option::None,
            Option::Some((disk_total_gib_centi, r)) => parse_rx_rate(r, os_name, uptime_days, load_one_centi, load_five_centi, load_fifteen_centi, cpu_centi, mem_used, mem_total, disk_used_gib_centi, disk_total_gib_centi),
        },
    }
}

pub open spec fn parse_rx_rate(s: Seq<char>, os_name: Seq<char>, uptime_days: nat, load_one_centi: nat, load_five_centi: nat, load_fifteen_centi: nat, cpu_centi: nat, mem_used: Seq<char>, mem_total: Seq<char>, disk_used_gib_centi: nat, disk_total_gib_centi: nat) -> Option<MetricsFields> {
    match p_lit(s, ",\"rx_rate\":"@) {
        Option::None => Option::None,
        Option::Some(s1) => match p_num(s1) {
            Option::None => Option::None,
            Option::Some((rx_rate, r)) => parse_tx_rate(r, os_name, uptime_days, load_one_centi, load_five_centi, load_fifteen_centi, cpu_centi, mem_used, mem_total, disk_used_gib_centi, disk_total_gib_centi, rx_rate),
        },
    }
}

pub open spec fn parse_tx_rate(s: Seq<char>, os_name: Seq<char>, uptime_days: nat, load_one_centi: nat, load_five_centi: nat, load_fifteen_centi: nat, cpu_centi: nat, mem_used: Seq<char>, mem_total: Seq<char>, disk_used_gib_centi: nat, disk_total_gib_centi: nat, rx_rate: nat) -> Option<MetricsFields> {
    match p_lit(s, ",\"tx_rate\":"@) {
        Option::None => Option::None,
        Option::Some(s1) => match p_num(s1) {
            Option::None => Option::None,
            Option::Some((tx_rate, r)) => parse_rx_total(r, os_name, uptime_days, load_one_centi, load_five_centi, load_fifteen_centi, cpu_centi, mem_used, mem_total, disk_used_gib_centi, disk_total_gib_centi, rx_rate, tx_rate),
        },
    }
}

pub open spec fn parse_rx_total(s: Seq<char>, os_name: Seq<char>, uptime_days: nat, load_one_centi: nat, load_five_centi: nat, load_fifteen_centi: nat, cpu_centi: nat, mem_used: Seq<char>, mem_total: Seq<char>, disk_used_gib_centi: nat, disk_total_gib_centi: nat, rx_rate: nat, tx_rate: nat) -> Option<MetricsFields> {
    match p_lit(s, ",\"rx_total_gib\":"@) {
        Option::None => Option::None,
        Option::Some(s1) => match p_centi(s1) {
            Option::None => Option::None,
            Option::Some((rx_total_gib_centi, r)) => parse_tx_total(r, os_name, uptime_days, load_one_centi, load_five_centi, load_fifteen_centi, cpu_centi, mem_used, mem_total, disk_used_gib_centi, disk_total_gib_centi, rx_rate, tx_rate, rx_total_gib_centi),
        },
    }
}

pub open spec fn parse_tx_total(s: Seq<char>, os_name: Seq<char>, uptime_days: nat, load_one_centi: nat, load_five_centi: nat, load_fifteen_centi: nat, cpu_centi: nat, mem_used: Seq<char>, mem_total: Seq<char>, disk_used_gib_centi: nat, disk_total_gib_centi: nat, rx_rate: nat, tx_rate: nat, rx_total_gib_centi: nat) -> Option<MetricsFields> {
    match p_lit(s, ",\"tx_total_gib\":"@) {
        Option::None => Option::None,
        Option::Some(s1) => match p_centi(s1) {
            Option::None => Option::None,
            Option::Some((tx_total_gib_centi, r)) => parse_swap_used(r, os_name, uptime_days, load_one_centi, load_five_centi, load_fifteen_centi, cpu_centi, mem_used, mem_total, disk_used_gib_centi, disk_total_gib_centi, rx_rate, tx_rate, rx_total_gib_centi, tx_total_gib_centi),
        },
    }
}

pub open spec fn parse_swap_used(s: Seq<char>, os_name: Seq<char>, uptime_days: nat, load_one_centi: nat, load_five_centi: nat, load_fifteen_centi: nat, cpu_centi: nat, mem_used: Seq<char>, mem_total: Seq<char>, disk_used_gib_centi: nat, disk_total_gib_centi: nat, rx_rate: nat, tx_rate: nat, rx_total_gib_centi: nat, tx_total_gib_centi: nat) -> Option<MetricsFields> {
    match p_lit(s, ",\"swap_used_mib\":"@) {
        Option::None => Option::None,
        Option::Some(s1) => match p_centi(s1) {
            Option::None => Option::None,
            Option::Some((swap_used_mib_centi, r)) => parse_swap_total(r, os_name, uptime_days, load_one_centi, load_five_centi, load_fifteen_centi, cpu_centi, mem_used, mem_total, disk_used_gib_centi, disk_total_gib_centi, rx_rate, tx_rate, rx_total_gib_centi, tx_total_gib_centi, swap_used_mib_centi),
        },
    }
}

pub open spec fn parse_swap_total(s: Seq<char>, os_name: Seq<char>, uptime_days: nat, load_one_centi: nat, load_five_centi: nat, load_fifteen_centi: nat, cpu_centi: nat, mem_used: Seq<char>, mem_total: Seq<char>, disk_used_gib_centi: nat, disk_total_gib_centi: nat, rx_rate: nat, tx_rate: nat, rx_total_gib_centi: nat, tx_total_gib_centi: nat, swap_used_mib_centi: nat) -> Option<MetricsFields> {
    match p_lit(s, ",\"swap_total_mib\":"@) {
        Option::None => Option::None,
        Option::Some(s1) => match p_centi(s1) {
            Option::None => Option::None,
            Option::Some((swap_total_mib_centi, r)) => parse_tcp(r, os_name, uptime_days, load_one_centi, load_five_centi, load_fifteen_centi, cpu_centi, mem_used, mem_total, disk_used_gib_centi, disk_total_gib_centi, rx_rate, tx_rate, rx_total_gib_centi, tx_total_gib_centi, swap_used_mib_centi, swap_total_mib_centi),
        },
    }
}

pub open spec fn parse_tcp(s: Seq<char>, os_name: Seq<char>, uptime_days: nat, load_one_centi: nat, load_five_centi: nat, load_fifteen_centi: nat, cpu_centi: nat, mem_used: Seq<char>, mem_total: Seq<char>, disk_used_gib_centi: nat, disk_total_gib_centi: nat, rx_rate: nat, tx_rate: nat, rx_total_gib_centi: nat, tx_total_gib_centi: nat, swap_used_mib_centi: nat, swap_total_mib_centi: nat) -> Option<MetricsFields> {
    match p_lit(s, ",\"tcp\":"@) {
        Option::None => Option::None,
        Option::Some(s1) => match p_num(s1) {
            Option::None => Option::None,
            Option::Some((tcp, r)) => parse_udp(r, os_name, uptime_days, load_one_centi, load_five_centi, load_fifteen_centi, cpu_centi, mem_used, mem_total, disk_used_gib_centi, disk_total_gib_centi, rx_rate, tx_rate, rx_total_gib_centi, tx_total_gib_centi, swap_used_mib_centi, swap_total_mib_centi, tcp),
        },
    }
}

pub open spec fn parse_udp(s: Seq<char>, os_name: Seq<char>, uptime_days: nat, load_one_centi: nat, load_five_centi: nat, load_fifteen_centi: nat, cpu_centi: nat, mem_used: Seq<char>, mem_total: Seq<char>, disk_used_gib_centi: nat, disk_total_gib_centi: nat, rx_rate: nat, tx_rate: nat, rx_total_gib_centi: nat, tx_total_gib_centi: nat, swap_used_mib_centi: nat, swap_total_mib_centi: nat, tcp: nat) -> Option<MetricsFields> {
    match p_lit(s, ",\"udp\":"@) {
        Option::None => Option::None,
        Option::Some(s1) => match p_num(s1) {
            Option::None => Option::None,
            Option::Some((udp, r)) => parse_processes(r, os_name, uptime_days, load_one_centi, load_five_centi, load_fifteen_centi, cpu_centi, mem_used, mem_total, disk_used_gib_centi, disk_total_gib_centi, rx_rate, tx_rate, rx_total_gib_centi, tx_total_gib_centi, swap_used_mib_centi, swap_total_mib_centi, tcp, udp),
        },
    }
}

pub open spec fn parse_processes(s: Seq<char>, os_name: Seq<char>, uptime_days: nat, load_one_centi: nat, load_five_centi: nat, load_fifteen_centi: nat, cpu_centi: nat, mem_used: Seq<char>, mem_total: Seq<char>, disk_used_gib_centi: nat, disk_total_gib_centi: nat, rx_rate: nat, tx_rate: nat, rx_total_gib_centi: nat, tx_total_gib_centi: nat, swap_used_mib_centi: nat, swap_total_mib_centi: nat, tcp: nat, udp: nat) -> Option<MetricsFields> {
    match p_lit(s, ",\"processes\":"@) {
        Option::None => Option::None,
        Option::Some(s1) => match p_num(s1) {
            Option::None => Option::None,
            Option::Some((processes, r)) => parse_threads(r, os_name, uptime_days, load_one_centi, load_five_centi, load_fifteen_centi, cpu_centi, mem_used, mem_total, disk_used_gib_centi, disk_total_gib_centi, rx_rate, tx_rate, rx_total_gib_centi, tx_total_gib_centi, swap_used_mib_centi, swap_total_mib_centi, tcp, udp, processes),
        },
    }
}

pub open spec fn parse_threads(s: Seq<char>, os_name: Seq<char>, uptime_days: nat, load_one_centi: nat, load_five_centi: nat, load_fifteen_centi: nat, cpu_centi: nat, mem_used: Seq<char>, mem_total: Seq<char>, disk_used_gib_centi: nat, disk_total_gib_centi: nat, rx_rate: nat, tx_rate: nat, rx_total_gib_centi: nat, tx_total_gib_centi: nat, swap_used_mib_centi: nat, swap_total_mib_centi: nat, tcp: nat, udp: nat, processes: nat) -> Option<MetricsFields> {
    match p_lit(s, ",\"threads\":"@) {
        Option::None => Option::None,
        Option::Some(s1) => match p_num(s1) {
            Option::None => Option::None,
            Option::Some((threads, r)) => match p_lit(r, "}"@) {
                Option::None => Option::None,
                Option::Some(r2) => if r2.len() == 0 {
                    Option::Some(MetricsFields {
                        os_name,
                        uptime_days,
                        load_one_centi,
                        load_five_centi,
                        load_fifteen_centi,
                        cpu_centi,
                        mem_used,
                        mem_total,
                        disk_used_gib_centi,
                        disk_total_gib_centi,
                        rx_rate,
                        tx_rate,
                        rx_total_gib_centi,
                        tx_total_gib_centi,
                        swap_used_mib_centi,
                        swap_total_mib_centi,
                        tcp,
                        udp,
                        processes,
                        threads,
                    })
                } else {
                    Option::None
                },
            },
        },
    }
}

/// The client decode of the JSON text of a metrics record: the object
/// with its fixed key order, numbers in decimal, fractional quantities
/// as hundredths, strings unescaped.
pub open spec fn from_json(s: Seq<char>) -> Option<MetricsFields> {
    match p_lit(s, "{\"os_name\":"@) {
        Option::None => Option::None,
        Option::Some(s1) => match p_jstr(s1) {
            Option::None => Option::None,
            Option::Some((os_name, r)) => parse_uptime(r, os_name),
        },
    }
}

proof fn lemma_p_lit(lit: Seq<char>, rest: Seq<char>)
    ensures
        p_lit(lit + rest, lit) == Option::Some(rest),
{
    assert((lit + rest).subrange(0, lit.len() as int) =~= lit);
    assert(lit.is_prefix_of(lit + rest));
    assert((lit + rest).skip(lit.len() as int) =~= rest);
}

proof fn lemma_digit_char_value(d: nat)
    requires
        d < 10,
    ensures
        is_digit_char(digit_char_of(d)),
        digit_value(digit_char_of(d)) == d,
{
}

proof fn lemma_dec_first_digit(n: nat)
    ensures
        dec_of(n).len() >= 1,
        is_digit_char(dec_of(n)[0]),
    decreases n,
{
    if n < 10 {
        lemma_digit_char_value(n);
    } else {
        lemma_dec_first_digit(n / 10);
        assert(dec_of(n)[0] == dec_of(n / 10)[0]);
    }
}

/// The factor by which a number shifts what was read before its digits.
spec fn scale10(n: nat) -> nat
    decreases n,
{
    if n < 10 {
        10
    } else {
        10 * scale10(n / 10)
    }
}

proof fn lemma_p_digits_dec(n: nat, rest: Seq<char>, acc: nat)
    ensures
        p_digits(dec_of(n) + rest, acc) == p_digits(rest, acc * scale10(n) + n),
    decreases n,
{
    if n < 10 {
        lemma_digit_char_value(n);
        let s = dec_of(n) + rest;
        assert(dec_of(n) == seq![digit_char_of(n)]);
        assert(s[0] == digit_char_of(n));
        assert(s.skip(1) =~= rest);
        assert(p_digits(s, acc) == p_digits(rest, acc * 10 + n));
    } else {
        let q = n / 10;
        let rdig = n % 10;
        lemma_digit_char_value(rdig);
        let d = digit_char_of(rdig);
        assert(dec_of(n) == dec_of(q).push(d));
        assert(dec_of(n) + rest =~= dec_of(q) + (seq![d] + rest));
        lemma_p_digits_dec(q, seq![d] + rest, acc);
        let acc2 = acc * scale10(q) + q;
        assert((seq![d] + rest)[0] == d);
        assert((seq![d] + rest).skip(1) =~= rest);
        assert(p_digits(seq![d] + rest, acc2) == p_digits(rest, acc2 * 10 + rdig));
        assert(scale10(n) == 10 * scale10(q));
        assert(acc2 * 10 + rdig == acc * scale10(n) + n) by (nonlinear_arith)
            requires
                acc2 == acc * scale10(q) + q,
                scale10(n) == 10 * scale10(q),
                n == 10 * q + rdig,
        ;
    }
}

proof fn lemma_p_num_dec(n: nat, rest: Seq<char>)
    requires
        rest.len() == 0 || !is_digit_char(rest[0]),
    ensures
        p_num(dec_of(n) + rest) == Option::Some((n, rest)),
{
    lemma_dec_first_digit(n);
    assert((dec_of(n) + rest)[0] == dec_of(n)[0]);
    lemma_p_digits_dec(n, rest, 0);
    assert(0 * scale10(n) + n == n) by (nonlinear_arith);
    assert(p_digits(rest, n) == (n, rest));
}

proof fn lemma_p_centi(c: nat, rest: Seq<char>)
    requires
        rest.len() == 0 || !is_digit_char(rest[0]),
    ensures
        p_centi(centi_of(c) + rest) == Option::Some((c, rest)),
{
    let d1 = digit_char_of((c / 10) % 10);
    let d2 = digit_char_of(c % 10);
    lemma_digit_char_value((c / 10) % 10);
    lemma_digit_char_value(c % 10);
    let mid = seq!['.', d1, d2] + rest;
    assert(centi_of(c) + rest =~= dec_of(c / 100) + mid);
    assert(mid[0] == '.' && !is_digit_char('.'));
    lemma_p_num_dec(c / 100, mid);
    assert(mid.len() >= 3 && mid[1] == d1 && mid[2] == d2);
    assert(mid.skip(3) =~= rest);
    assert(c / 100 * 100 + (c / 10) % 10 * 10 + c % 10 == c) by {
        vstd::arithmetic::div_mod::lemma_fundamental_div_mod(c as int, 100);
        vstd::arithmetic::div_mod::lemma_mod_breakdown(c as int, 10, 10);
        vstd::arithmetic::div_mod::lemma_div_denominator(c as int, 10, 10);
    }
}

proof fn lemma_p_jstr_inner(x: Seq<char>, rest: Seq<char>)
    ensures
        p_jstr_inner(esc(x) + (seq!['"'] + rest)) == Option::Some((x, rest)),
    decreases x.len(),
{
    if x.len() == 0 {
        assert(esc(x) == Seq::<char>::empty());
        assert(esc(x) + (seq!['"'] + rest) =~= seq!['"'] + rest);
        let s = seq!['"'] + rest;
        assert(s[0] == '"');
        assert(s.skip(1) =~= rest);
        assert(x =~= Seq::<char>::empty());
    } else {
        let c = x[0];
        let tail = esc(x.skip(1)) + (seq!['"'] + rest);
        lemma_p_jstr_inner(x.skip(1), rest);
        assert(esc(x) == esc_char(c) + esc(x.skip(1)));
        let s = esc(x) + (seq!['"'] + rest);
        if c == '"' {
            assert(s.len() >= 2 && s[0] == '\\' && s[1] == '"');
            assert(s.skip(2) =~= tail);
            assert(seq![s[1]] + x.skip(1) =~= x);
        } else if c == '\\' {
            assert(s.len() >= 2 && s[0] == '\\' && s[1] == '\\');
            assert(s.skip(2) =~= tail);
            assert(seq![s[1]] + x.skip(1) =~= x);
        } else {
            assert(s[0] == c);
            assert(s.skip(1) =~= tail);
            assert(seq![s[0]] + x.skip(1) =~= x);
        }
    }
}

proof fn lemma_p_jstr(x: Seq<char>, rest: Seq<char>)
    ensures
        p_jstr(jstr(x) + rest) == Option::Some((x, rest)),
{
    let s = jstr(x) + rest;
    assert(s.len() > 0 && s[0] == '"');
    assert(s.skip(1) =~= esc(x) + (seq!['"'] + rest));
    lemma_p_jstr_inner(x, rest);
}

proof fn lemma_parse_uptime(m: Metrics, os_name: Seq<char>)
    ensures
        parse_uptime(j_uptime(m), os_name) == Option::Some(MetricsFields {
            os_name,
            uptime_days: m.uptime_days as nat,
            load_one_centi: m.load_one_centi as nat,
            load_five_centi: m.load_five_centi as nat,
            load_fifteen_centi: m.load_fifteen_centi as nat,
            cpu_centi: m.cpu_centi as nat,
            mem_used: m.mem_used@,
            mem_total: m.mem_total@,
            disk_used_gib_centi: m.disk_used_gib_centi as nat,
            disk_total_gib_centi: m.disk_total_gib_centi as nat,
            rx_rate: m.rx_rate as nat,
            tx_rate: m.tx_rate as nat,
            rx_total_gib_centi: m.rx_total_gib_centi as nat,
            tx_total_gib_centi: m.tx_total_gib_centi as nat,
            swap_used_mib_centi: m.swap_used_mib_centi as nat,
            swap_total_mib_centi: m.swap_total_mib_centi as nat,
            tcp: m.tcp as nat,
            udp: m.udp as nat,
            processes: m.processes as nat,
            threads: m.threads as nat,
        }),
{
    lemma_p_lit(",\"uptime_days\":"@, dec_of(m.uptime_days as nat) + j_load(m));
    reveal_strlit(",\"load\":[");
    assert(j_load(m).len() > 0 && j_load(m)[0] == ",\"load\":["@[0]);
    assert(!is_digit_char(j_load(m)[0]));
    lemma_p_num_dec(m.uptime_days as nat, j_load(m));
    lemma_parse_load(m, os_name, m.uptime_days as nat);
}

proof fn lemma_parse_load(m: Metrics, os_name: Seq<char>, uptime_days: nat)
    ensures
        parse_load(j_load(m), os_name, uptime_days) == Option::Some(MetricsFields {
            os_name,
            uptime_days,
            load_one_centi: m.load_one_centi as nat,
            load_five_centi: m.load_five_centi as nat,
            load_fifteen_centi: m.load_fifteen_centi as nat,
            cpu_centi: m.cpu_centi as nat,
            mem_used: m.mem_used@,
            mem_total: m.mem_total@,
            disk_used_gib_centi: m.disk_used_gib_centi as nat,
            disk_total_gib_centi: m.disk_total_gib_centi as nat,
            rx_rate: m.rx_rate as nat,
            tx_rate: m.tx_rate as nat,
            rx_total_gib_centi: m.rx_total_gib_centi as nat,
            tx_total_gib_centi: m.tx_total_gib_centi as nat,
            swap_used_mib_centi: m.swap_used_mib_centi as nat,
            swap_total_mib_centi: m.swap_total_mib_centi as nat,
            tcp: m.tcp as nat,
            udp: m.udp as nat,
            processes: m.processes as nat,
            threads: m.threads as nat,
        }),
{
    lemma_p_lit(",\"load\":["@, centi_of(m.load_one_centi as nat) + j_load_five(m));
    reveal_strlit(",");
    assert(j_load_five(m).len() > 0 && j_load_five(m)[0] == ","@[0]);
    assert(!is_digit_char(j_load_five(m)[0]));
    lemma_p_centi(m.load_one_centi as nat, j_load_five(m));
    lemma_parse_load_five(m, os_name, uptime_days, m.load_one_centi as nat);
}

proof fn lemma_parse_load_five(m: Metrics, os_name: Seq<char>, uptime_days: nat, load_one_centi: nat)
    ensures
        parse_load_five(j_load_five(m), os_name, uptime_days, load_one_centi) == Option::Some(MetricsFields {
            os_name,
            uptime_days,
            load_one_centi,
            load_five_centi: m.load_five_centi as nat,
            load_fifteen_centi: m.load_fifteen_centi as nat,
            cpu_centi: m.cpu_centi as nat,
            mem_used: m.mem_used@,
            mem_total: m.mem_total@,
            disk_used_gib_centi: m.disk_used_gib_centi as nat,
            disk_total_gib_centi: m.disk_total_gib_centi as nat,
            rx_rate: m.rx_rate as nat,
            tx_rate: m.tx_rate as nat,
            rx_total_gib_centi: m.rx_total_gib_centi as nat,
            tx_total_gib_centi: m.tx_total_gib_centi as nat,
            swap_used_mib_centi: m.swap_used_mib_centi as nat,
            swap_total_mib_centi: m.swap_total_mib_centi as nat,
            tcp: m.tcp as nat,
            udp: m.udp as nat,
            processes: m.processes as nat,
            threads: m.threads as nat,
        }),
{
    lemma_p_lit(","@, centi_of(m.load_five_centi as nat) + j_load_fifteen(m));
    reveal_strlit(",");
    assert(j_load_fifteen(m).len() > 0 && j_load_fifteen(m)[0] == ","@[0]);
    assert(!is_digit_char(j_load_fifteen(m)[0]));
    lemma_p_centi(m.load_five_centi as nat, j_load_fifteen(m));
    lemma_parse_load_fifteen(m, os_name, uptime_days, load_one_centi, m.load_five_centi as nat);
}

proof fn lemma_parse_load_fifteen(m: Metrics, os_name: Seq<char>, uptime_days: nat, load_one_centi: nat, load_five_centi: nat)
    ensures
        parse_load_fifteen(j_load_fifteen(m), os_name, uptime_days, load_one_centi, load_five_centi) == Option::Some(MetricsFields {
            os_name,
            uptime_days,
            load_one_centi,
            load_five_centi,
            load_fifteen_centi: m.load_fifteen_centi as nat,
            cpu_centi: m.cpu_centi as nat,
            mem_used: m.mem_used@,
            mem_total: m.mem_total@,
            disk_used_gib_centi: m.disk_used_gib_centi as nat,
            disk_total_gib_centi: m.disk_total_gib_centi as nat,
            rx_rate: m.rx_rate as nat,
            tx_rate: m.tx_rate as nat,
            rx_total_gib_centi: m.rx_total_gib_centi as nat,
            tx_total_gib_centi: m.tx_total_gib_centi as nat,
            swap_used_mib_centi: m.swap_used_mib_centi as nat,
            swap_total_mib_centi: m.swap_total_mib_centi as nat,
            tcp: m.tcp as nat,
            udp: m.udp as nat,
            processes: m.processes as nat,
            threads: m.threads as nat,
        }),
{
    lemma_p_lit(","@, centi_of(m.load_fifteen_centi as nat) + j_cpu(m));
    reveal_strlit("],\"cpu\":");
    assert(j_cpu(m).len() > 0 && j_cpu(m)[0] == "],\"cpu\":"@[0]);
    assert(!is_digit_char(j_cpu(m)[0]));
    lemma_p_centi(m.load_fifteen_centi as nat, j_cpu(m));
    lemma_parse_cpu(m, os_name, uptime_days, load_one_centi, load_five_centi, m.load_fifteen_centi as nat);
}

proof fn lemma_parse_cpu(m: Metrics, os_name: Seq<char>, uptime_days: nat, load_one_centi: nat, load_five_centi: nat, load_fifteen_centi: nat)
    ensures
        parse_cpu(j_cpu(m), os_name, uptime_days, load_one_centi, load_five_centi, load_fifteen_centi) == Option::Some(MetricsFields {
            os_name,
            uptime_days,
            load_one_centi,
            load_five_centi,
            load_fifteen_centi,
            cpu_centi: m.cpu_centi as nat,
            mem_used: m.mem_used@,
            mem_total: m.mem_total@,
            disk_used_gib_centi: m.disk_used_gib_centi as nat,
            disk_total_gib_centi: m.disk_total_gib_centi as nat,
            rx_rate: m.rx_rate as nat,
            tx_rate: m.tx_rate as nat,
            rx_total_gib_centi: m.rx_total_gib_centi as nat,
            tx_total_gib_centi: m.tx_total_gib_centi as nat,
            swap_used_mib_centi: m.swap_used_mib_centi as nat,
            swap_total_mib_centi: m.swap_total_mib_centi as nat,
            tcp: m.tcp as nat,
            udp: m.udp as nat,
            processes: m.processes as nat,
            threads: m.threads as nat,
        }),
{
    lemma_p_lit("],\"cpu\":"@, centi_of(m.cpu_centi as nat) + j_mem_used(m));
    reveal_strlit(",\"mem_used\":");
    assert(j_mem_used(m).len() > 0 && j_mem_used(m)[0] == ",\"mem_used\":"@[0]);
    assert(!is_digit_char(j_mem_used(m)[0]));
    lemma_p_centi(m.cpu_centi as nat, j_mem_used(m));
    lemma_parse_mem_used(m, os_name, uptime_days, load_one_centi, load_five_centi, load_fifteen_centi, m.cpu_centi as nat);
}

proof fn lemma_parse_mem_used(m: Metrics, os_name: Seq<char>, uptime_days: nat, load_one_centi: nat, load_five_centi: nat, load_fifteen_centi: nat, cpu_centi: nat)
    ensures
        parse_mem_used(j_mem_used(m), os_name, uptime_days, load_one_centi, load_five_centi, load_fifteen_centi, cpu_centi) == Option::Some(MetricsFields {
            os_name,
            uptime_days,
            load_one_centi,
            load_five_centi,
            load_fifteen_centi,
            cpu_centi,
            mem_used: m.mem_used@,
            mem_total: m.mem_total@,
            disk_used_gib_centi: m.disk_used_gib_centi as nat,
            disk_total_gib_centi: m.disk_total_gib_centi as nat,
            rx_rate: m.rx_rate as nat,
            tx_rate: m.tx_rate as nat,
            rx_total_gib_centi: m.rx_total_gib_centi as nat,
            tx_total_gib_centi: m.tx_total_gib_centi as nat,
            swap_used_mib_centi: m.swap_used_mib_centi as nat,
            swap_total_mib_centi: m.swap_total_mib_centi as nat,
            tcp: m.tcp as nat,
            udp: m.udp as nat,
            processes: m.processes as nat,
            threads: m.threads as nat,
        }),
{
    lemma_p_lit(",\"mem_used\":"@, jstr(m.mem_used@) + j_mem_total(m));
    lemma_p_jstr(m.mem_used@, j_mem_total(m));
    lemma_parse_mem_total(m, os_name, uptime_days, load_one_centi, load_five_centi, load_fifteen_centi, cpu_centi, m.mem_used@);
}

proof fn lemma_parse_mem_total(m: Metrics, os_name: Seq<char>, uptime_days: nat, load_one_centi: nat, load_five_centi: nat, load_fifteen_centi: nat, cpu_centi: nat, mem_used: Seq<char>)
    ensures
        parse_mem_total(j_mem_total(m), os_name, uptime_days, load_one_centi, load_five_centi, load_fifteen_centi, cpu_centi, mem_used) == Option::Some(MetricsFields {
            os_name,
            uptime_days,
            load_one_centi,
            load_five_centi,
            load_fifteen_centi,
            cpu_centi,
            mem_used,
            mem_total: m.mem_total@,
            disk_used_gib_centi: m.disk_used_gib_centi as nat,
            disk_total_gib_centi: m.disk_total_gib_centi as nat,
            rx_rate: m.rx_rate as nat,
            tx_rate: m.tx_rate as nat,
            rx_total_gib_centi: m.rx_total_gib_centi as nat,
            tx_total_gib_centi: m.tx_total_gib_centi as nat,
            swap_used_mib_centi: m.swap_used_mib_centi as nat,
            swap_total_mib_centi: m.swap_total_mib_centi as nat,
            tcp: m.tcp as nat,
            udp: m.udp as nat,
            processes: m.processes as nat,
            threads: m.threads as nat,
        }),
{
    lemma_p_lit(",\"mem_total\":"@, jstr(m.mem_total@) + j_disk_used(m));
    lemma_p_jstr(m.mem_total@, j_disk_used(m));
    lemma_parse_disk_used(m, os_name, uptime_days, load_one_centi, load_five_centi, load_fifteen_centi, cpu_centi, mem_used, m.mem_total@);
}

proof fn lemma_parse_disk_used(m: Metrics, os_name: Seq<char>, uptime_days: nat, load_one_centi: nat, load_five_centi: nat, load_fifteen_centi: nat, cpu_centi: nat, mem_used: Seq<char>, mem_total: Seq<char>)
    ensures
        parse_disk_used(j_disk_used(m), os_name, uptime_days, load_one_centi, load_five_centi, load_fifteen_centi, cpu_centi, mem_used, mem_total) == Option::Some(MetricsFields {
            os_name,
            uptime_days,
            load_one_centi,
            load_five_centi,
            load_fifteen_centi,
            cpu_centi,
            mem_used,
            mem_total,
            disk_used_gib_centi: m.disk_used_gib_centi as nat,
            disk_total_gib_centi: m.disk_total_gib_centi as nat,
            rx_rate: m.rx_rate as nat,
            tx_rate: m.tx_rate as nat,
            rx_total_gib_centi: m.rx_total_gib_centi as nat,
            tx_total_gib_centi: m.tx_total_gib_centi as nat,
            swap_used_mib_centi: m.swap_used_mib_centi as nat,
            swap_total_mib_centi: m.swap_total_mib_centi as nat,
            tcp: m.tcp as nat,
            udp: m.udp as nat,
            processes: m.processes as nat,
            threads: m.threads as nat,
        }),
{
    lemma_p_lit(",\"disk_used_gib\":"@, centi_of(m.disk_used_gib_centi as nat) + j_disk_total(m));
    reveal_strlit(",\"disk_total_gib\":");
    assert(j_disk_total(m).len() > 0 && j_disk_total(m)[0] == ",\"disk_total_gib\":"@[0]);
    assert(!is_digit_char(j_disk_total(m)[0]));
    lemma_p_centi(m.disk_used_gib_centi as nat, j_disk_total(m));
    lemma_parse_disk_total(m, os_name, uptime_days, load_one_centi, load_five_centi, load_fifteen_centi, cpu_centi, mem_used, mem_total, m.disk_used_gib_centi as nat);
}

proof fn lemma_parse_disk_total(m: Metrics, os_name: Seq<char>, uptime_days: nat, load_one_centi: nat, load_five_centi: nat, load_fifteen_centi: nat, cpu_centi: nat, mem_used: Seq<char>, mem_total: Seq<char>, disk_used_gib_centi: nat)
    ensures
        parse_disk_total(j_disk_total(m), os_name, uptime_days, load_one_centi, load_five_centi, load_fifteen_centi, cpu_centi, mem_used, mem_total, disk_used_gib_centi) == Option::Some(MetricsFields {
            os_name,
            uptime_days,
            load_one_centi,
            load_five_centi,
            load_fifteen_centi,
            cpu_centi,
            mem_used,
            mem_total,
            disk_used_gib_centi,
            disk_total_gib_centi: m.disk_total_gib_centi as nat,
            rx_rate: m.rx_rate as nat,
            tx_rate: m.tx_rate as nat,
            rx_total_gib_centi: m.rx_total_gib_centi as nat,
            tx_total_gib_centi: m.tx_total_gib_centi as nat,
            swap_used_mib_centi: m.swap_used_mib_centi as nat,
            swap_total_mib_centi: m.swap_total_mib_centi as nat,
            tcp: m.tcp as nat,
            udp: m.udp as nat,
            processes: m.processes as nat,
            threads: m.threads as nat,
        }),
{
    lemma_p_lit(",\"disk_total_gib\":"@, centi_of(m.disk_total_gib_centi as nat) + j_rx_rate(m));
    reveal_strlit(",\"rx_rate\":");
    assert(j_rx_rate(m).len() > 0 && j_rx_rate(m)[0] == ",\"rx_rate\":"@[0]);
    assert(!is_digit_char(j_rx_rate(m)[0]));
    lemma_p_centi(m.disk_total_gib_centi as nat, j_rx_rate(m));
    lemma_parse_rx_rate(m, os_name, uptime_days, load_one_centi, load_five_centi, load_fifteen_centi, cpu_centi, mem_used, mem_total, disk_used_gib_centi, m.disk_total_gib_centi as nat);
}

proof fn lemma_parse_rx_rate(m: Metrics, os_name: Seq<char>, uptime_days: nat, load_one_centi: nat, load_five_centi: nat, load_fifteen_centi: nat, cpu_centi: nat, mem_used: Seq<char>, mem_total: Seq<char>, disk_used_gib_centi: nat, disk_total_gib_centi: nat)
    ensures
        parse_rx_rate(j_rx_rate(m), os_name, uptime_days, load_one_centi, load_five_centi, load_fifteen_centi, cpu_centi, mem_used, mem_total, disk_used_gib_centi, disk_total_gib_centi) == Option::Some(MetricsFields {
            os_name,
            uptime_days,
            load_one_centi,
            load_five_centi,
            load_fifteen_centi,
            cpu_centi,
            mem_used,
            mem_total,
            disk_used_gib_centi,
            disk_total_gib_centi,
            rx_rate: m.rx_rate as nat,
            tx_rate: m.tx_rate as nat,
            rx_total_gib_centi: m.rx_total_gib_centi as nat,
            tx_total_gib_centi: m.tx_total_gib_centi as nat,
            swap_used_mib_centi: m.swap_used_mib_centi as nat,
            swap_total_mib_centi: m.swap_total_mib_centi as nat,
            tcp: m.tcp as nat,
            udp: m.udp as nat,
            processes: m.processes as nat,
            threads: m.threads as nat,
        }),
{
    lemma_p_lit(",\"rx_rate\":"@, dec_of(m.rx_rate as nat) + j_tx_rate(m));
    reveal_strlit(",\"tx_rate\":");
    assert(j_tx_rate(m).len() > 0 && j_tx_rate(m)[0] == ",\"tx_rate\":"@[0]);
    assert(!is_digit_char(j_tx_rate(m)[0]));
    lemma_p_num_dec(m.rx_rate as nat, j_tx_rate(m));
    lemma_parse_tx_rate(m, os_name, uptime_days, load_one_centi, load_five_centi, load_fifteen_centi, cpu_centi, mem_used, mem_total, disk_used_gib_centi, disk_total_gib_centi, m.rx_rate as nat);
}

proof fn lemma_parse_tx_rate(m: Metrics, os_name: Seq<char>, uptime_days: nat, load_one_centi: nat, load_five_centi: nat, load_fifteen_centi: nat, cpu_centi: nat, mem_used: Seq<char>, mem_total: Seq<char>, disk_used_gib_centi: nat, disk_total_gib_centi: nat, rx_rate: nat)
    ensures
        parse_tx_rate(j_tx_rate(m), os_name, uptime_days, load_one_centi, load_five_centi, load_fifteen_centi, cpu_centi, mem_used, mem_total, disk_used_gib_centi, disk_total_gib_centi, rx_rate) == Option::Some(MetricsFields {
            os_name,
            uptime_days,
            load_one_centi,
            load_five_centi,
            load_fifteen_centi,
            cpu_centi,
            mem_used,
            mem_total,
            disk_used_gib_centi,
            disk_total_gib_centi,
            rx_rate,
            tx_rate: m.tx_rate as nat,
            rx_total_gib_centi: m.rx_total_gib_centi as nat,
            tx_total_gib_centi: m.tx_total_gib_centi as nat,
            swap_used_mib_centi: m.swap_used_mib_centi as nat,
            swap_total_mib_centi: m.swap_total_mib_centi as nat,
            tcp: m.tcp as nat,
            udp: m.udp as nat,
            processes: m.processes as nat,
            threads: m.threads as nat,
        }),
{
    lemma_p_lit(",\"tx_rate\":"@, dec_of(m.tx_rate as nat) + j_rx_total(m));
    reveal_strlit(",\"rx_total_gib\":");
    assert(j_rx_total(m).len() > 0 && j_rx_total(m)[0] == ",\"rx_total_gib\":"@[0]);
    assert(!is_digit_char(j_rx_total(m)[0]));
    lemma_p_num_dec(m.tx_rate as nat, j_rx_total(m));
    lemma_parse_rx_total(m, os_name, uptime_days, load_one_centi, load_five_centi, load_fifteen_centi, cpu_centi, mem_used, mem_total, disk_used_gib_centi, disk_total_gib_centi, rx_rate, m.tx_rate as nat);
}

proof fn lemma_parse_rx_total(m: Metrics, os_name: Seq<char>, uptime_days: nat, load_one_centi: nat, load_five_centi: nat, load_fifteen_centi: nat, cpu_centi: nat, mem_used: Seq<char>, mem_total: Seq<char>, disk_used_gib_centi: nat, disk_total_gib_centi: nat, rx_rate: nat, tx_rate: nat)
    ensures
        parse_rx_total(j_rx_total(m), os_name, uptime_days, load_one_centi, load_five_centi, load_fifteen_centi, cpu_centi, mem_used, mem_total, disk_used_gib_centi, disk_total_gib_centi, rx_rate, tx_rate) == Option::Some(MetricsFields {
            os_name,
            uptime_days,
            load_one_centi,
            load_five_centi,
            load_fifteen_centi,
            cpu_centi,
            mem_used,
            mem_total,
            disk_used_gib_centi,
            disk_total_gib_centi,
            rx_rate,
            tx_rate,
            rx_total_gib_centi: m.rx_total_gib_centi as nat,
            tx_total_gib_centi: m.tx_total_gib_centi as nat,
            swap_used_mib_centi: m.swap_used_mib_centi as nat,
            swap_total_mib_centi: m.swap_total_mib_centi as nat,
            tcp: m.tcp as nat,
            udp: m.udp as nat,
            processes: m.processes as nat,
            threads: m.threads as nat,
        }),
{
    lemma_p_lit(",\"rx_total_gib\":"@, centi_of(m.rx_total_gib_centi as nat) + j_tx_total(m));
    reveal_strlit(",\"tx_total_gib\":");
    assert(j_tx_total(m).len() > 0 && j_tx_total(m)[0] == ",\"tx_total_gib\":"@[0]);
    assert(!is_digit_char(j_tx_total(m)[0]));
    lemma_p_centi(m.rx_total_gib_centi as nat, j_tx_total(m));
    lemma_parse_tx_total(m, os_name, uptime_days, load_one_centi, load_five_centi, load_fifteen_centi, cpu_centi, mem_used, mem_total, disk_used_gib_centi, disk_total_gib_centi, rx_rate, tx_rate, m.rx_total_gib_centi as nat);
}

proof fn lemma_parse_tx_total(m: Metrics, os_name: Seq<char>, uptime_days: nat, load_one_centi: nat, load_five_centi: nat, load_fifteen_centi: nat, cpu_centi: nat, mem_used: Seq<char>, mem_total: Seq<char>, disk_used_gib_centi: nat, disk_total_gib_centi: nat, rx_rate: nat, tx_rate: nat, rx_total_gib_centi: nat)
    ensures
        parse_tx_total(j_tx_total(m), os_name, uptime_days, load_one_centi, load_five_centi, load_fifteen_centi, cpu_centi, mem_used, mem_total, disk_used_gib_centi, disk_total_gib_centi, rx_rate, tx_rate, rx_total_gib_centi) == Option::Some(MetricsFields {
            os_name,
            uptime_days,
            load_one_centi,
            load_five_centi,
            load_fifteen_centi,
            cpu_centi,
            mem_used,
            mem_total,
            disk_used_gib_centi,
            disk_total_gib_centi,
            rx_rate,
            tx_rate,
            rx_total_gib_centi,
            tx_total_gib_centi: m.tx_total_gib_centi as nat,
            swap_used_mib_centi: m.swap_used_mib_centi as nat,
            swap_total_mib_centi: m.swap_total_mib_centi as nat,
            tcp: m.tcp as nat,
            udp: m.udp as nat,
            processes: m.processes as nat,
            threads: m.threads as nat,
        }),
{
    lemma_p_lit(",\"tx_total_gib\":"@, centi_of(m.tx_total_gib_centi as nat) + j_swap_used(m));
    reveal_strlit(",\"swap_used_mib\":");
    assert(j_swap_used(m).len() > 0 && j_swap_used(m)[0] == ",\"swap_used_mib\":"@[0]);
    assert(!is_digit_char(j_swap_used(m)[0]));
    lemma_p_centi(m.tx_total_gib_centi as nat, j_swap_used(m));
    lemma_parse_swap_used(m, os_name, uptime_days, load_one_centi, load_five_centi, load_fifteen_centi, cpu_centi, mem_used, mem_total, disk_used_gib_centi, disk_total_gib_centi, rx_rate, tx_rate, rx_total_gib_centi, m.tx_total_gib_centi as nat);
}

proof fn lemma_parse_swap_used(m: Metrics, os_name: Seq<char>, uptime_days: nat, load_one_centi: nat, load_five_centi: nat, load_fifteen_centi: nat, cpu_centi: nat, mem_used: Seq<char>, mem_total: Seq<char>, disk_used_gib_centi: nat, disk_total_gib_centi: nat, rx_rate: nat, tx_rate: nat, rx_total_gib_centi: nat, tx_total_gib_centi: nat)
    ensures
        parse_swap_used(j_swap_used(m), os_name, uptime_days, load_one_centi, load_five_centi, load_fifteen_centi, cpu_centi, mem_used, mem_total, disk_used_gib_centi, disk_total_gib_centi, rx_rate, tx_rate, rx_total_gib_centi, tx_total_gib_centi) == Option::Some(MetricsFields {
            os_name,
            uptime_days,
            load_one_centi,
            load_five_centi,
            load_fifteen_centi,
            cpu_centi,
            mem_used,
            mem_total,
            disk_used_gib_centi,
            disk_total_gib_centi,
            rx_rate,
            tx_rate,
            rx_total_gib_centi,
            tx_total_gib_centi,
            swap_used_mib_centi: m.swap_used_mib_centi as nat,
            swap_total_mib_centi: m.swap_total_mib_centi as nat,
            tcp: m.tcp as nat,
            udp: m.udp as nat,
            processes: m.processes as nat,
            threads: m.threads as nat,
        }),
{
    lemma_p_lit(",\"swap_used_mib\":"@, centi_of(m.swap_used_mib_centi as nat) + j_swap_total(m));
    reveal_strlit(",\"swap_total_mib\":");
    assert(j_swap_total(m).len() > 0 && j_swap_total(m)[0] == ",\"swap_total_mib\":"@[0]);
    assert(!is_digit_char(j_swap_total(m)[0]));
    lemma_p_centi(m.swap_used_mib_centi as nat, j_swap_total(m));
    lemma_parse_swap_total(m, os_name, uptime_days, load_one_centi, load_five_centi, load_fifteen_centi, cpu_centi, mem_used, mem_total, disk_used_gib_centi, disk_total_gib_centi, rx_rate, tx_rate, rx_total_gib_centi, tx_total_gib_centi, m.swap_used_mib_centi as nat);
}

proof fn lemma_parse_swap_total(m: Metrics, os_name: Seq<char>, uptime_days: nat, load_one_centi: nat, load_five_centi: nat, load_fifteen_centi: nat, cpu_centi: nat, mem_used: Seq<char>, mem_total: Seq<char>, disk_used_gib_centi: nat, disk_total_gib_centi: nat, rx_rate: nat, tx_rate: nat, rx_total_gib_centi: nat, tx_total_gib_centi: nat, swap_used_mib_centi: nat)
    ensures
        parse_swap_total(j_swap_total(m), os_name, uptime_days, load_one_centi, load_five_centi, load_fifteen_centi, cpu_centi, mem_used, mem_total, disk_used_gib_centi, disk_total_gib_centi, rx_rate, tx_rate, rx_total_gib_centi, tx_total_gib_centi, swap_used_mib_centi) == Option::Some(MetricsFields {
            os_name,
            uptime_days,
            load_one_centi,
            load_five_centi,
            load_fifteen_centi,
            cpu_centi,
            mem_used,
            mem_total,
            disk_used_gib_centi,
            disk_total_gib_centi,
            rx_rate,
            tx_rate,
            rx_total_gib_centi,
            tx_total_gib_centi,
            swap_used_mib_centi,
            swap_total_mib_centi: m.swap_total_mib_centi as nat,
            tcp: m.tcp as nat,
            udp: m.udp as nat,
            processes: m.processes as nat,
            threads: m.threads as nat,
        }),
{
    lemma_p_lit(",\"swap_total_mib\":"@, centi_of(m.swap_total_mib_centi as nat) + j_tcp(m));
    reveal_strlit(",\"tcp\":");
    assert(j_tcp(m).len() > 0 && j_tcp(m)[0] == ",\"tcp\":"@[0]);
    assert(!is_digit_char(j_tcp(m)[0]));
    lemma_p_centi(m.swap_total_mib_centi as nat, j_tcp(m));
    lemma_parse_tcp(m, os_name, uptime_days, load_one_centi, load_five_centi, load_fifteen_centi, cpu_centi, mem_used, mem_total, disk_used_gib_centi, disk_total_gib_centi, rx_rate, tx_rate, rx_total_gib_centi, tx_total_gib_centi, swap_used_mib_centi, m.swap_total_mib_centi as nat);
}

proof fn lemma_parse_tcp(m: Metrics, os_name: Seq<char>, uptime_days: nat, load_one_centi: nat, load_five_centi: nat, load_fifteen_centi: nat, cpu_centi: nat, mem_used: Seq<char>, mem_total: Seq<char>, disk_used_gib_centi: nat, disk_total_gib_centi: nat, rx_rate: nat, tx_rate: nat, rx_total_gib_centi: nat, tx_total_gib_centi: nat, swap_used_mib_centi: nat, swap_total_mib_centi: nat)
    ensures
        parse_tcp(j_tcp(m), os_name, uptime_days, load_one_centi, load_five_centi, load_fifteen_centi, cpu_centi, mem_used, mem_total, disk_used_gib_centi, disk_total_gib_centi, rx_rate, tx_rate, rx_total_gib_centi, tx_total_gib_centi, swap_used_mib_centi, swap_total_mib_centi) == Option::Some(MetricsFields {
            os_name,
            uptime_days,
            load_one_centi,
            load_five_centi,
            load_fifteen_centi,
            cpu_centi,
            mem_used,
            mem_total,
            disk_used_gib_centi,
            disk_total_gib_centi,
            rx_rate,
            tx_rate,
            rx_total_gib_centi,
            tx_total_gib_centi,
            swap_used_mib_centi,
            swap_total_mib_centi,
            tcp: m.tcp as nat,
            udp: m.udp as nat,
            processes: m.processes as nat,
            threads: m.threads as nat,
        }),
{
    lemma_p_lit(",\"tcp\":"@, dec_of(m.tcp as nat) + j_udp(m));
    reveal_strlit(",\"udp\":");
    assert(j_udp(m).len() > 0 && j_udp(m)[0] == ",\"udp\":"@[0]);
    assert(!is_digit_char(j_udp(m)[0]));
    lemma_p_num_dec(m.tcp as nat, j_udp(m));
    lemma_parse_udp(m, os_name, uptime_days, load_one_centi, load_five_centi, load_fifteen_centi, cpu_centi, mem_used, mem_total, disk_used_gib_centi, disk_total_gib_centi, rx_rate, tx_rate, rx_total_gib_centi, tx_total_gib_centi, swap_used_mib_centi, swap_total_mib_centi, m.tcp as nat);
}

proof fn lemma_parse_udp(m: Metrics, os_name: Seq<char>, uptime_days: nat, load_one_centi: nat, load_five_centi: nat, load_fifteen_centi: nat, cpu_centi: nat, mem_used: Seq<char>, mem_total: Seq<char>, disk_used_gib_centi: nat, disk_total_gib_centi: nat, rx_rate: nat, tx_rate: nat, rx_total_gib_centi: nat, tx_total_gib_centi: nat, swap_used_mib_centi: nat, swap_total_mib_centi: nat, tcp: nat)
    ensures
        parse_udp(j_udp(m), os_name, uptime_days, load_one_centi, load_five_centi, load_fifteen_centi, cpu_centi, mem_used, mem_total, disk_used_gib_centi, disk_total_gib_centi, rx_rate, tx_rate, rx_total_gib_centi, tx_total_gib_centi, swap_used_mib_centi, swap_total_mib_centi, tcp) == Option::Some(MetricsFields {
            os_name,
            uptime_days,
            load_one_centi,
            load_five_centi,
            load_fifteen_centi,
            cpu_centi,
            mem_used,
            mem_total,
            disk_used_gib_centi,
            disk_total_gib_centi,
            rx_rate,
            tx_rate,
            rx_total_gib_centi,
            tx_total_gib_centi,
            swap_used_mib_centi,
            swap_total_mib_centi,
            tcp,
            udp: m.udp as nat,
            processes: m.processes as nat,
            threads: m.threads as nat,
        }),
{
    lemma_p_lit(",\"udp\":"@, dec_of(m.udp as nat) + j_processes(m));
    reveal_strlit(",\"processes\":");
    assert(j_processes(m).len() > 0 && j_processes(m)[0] == ",\"processes\":"@[0]);
    assert(!is_digit_char(j_processes(m)[0]));
    lemma_p_num_dec(m.udp as nat, j_processes(m));
    lemma_parse_processes(m, os_name, uptime_days, load_one_centi, load_five_centi, load_fifteen_centi, cpu_centi, mem_used, mem_total, disk_used_gib_centi, disk_total_gib_centi, rx_rate, tx_rate, rx_total_gib_centi, tx_total_gib_centi, swap_used_mib_centi, swap_total_mib_centi, tcp, m.udp as nat);
}

proof fn lemma_parse_processes(m: Metrics, os_name: Seq<char>, uptime_days: nat, load_one_centi: nat, load_five_centi: nat, load_fifteen_centi: nat, cpu_centi: nat, mem_used: Seq<char>, mem_total: Seq<char>, disk_used_gib_centi: nat, disk_total_gib_centi: nat, rx_rate: nat, tx_rate: nat, rx_total_gib_centi: nat, tx_total_gib_centi: nat, swap_used_mib_centi: nat, swap_total_mib_centi: nat, tcp: nat, udp: nat)
    ensures
        parse_processes(j_processes(m), os_name, uptime_days, load_one_centi, load_five_centi, load_fifteen_centi, cpu_centi, mem_used, mem_total, disk_used_gib_centi, disk_total_gib_centi, rx_rate, tx_rate, rx_total_gib_centi, tx_total_gib_centi, swap_used_mib_centi, swap_total_mib_centi, tcp, udp) == Option::Some(MetricsFields {
            os_name,
            uptime_days,
            load_one_centi,
            load_five_centi,
            load_fifteen_centi,
            cpu_centi,
            mem_used,
            mem_total,
            disk_used_gib_centi,
            disk_total_gib_centi,
            rx_rate,
            tx_rate,
            rx_total_gib_centi,
            tx_total_gib_centi,
            swap_used_mib_centi,
            swap_total_mib_centi,
            tcp,
            udp,
            processes: m.processes as nat,
            threads: m.threads as nat,
        }),
{
    lemma_p_lit(",\"processes\":"@, dec_of(m.processes as nat) + j_threads(m));
    reveal_strlit(",\"threads\":");
    assert(j_threads(m).len() > 0 && j_threads(m)[0] == ",\"threads\":"@[0]);
    assert(!is_digit_char(j_threads(m)[0]));
    lemma_p_num_dec(m.processes as nat, j_threads(m));
    lemma_parse_threads(m, os_name, uptime_days, load_one_centi, load_five_centi, load_fifteen_centi, cpu_centi, mem_used, mem_total, disk_used_gib_centi, disk_total_gib_centi, rx_rate, tx_rate, rx_total_gib_centi, tx_total_gib_centi, swap_used_mib_centi, swap_total_mib_centi, tcp, udp, m.processes as nat);
}

proof fn lemma_parse_threads(m: Metrics, os_name: Seq<char>, uptime_days: nat, load_one_centi: nat, load_five_centi: nat, load_fifteen_centi: nat, cpu_centi: nat, mem_used: Seq<char>, mem_total: Seq<char>, disk_used_gib_centi: nat, disk_total_gib_centi: nat, rx_rate: nat, tx_rate: nat, rx_total_gib_centi: nat, tx_total_gib_centi: nat, swap_used_mib_centi: nat, swap_total_mib_centi: nat, tcp: nat, udp: nat, processes: nat)
    ensures
        parse_threads(j_threads(m), os_name, uptime_days, load_one_centi, load_five_centi, load_fifteen_centi, cpu_centi, mem_used, mem_total, disk_used_gib_centi, disk_total_gib_centi, rx_rate, tx_rate, rx_total_gib_centi, tx_total_gib_centi, swap_used_mib_centi, swap_total_mib_centi, tcp, udp, processes) == Option::Some(MetricsFields {
            os_name,
            uptime_days,
            load_one_centi,
            load_five_centi,
            load_fifteen_centi,
            cpu_centi,
            mem_used,
            mem_total,
            disk_used_gib_centi,
            disk_total_gib_centi,
            rx_rate,
            tx_rate,
            rx_total_gib_centi,
            tx_total_gib_centi,
            swap_used_mib_centi,
            swap_total_mib_centi,
            tcp,
            udp,
            processes,
            threads: m.threads as nat,
        }),
{
    lemma_p_lit(",\"threads\":"@, dec_of(m.threads as nat) + "}"@);
    reveal_strlit("}");
    assert("}"@.len() == 1 && "}"@[0] == '}');
    assert(!is_digit_char('}'));
    lemma_p_num_dec(m.threads as nat, "}"@);
    assert("}"@ + Seq::<char>::empty() =~= "}"@);
    lemma_p_lit("}"@, Seq::<char>::empty());
}

/// Law: serializing a metrics record and decoding the text recovers
/// every field of the record exactly, with no loss.
pub proof fn lemma_json_round_trip(m: Metrics)
    ensures
        from_json(json_of(m)) == Option::Some(fields_of(m)),
{
    lemma_p_lit("{\"os_name\":"@, jstr(m.os_name@) + j_uptime(m));
    lemma_p_jstr(m.os_name@, j_uptime(m));
    lemma_parse_uptime(m, m.os_name@);
}

} // verus!
