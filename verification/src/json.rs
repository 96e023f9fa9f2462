//! JSON encoding of a metrics record: a single object with a fixed key
//! order, string values escaped, fractional quantities written as
//! fixed-point decimals with two fraction digits.

use vstd::prelude::*;
use crate::digits::{centi_of, centi_string, dec_of, push_char, u64_dec};
use crate::metrics::Metrics;

verus! {

/// The JSON escape of one character: a backslash doubles, a double
/// quote gains a backslash, everything else stands as itself.
pub open spec fn esc_char(c: char) -> Seq<char> {
    if c == '"' {
        seq!['\\', '"']
    } else if c == '\\' {
        seq!['\\', '\\']
    } else {
        seq![c]
    }
}

/// The JSON escape of a character sequence.
pub open spec fn esc(s: Seq<char>) -> Seq<char>
    decreases s.len(),
{
    if s.len() == 0 {
        Seq::empty()
    } else {
        esc_char(s[0]) + esc(s.skip(1))
    }
}

/// A JSON string value: the escaped content between double quotes.
pub open spec fn jstr(s: Seq<char>) -> Seq<char> {
    seq!['"'] + esc(s) + seq!['"']
}

/// The JSON text of one metrics record, written as a cascade: each
/// piece is one key with its value, followed by the rest of the object.
pub open spec fn json_of(m: Metrics) -> Seq<char> {
    "{\"os_name\":"@ + (jstr(m.os_name@) + j_uptime(m))
}

pub open spec fn j_uptime(m: Metrics) -> Seq<char> {
    ",\"uptime_days\":"@ + (dec_of(m.uptime_days as nat) + j_load(m))
}

pub open spec fn j_load(m: Metrics) -> Seq<char> {
    ",\"load\":["@ + (centi_of(m.load_one_centi as nat) + j_load_five(m))
}

pub open spec fn j_load_five(m: Metrics) -> Seq<char> {
    ","@ + (centi_of(m.load_five_centi as nat) + j_load_fifteen(m))
}

pub open spec fn j_load_fifteen(m: Metrics) -> Seq<char> {
    ","@ + (centi_of(m.load_fifteen_centi as nat) + j_cpu(m))
}

pub open spec fn j_cpu(m: Metrics) -> Seq<char> {
    "],\"cpu\":"@ + (centi_of(m.cpu_centi as nat) + j_mem_used(m))
}

pub open spec fn j_mem_used(m: Metrics) -> Seq<char> {
    ",\"mem_used\":"@ + (jstr(m.mem_used@) + j_mem_total(m))
}

pub open spec fn j_mem_total(m: Metrics) -> Seq<char> {
    ",\"mem_total\":"@ + (jstr(m.mem_total@) + j_disk_used(m))
}

pub open spec fn j_disk_used(m: Metrics) -> Seq<char> {
    ",\"disk_used_gib\":"@ + (centi_of(m.disk_used_gib_centi as nat) + j_disk_total(m))
}

pub open spec fn j_disk_total(m: Metrics) -> Seq<char> {
    ",\"disk_total_gib\":"@ + (centi_of(m.disk_total_gib_centi as nat) + j_rx_rate(m))
}

pub open spec fn j_rx_rate(m: Metrics) -> Seq<char> {
    ",\"rx_rate\":"@ + (dec_of(m.rx_rate as nat) + j_tx_rate(m))
}

pub open spec fn j_tx_rate(m: Metrics) -> Seq<char> {
    ",\"tx_rate\":"@ + (dec_of(m.tx_rate as nat) + j_rx_total(m))
}

pub open spec fn j_rx_total(m: Metrics) -> Seq<char> {
    ",\"rx_total_gib\":"@ + (centi_of(m.rx_total_gib_centi as nat) + j_tx_total(m))
}

pub open spec fn j_tx_total(m: Metrics) -> Seq<char> {
    ",\"tx_total_gib\":"@ + (centi_of(m.tx_total_gib_centi as nat) + j_swap_used(m))
}

pub open spec fn j_swap_used(m: Metrics) -> Seq<char> {
    ",\"swap_used_mib\":"@ + (centi_of(m.swap_used_mib_centi as nat) + j_swap_total(m))
}

pub open spec fn j_swap_total(m: Metrics) -> Seq<char> {
    ",\"swap_total_mib\":"@ + (centi_of(m.swap_total_mib_centi as nat) + j_tcp(m))
}

pub open spec fn j_tcp(m: Metrics) -> Seq<char> {
    ",\"tcp\":"@ + (dec_of(m.tcp as nat) + j_udp(m))
}

pub open spec fn j_udp(m: Metrics) -> Seq<char> {
    ",\"udp\":"@ + (dec_of(m.udp as nat) + j_processes(m))
}

pub open spec fn j_processes(m: Metrics) -> Seq<char> {
    ",\"processes\":"@ + (dec_of(m.processes as nat) + j_threads(m))
}

pub open spec fn j_threads(m: Metrics) -> Seq<char> {
    ",\"threads\":"@ + (dec_of(m.threads as nat) + "}"@)
}

proof fn lemma_esc_push(a: Seq<char>, c: char)
    ensures
        esc(a.push(c)) == esc(a) + esc_char(c),
    decreases a.len(),
{
    if a.len() == 0 {
        assert(a.push(c)[0] == c);
        assert(a.push(c).skip(1) =~= Seq::<char>::empty());
        assert(esc(Seq::<char>::empty()) == Seq::<char>::empty());
        assert(esc(a.push(c)) =~= esc(a) + esc_char(c));
    } else {
        assert(a.push(c)[0] == a[0]);
        assert(a.push(c).skip(1) =~= a.skip(1).push(c));
        lemma_esc_push(a.skip(1), c);
        assert(esc(a.push(c)) =~= esc(a) + esc_char(c));
    }
}

/// Appends the JSON string value of `s`, quotes and escapes included.
fn push_json_string(out: &mut String, s: &str)
    ensures
        final(out)@ == old(out)@ + jstr(s@),
{
    push_char(out, '"');
    let n = s.unicode_len();
    let mut i: usize = 0;
    proof {
        assert(s@.take(0) =~= Seq::<char>::empty());
        assert(out@ =~= old(out)@ + seq!['"'] + esc(s@.take(0)));
    }
    while i < n
        invariant
            i <= n,
            n == s@.len(),
            out@ == old(out)@ + seq!['"'] + esc(s@.take(i as int)),
        decreases n - i,
    {
        let c = s.get_char(i);
        proof {
            assert(s@.take(i + 1) =~= s@.take(i as int).push(c));
            lemma_esc_push(s@.take(i as int), c);
        }
        if c == '"' {
            push_char(out, '\\');
            push_char(out, '"');
        } else if c == '\\' {
            push_char(out, '\\');
            push_char(out, '\\');
        } else {
            push_char(out, c);
        }
        proof {
            assert(out@ =~= old(out)@ + seq!['"'] + esc(s@.take(i + 1)));
        }
        i = i + 1;
    }
    push_char(out, '"');
    proof {
        assert(s@.take(n as int) =~= s@);
        assert(out@ =~= old(out)@ + jstr(s@));
    }
}

/// Appends the decimal rendering of `n`.
fn push_u64(out: &mut String, n: u64)
    ensures
        final(out)@ == old(out)@ + dec_of(n as nat),
{
    let d = u64_dec(n);
    out.append(d.as_str());
}

/// Appends the fixed-point rendering of a count of hundredths.
fn push_centi(out: &mut String, c: u64)
    ensures
        final(out)@ == old(out)@ + centi_of(c as nat),
{
    let d = centi_string(c);
    out.append(d.as_str());
}

fn w_uptime(out: &mut String, m: &Metrics)
    ensures
        final(out)@ == old(out)@ + j_uptime(*m),
{
    out.append(",\"uptime_days\":");
    push_u64(out, m.uptime_days);
    w_load(out, m);
    proof {
        assert(out@ =~= old(out)@ + j_uptime(*m));
    }
}

fn w_load(out: &mut String, m: &Metrics)
    ensures
        final(out)@ == old(out)@ + j_load(*m),
{
    out.append(",\"load\":[");
    push_centi(out, m.load_one_centi);
    w_load_five(out, m);
    proof {
        assert(out@ =~= old(out)@ + j_load(*m));
    }
}

fn w_load_five(out: &mut String, m: &Metrics)
    ensures
        final(out)@ == old(out)@ + j_load_five(*m),
{
    out.append(",");
    push_centi(out, m.load_five_centi);
    w_load_fifteen(out, m);
    proof {
        assert(out@ =~= old(out)@ + j_load_five(*m));
    }
}

fn w_load_fifteen(out: &mut String, m: &Metrics)
    ensures
        final(out)@ == old(out)@ + j_load_fifteen(*m),
{
    out.append(",");
    push_centi(out, m.load_fifteen_centi);
    w_cpu(out, m);
    proof {
        assert(out@ =~= old(out)@ + j_load_fifteen(*m));
    }
}

fn w_cpu(out: &mut String, m: &Metrics)
    ensures
        final(out)@ == old(out)@ + j_cpu(*m),
{
    out.append("],\"cpu\":");
    push_centi(out, m.cpu_centi as u64);
    w_mem_used(out, m);
    proof {
        assert(out@ =~= old(out)@ + j_cpu(*m));
    }
}

fn w_mem_used(out: &mut String, m: &Metrics)
    ensures
        final(out)@ == old(out)@ + j_mem_used(*m),
{
    out.append(",\"mem_used\":");
    push_json_string(out, m.mem_used.as_str());
    w_mem_total(out, m);
    proof {
        assert(out@ =~= old(out)@ + j_mem_used(*m));
    }
}

fn w_mem_total(out: &mut String, m: &Metrics)
    ensures
        final(out)@ == old(out)@ + j_mem_total(*m),
{
    out.append(",\"mem_total\":");
    push_json_string(out, m.mem_total.as_str());
    w_disk_used(out, m);
    proof {
        assert(out@ =~= old(out)@ + j_mem_total(*m));
    }
}

fn w_disk_used(out: &mut String, m: &Metrics)
    ensures
        final(out)@ == old(out)@ + j_disk_used(*m),
{
    out.append(",\"disk_used_gib\":");
    push_centi(out, m.disk_used_gib_centi);
    w_disk_total(out, m);
    proof {
        assert(out@ =~= old(out)@ + j_disk_used(*m));
    }
}

fn w_disk_total(out: &mut String, m: &Metrics)
    ensures
        final(out)@ == old(out)@ + j_disk_total(*m),
{
    out.append(",\"disk_total_gib\":");
    push_centi(out, m.disk_total_gib_centi);
    w_rx_rate(out, m);
    proof {
        assert(out@ =~= old(out)@ + j_disk_total(*m));
    }
}

fn w_rx_rate(out: &mut String, m: &Metrics)
    ensures
        final(out)@ == old(out)@ + j_rx_rate(*m),
{
    out.append(",\"rx_rate\":");
    push_u64(out, m.rx_rate);
    w_tx_rate(out, m);
    proof {
        assert(out@ =~= old(out)@ + j_rx_rate(*m));
    }
}

fn w_tx_rate(out: &mut String, m: &Metrics)
    ensures
        final(out)@ == old(out)@ + j_tx_rate(*m),
{
    out.append(",\"tx_rate\":");
    push_u64(out, m.tx_rate);
    w_rx_total(out, m);
    proof {
        assert(out@ =~= old(out)@ + j_tx_rate(*m));
    }
}

fn w_rx_total(out: &mut String, m: &Metrics)
    ensures
        final(out)@ == old(out)@ + j_rx_total(*m),
{
    out.append(",\"rx_total_gib\":");
    push_centi(out, m.rx_total_gib_centi);
    w_tx_total(out, m);
    proof {
        assert(out@ =~= old(out)@ + j_rx_total(*m));
    }
}

fn w_tx_total(out: &mut String, m: &Metrics)
    ensures
        final(out)@ == old(out)@ + j_tx_total(*m),
{
    out.append(",\"tx_total_gib\":");
    push_centi(out, m.tx_total_gib_centi);
    w_swap_used(out, m);
    proof {
        assert(out@ =~= old(out)@ + j_tx_total(*m));
    }
}

fn w_swap_used(out: &mut String, m: &Metrics)
    ensures
        final(out)@ == old(out)@ + j_swap_used(*m),
{
    out.append(",\"swap_used_mib\":");
    push_centi(out, m.swap_used_mib_centi);
    w_swap_total(out, m);
    proof {
        assert(out@ =~= old(out)@ + j_swap_used(*m));
    }
}

fn w_swap_total(out: &mut String, m: &Metrics)
    ensures
        final(out)@ == old(out)@ + j_swap_total(*m),
{
    out.append(",\"swap_total_mib\":");
    push_centi(out, m.swap_total_mib_centi);
    w_tcp(out, m);
    proof {
        assert(out@ =~= old(out)@ + j_swap_total(*m));
    }
}

fn w_tcp(out: &mut String, m: &Metrics)
    ensures
        final(out)@ == old(out)@ + j_tcp(*m),
{
    out.append(",\"tcp\":");
    push_u64(out, m.tcp);
    w_udp(out, m);
    proof {
        assert(out@ =~= old(out)@ + j_tcp(*m));
    }
}

fn w_udp(out: &mut String, m: &Metrics)
    ensures
        final(out)@ == old(out)@ + j_udp(*m),
{
    out.append(",\"udp\":");
    push_u64(out, m.udp);
    w_processes(out, m);
    proof {
        assert(out@ =~= old(out)@ + j_udp(*m));
    }
}

fn w_processes(out: &mut String, m: &Metrics)
    ensures
        final(out)@ == old(out)@ + j_processes(*m),
{
    out.append(",\"processes\":");
    push_u64(out, m.processes);
    w_threads(out, m);
    proof {
        assert(out@ =~= old(out)@ + j_processes(*m));
    }
}

fn w_threads(out: &mut String, m: &Metrics)
    ensures
        final(out)@ == old(out)@ + j_threads(*m),
{
    out.append(",\"threads\":");
    push_u64(out, m.threads);
    out.append("}");
    proof {
        assert(out@ =~= old(out)@ + j_threads(*m));
    }
}

/// Serializes one metrics record to its JSON text.
pub fn to_json(m: &Metrics) -> (r: String)
    ensures
        r@ == json_of(*m),
{
    let mut out = String::from_str("{\"os_name\":");
    push_json_string(&mut out, m.os_name.as_str());
    w_uptime(&mut out, m);
    proof {
        assert(out@ =~= json_of(*m));
    }
    out
}

} // verus!
