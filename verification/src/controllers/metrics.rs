//! The Prometheus metrics text.
use vstd::prelude::*;

use crate::text::{chars_of, dec_nat, push_str, push_u64, string_of};

verus! {

pub open spec fn gauge(name: Seq<char>, help: Seq<char>, value: Seq<char>) -> Seq<char> {
    "# HELP "@ + name + " "@ + help + "\n# TYPE "@ + name + " gauge\n"@ + name + " "@ + value + "\n"@
}

fn push_gauge(out: &mut Vec<char>, name: &str, help: &str, value: &[char])
    ensures
        final(out)@ == old(out)@ + gauge(name@, help@, value@),
{
    let ghost start = out@;
    push_str(out, "# HELP ");
    push_str(out, name);
    push_str(out, " ");
    push_str(out, help);
    push_str(out, "\n# TYPE ");
    push_str(out, name);
    push_str(out, " gauge\n");
    push_str(out, name);
    push_str(out, " ");
    crate::text::push_all(out, value);
    push_str(out, "\n");
    assert(out@ =~= start + gauge(name@, help@, value@));
}

fn decimal(n: u64) -> (v: Vec<char>)
    ensures
        v@ == dec_nat(n as nat),
{
    let mut v: Vec<char> = Vec::new();
    push_u64(&mut v, n);
    assert(Seq::<char>::empty() + dec_nat(n as nat) =~= dec_nat(n as nat));
    v
}

pub open spec fn metrics_of(
    cpu: Seq<char>,
    memory_used: u64,
    memory_total: u64,
    containers: u64,
    sites: u64,
) -> Seq<char> {
    gauge("featherfly_cpu_usage_percent"@, "Host CPU usage percent"@, cpu) + gauge(
        "featherfly_memory_used_bytes"@,
        "Host memory used"@,
        dec_nat(memory_used as nat),
    ) + gauge("featherfly_memory_total_bytes"@, "Host memory total"@, dec_nat(memory_total as nat))
        + gauge("featherfly_container_count"@, "Running containers"@, dec_nat(containers as nat))
        + gauge("featherfly_site_count"@, "Provisioned sites"@, dec_nat(sites as nat))
}

/// The metrics page: five gauges, each with its help and type lines. The
/// CPU usage is given as the text it is shown as.
pub fn metrics_text(cpu: &str, memory_used: u64, memory_total: u64, containers: u64, sites: u64) -> (s:
    String)
    ensures
        s@ == metrics_of(cpu@, memory_used, memory_total, containers, sites),
{
    let mut out: Vec<char> = Vec::new();
    push_gauge(&mut out, "featherfly_cpu_usage_percent", "Host CPU usage percent", chars_of(cpu).as_slice());
    push_gauge(&mut out, "featherfly_memory_used_bytes", "Host memory used", decimal(memory_used).as_slice());
    push_gauge(&mut out, "featherfly_memory_total_bytes", "Host memory total", decimal(memory_total).as_slice());
    push_gauge(&mut out, "featherfly_container_count", "Running containers", decimal(containers).as_slice());
    push_gauge(&mut out, "featherfly_site_count", "Provisioned sites", decimal(sites).as_slice());
    assert(out@ =~= metrics_of(cpu@, memory_used, memory_total, containers, sites));
    string_of(&out)
}

} // verus!
