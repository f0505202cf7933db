//! The trace-info report: a summary of a recording's header, assembled
//! from plain values.  Reading the trace from disk and printing the
//! serialized report belong to the front end; the shape of the report is
//! decided here.

use vstd::prelude::*;

verus! {

/// Which hardware event the deterministic clock counts.
#[derive(Copy, Clone, PartialEq, Eq, Structural, Debug)]
pub enum TicksSemantics {
    TicksRetiredConditionalBranches,
    TicksTakenBranches,
}

/// The label the report uses for each clock kind.
pub fn ticks_semantics_name(ts: TicksSemantics) -> (r: &'static str)
    ensures
        ts == TicksSemantics::TicksRetiredConditionalBranches ==> r@ == "rcb"@,
        ts == TicksSemantics::TicksTakenBranches ==> r@ == "branches"@,
{
    match ts {
        TicksSemantics::TicksRetiredConditionalBranches => "rcb",
        TicksSemantics::TicksTakenBranches => "branches",
    }
}

/// One recorded CPUID probe: the inputs and the four output registers.
#[derive(Copy, Clone, PartialEq, Eq, Structural, Debug)]
pub struct CpuidRecord {
    pub eax_in: u32,
    pub ecx_in: u32,
    pub out_eax: u32,
    pub out_ebx: u32,
    pub out_ecx: u32,
    pub out_edx: u32,
}

/// The report's flat form of one CPUID probe, inputs first.
#[derive(Copy, Clone, PartialEq, Eq, Structural, Debug)]
pub struct CpuidEntry {
    pub eax_in: u32,
    pub ecx_in: u32,
    pub eax: u32,
    pub ebx: u32,
    pub ecx: u32,
    pub edx: u32,
}

pub open spec fn spec_flatten_cpuid(r: CpuidRecord) -> CpuidEntry {
    CpuidEntry {
        eax_in: r.eax_in,
        ecx_in: r.ecx_in,
        eax: r.out_eax,
        ebx: r.out_ebx,
        ecx: r.out_ecx,
        edx: r.out_edx,
    }
}

/// Flatten the recorded CPUID probes in order, inputs before outputs.
pub fn flatten_cpuid_records(records: &Vec<CpuidRecord>) -> (r: Vec<CpuidEntry>)
    ensures
        r@ == records@.map(|i: int, rec: CpuidRecord| spec_flatten_cpuid(rec)),
{
    let mut out: Vec<CpuidEntry> = Vec::new();
    let mut i: usize = 0;
    while i < records.len()
        invariant
            i <= records@.len(),
            out@ =~= records@.take(i as int).map(
                |j: int, rec: CpuidRecord| spec_flatten_cpuid(rec),
            ),
        decreases records@.len() - i,
    {
        let rec = records[i];
        out.push(
            CpuidEntry {
                eax_in: rec.eax_in,
                ecx_in: rec.ecx_in,
                eax: rec.out_eax,
                ebx: rec.out_ebx,
                ecx: rec.out_ecx,
                edx: rec.out_edx,
            },
        );
        proof {
            assert(out@ =~= records@.take(i as int + 1).map(
                |j: int, rec2: CpuidRecord| spec_flatten_cpuid(rec2),
            ));
        }
        i = i + 1;
    }
    proof {
        assert(records@.take(records@.len() as int) =~= records@);
    }
    out
}

/// The report's contents, all plain values; the front end serializes it.
pub struct TraceHeader {
    pub uuid: Vec<u8>,
    pub xcr0: u64,
    pub bind_to_cpu: u32,
    pub cpuid_faulting: bool,
    pub ticks_semantics: TicksSemantics,
    pub cpuid_records: Vec<CpuidEntry>,
    pub environ: Vec<String>,
}

/// Assemble the report from what the trace reader handed over.
pub fn build_trace_header(
    uuid: Vec<u8>,
    xcr0: u64,
    bind_to_cpu: u32,
    cpuid_faulting: bool,
    ticks_semantics: TicksSemantics,
    cpuid_records: &Vec<CpuidRecord>,
    environ: Vec<String>,
) -> (r: TraceHeader)
    ensures
        r.uuid == uuid,
        r.xcr0 == xcr0,
        r.bind_to_cpu == bind_to_cpu,
        r.cpuid_faulting == cpuid_faulting,
        r.ticks_semantics == ticks_semantics,
        r.cpuid_records@ == cpuid_records@.map(|i: int, rec: CpuidRecord| spec_flatten_cpuid(rec)),
        r.environ == environ,
{
    let flat = flatten_cpuid_records(cpuid_records);
    TraceHeader {
        uuid,
        xcr0,
        bind_to_cpu,
        cpuid_faulting,
        ticks_semantics,
        cpuid_records: flat,
        environ,
    }
}

/// The front-end command that prints a recording's header: it holds only
/// the chosen trace directory; the front end does the reading and the
/// printing.
pub struct TraceInfoCommand {
    pub trace_dir: Option<String>,
}

impl TraceInfoCommand {
    pub fn new(trace_dir: Option<String>) -> (r: TraceInfoCommand)
        ensures
            r.trace_dir == trace_dir,
    {
        TraceInfoCommand { trace_dir }
    }
}

} // verus!
