//! The CPU sampler's rules: what it reports about the CPUs, which frequency
//! it prefers, which processes it lists, and the kernel string.
//!
//! The counters themselves are read from the operating system by the daemon
//! and handed to these functions as plain values.

use vstd::prelude::*;
use crate::f32_bits::{
    is_positive, lemma_order_key_is_float_order, order_key, spec_is_nan, spec_is_positive,
    spec_less_than, spec_order_key, POSITIVE_ZERO,
};
use crate::model::{clone_opt_string, opt_view, Cpu, LoadAverage, Process};
use crate::ranking::{
    is_top_selection, lemma_top_selection_prefix, lemma_top_selection_unique, min_nat, ranks_before,
    top_indices,
};
use crate::readings::ExtraReadings;
use crate::timing::{clamp, sample_window_ms};

verus! {

/// What the daemon reads once about the machine's CPUs when it starts.
#[derive(Clone, Debug, PartialEq)]
pub struct CpuHardware {
    /// Brand string of the first logical CPU.
    pub first_cpu_brand: Option<String>,
    /// Vendor id of the first logical CPU.
    pub first_cpu_vendor_id: Option<String>,
    /// Number of physical cores.
    pub physical_core_count: Option<usize>,
}

/// One round of counter readings, taken after the sample window.
#[derive(Clone, Debug, PartialEq)]
pub struct CpuReading {
    /// Global usage in percent, as an `f32` bit pattern.
    pub usage_percent: u32,
    /// Usage of each logical core in percent, as `f32` bit patterns.
    pub per_core_usage: Vec<u32>,
    /// Frequency that the first logical CPU reports, in MHz, as the bit
    /// pattern of that count converted to `f32`.
    pub first_cpu_frequency_mhz: Option<u32>,
    pub load_average: LoadAverage,
    pub uptime_s: u64,
    /// Every process on the machine, in no particular order.
    pub processes: Vec<Process>,
}

/// The CPU model: the brand of the first CPU, when it is known and not empty.
pub open spec fn spec_cpu_model(brand: Option<String>) -> Option<Seq<char>> {
    match brand {
        Some(b) => if b@.len() > 0 {
            Some(b@)
        } else {
            None
        },
        None => None,
    }
}

/// The CPU vendor: the vendor id of the first CPU, when it is known and not
/// empty; `Apple` otherwise.
pub open spec fn spec_cpu_vendor(vendor_id: Option<String>) -> Option<Seq<char>> {
    match vendor_id {
        Some(v) => if v@.len() > 0 {
            Some(v@)
        } else {
            Some("Apple"@)
        },
        None => Some("Apple"@),
    }
}

/// The physical core count as a `u32` (truncated, as a cast does).
pub open spec fn spec_physical_cores(count: Option<usize>) -> Option<u32> {
    match count {
        Some(c) => Some(c as u32),
        None => None,
    }
}

/// The reported frequency: the one in the extra readings when there is one,
/// else the first CPU's own frequency when it is greater than zero.
pub open spec fn spec_frequency(extra: Option<u32>, first_cpu: Option<u32>) -> Option<u32> {
    match extra {
        Some(f) => Some(f),
        None => match first_cpu {
            Some(f) => if spec_is_positive(f) {
                Some(f)
            } else {
                None
            },
            None => None,
        },
    }
}

/// The ordering keys of the processes' CPU usages.
pub open spec fn spec_cpu_keys(procs: Seq<Process>) -> Seq<u32> {
    Seq::new(procs.len(), |i: int| spec_order_key(procs[i].cpu_percent))
}

/// `top` lists the `n` processes with the highest CPU usage, highest first;
/// processes with equal usage keep the order in which they were given. With
/// fewer than `n` processes, all of them.
pub open spec fn spec_is_top_processes(procs: Seq<Process>, n: nat, top: Seq<Process>) -> bool {
    exists|sel: Seq<usize>|
        #[trigger] is_top_selection(spec_cpu_keys(procs), n, sel) && top.len() == sel.len() && (
        forall|p: int| 0 <= p < sel.len() ==> top[p] == procs[sel[p] as int])
}

/// The kernel string, like `uname -sr`: the OS name and the kernel version
/// separated by a space; the version alone without a name; nothing without a
/// version.
pub open spec fn spec_kernel_version(os_name: Option<String>, kernel_version: Option<String>) -> Option<Seq<char>> {
    match (os_name, kernel_version) {
        (Some(n), Some(v)) => Some(n@ + " "@ + v@),
        (None, Some(v)) => Some(v@),
        _ => None,
    }
}

/// The frequency from the extra readings (the IOReport cluster average) is
/// reported as it is whenever there is one, whatever the first CPU reports.
/// Only without it does the first CPU's frequency count, and then exactly
/// when that frequency is greater than zero.
pub proof fn lemma_extra_frequency_preferred(extra: Option<u32>, first_cpu: Option<u32>)
    ensures
        extra matches Some(f) ==> spec_frequency(extra, first_cpu) == Some(f),
        extra is None ==> (spec_frequency(extra, first_cpu) is Some <==> (first_cpu matches Some(c)
            && spec_less_than(POSITIVE_ZERO, c))),
        extra is None ==> (spec_frequency(extra, first_cpu) matches Some(g) ==> first_cpu == Some(g)),
{
}

/// The CPU model is the first CPU's brand, unchanged, whenever that brand is
/// known and not empty; otherwise there is none.
pub proof fn lemma_model_is_brand(brand: Option<String>)
    ensures
        brand matches Some(b) ==> (b@.len() > 0 ==> spec_cpu_model(brand) == Some(b@)),
        spec_cpu_model(brand) matches Some(m) ==> brand matches Some(b) && b@ == m && m.len() > 0,
        (brand is None || brand.unwrap()@.len() == 0) ==> spec_cpu_model(brand) is None,
{
}

/// The CPU vendor is the first CPU's vendor id, unchanged, whenever that id
/// is known and not empty; otherwise `Apple`. There is always a vendor.
pub proof fn lemma_vendor_is_id_or_apple(vendor_id: Option<String>)
    ensures
        vendor_id matches Some(v) ==> (v@.len() > 0 ==> spec_cpu_vendor(vendor_id) == Some(v@)),
        (vendor_id is None || vendor_id.unwrap()@.len() == 0) ==> spec_cpu_vendor(vendor_id) == Some(
            "Apple"@,
        ),
        spec_cpu_vendor(vendor_id) is Some,
{
}

/// A physical core count that fits in a `u32` is reported as it is; an
/// unknown count stays unknown.
pub proof fn lemma_physical_cores_kept(count: Option<usize>)
    ensures
        count matches Some(c) ==> (c <= u32::MAX ==> spec_physical_cores(count) == Some(c as u32)
            && c == spec_physical_cores(count).unwrap()),
        count is None <==> spec_physical_cores(count) is None,
{
}

/// The kernel string is the OS name, one space and the version when both are
/// known, the version alone without a name, and nothing without a version.
pub proof fn lemma_kernel_string(os_name: Option<String>, kernel_version: Option<String>)
    ensures
        spec_kernel_version(os_name, kernel_version) is Some <==> kernel_version is Some,
        os_name matches Some(n) ==> (kernel_version matches Some(v) ==> ({
            let k = spec_kernel_version(os_name, kernel_version).unwrap();
            &&& k.len() == n@.len() + 1 + v@.len()
            &&& k.subrange(0, n@.len() as int) == n@
            &&& k.subrange(n@.len() + 1int, k.len() as int) == v@
        })),
        kernel_version matches Some(v) ==> (os_name is None ==> spec_kernel_version(os_name, kernel_version)
            == Some(v@)),
{
    if let (Some(n), Some(v)) = (os_name, kernel_version) {
        let k = n@ + " "@ + v@;
        assert(" "@.len() == 1) by {
            reveal_strlit(" ");
        }
        assert(k.subrange(0, n@.len() as int) =~= n@);
        assert(k.subrange(n@.len() + 1int, k.len() as int) =~= v@);
    }
}

/// The settings and the fixed CPU facts of the sampler.
pub struct MacCpuSource {
    top_processes: usize,
    cpu_model: Option<String>,
    cpu_vendor: Option<String>,
    physical_cores: Option<u32>,
    sample_window_ms: u64,
}

impl MacCpuSource {
    #[verifier::type_invariant]
    spec fn window_in_range(self) -> bool {
        200 <= self.sample_window_ms <= 900
    }

    /// How many processes a sample lists.
    pub closed spec fn spec_top_processes(self) -> usize {
        self.top_processes
    }

    /// The CPU model that every sample reports.
    pub closed spec fn spec_model(self) -> Option<String> {
        self.cpu_model
    }

    /// The CPU vendor that every sample reports.
    pub closed spec fn spec_vendor(self) -> Option<String> {
        self.cpu_vendor
    }

    /// The physical core count that every sample reports.
    pub closed spec fn spec_physical_core_count(self) -> Option<u32> {
        self.physical_cores
    }

    /// The window between the two usage refreshes of a sample, in ms.
    pub closed spec fn spec_sample_window_ms(self) -> u64 {
        self.sample_window_ms
    }

    /// A sampler that lists `top_processes` processes per sample (none when
    /// 0) and measures usage over the configured interval brought into
    /// `[200, 900]` ms.
    pub fn new(top_processes: usize, sample_interval_ms: u64, hardware: CpuHardware) -> (s: Self)
        ensures
            s.spec_top_processes() == top_processes,
            opt_view(s.spec_model()) == spec_cpu_model(hardware.first_cpu_brand),
            opt_view(s.spec_vendor()) == spec_cpu_vendor(hardware.first_cpu_vendor_id),
            s.spec_physical_core_count() == spec_physical_cores(hardware.physical_core_count),
            s.spec_sample_window_ms() == clamp(sample_interval_ms as int, 200, 900),
    {
        let cpu_model = match hardware.first_cpu_brand {
            Some(b) => if b.as_str().is_empty() {
                None
            } else {
                Some(b)
            },
            None => None,
        };
        let cpu_vendor = match hardware.first_cpu_vendor_id {
            Some(v) => if v.as_str().is_empty() {
                Some("Apple".to_owned())
            } else {
                Some(v)
            },
            None => Some("Apple".to_owned()),
        };
        let physical_cores = match hardware.physical_core_count {
            Some(c) => Some(c as u32),
            None => None,
        };
        MacCpuSource {
            top_processes,
            cpu_model,
            cpu_vendor,
            physical_cores,
            sample_window_ms: sample_window_ms(sample_interval_ms),
        }
    }

    /// The CPU model that every sample reports.
    pub fn cpu_model(&self) -> (model: Option<String>)
        ensures
            model == self.spec_model(),
    {
        clone_opt_string(&self.cpu_model)
    }

    /// The window between the two usage refreshes of a sample, in ms.
    pub fn sample_window_ms(&self) -> (window: u64)
        ensures
            window == self.spec_sample_window_ms(),
            200 <= window <= 900,
    {
        proof {
            use_type_invariant(self);
        }
        self.sample_window_ms
    }

    /// The `cpu` object for one round of readings: the fixed CPU facts, the
    /// readings as they are, the top processes, the logical core count as
    /// the number of per-core usages, and the frequency chosen by
    /// [`spec_frequency`].
    pub fn sample(&self, reading: CpuReading, extra: ExtraReadings) -> (cpu: Cpu)
        ensures
            cpu.model == self.spec_model(),
            cpu.vendor == self.spec_vendor(),
            cpu.logical_cores == reading.per_core_usage@.len() as u32,
            cpu.physical_cores == self.spec_physical_core_count(),
            cpu.usage_percent == reading.usage_percent,
            cpu.per_core_usage@ == reading.per_core_usage@,
            cpu.temperature_c == extra.temperature_c,
            cpu.primary_sensor == extra.primary_sensor,
            cpu.temperatures@ == extra.temperatures@,
            cpu.frequency_mhz == spec_frequency(extra.frequency_mhz, reading.first_cpu_frequency_mhz),
            cpu.load_average == Some(reading.load_average),
            cpu.uptime_s == Some(reading.uptime_s),
            spec_is_top_processes(reading.processes@, self.spec_top_processes() as nat, cpu.processes@),
    {
        let logical_cores = reading.per_core_usage.len() as u32;
        let first_cpu_frequency = match reading.first_cpu_frequency_mhz {
            Some(f) => if is_positive(f) {
                Some(f)
            } else {
                None
            },
            None => None,
        };
        let frequency_mhz = match extra.frequency_mhz {
            Some(f) => Some(f),
            None => first_cpu_frequency,
        };
        let processes = self.collect_top_processes(&reading.processes);
        Cpu {
            model: clone_opt_string(&self.cpu_model),
            vendor: clone_opt_string(&self.cpu_vendor),
            logical_cores,
            physical_cores: self.physical_cores,
            usage_percent: reading.usage_percent,
            per_core_usage: reading.per_core_usage,
            temperature_c: extra.temperature_c,
            primary_sensor: extra.primary_sensor,
            temperatures: extra.temperatures,
            frequency_mhz,
            load_average: Some(reading.load_average),
            uptime_s: Some(reading.uptime_s),
            processes,
        }
    }

    /// The processes with the highest CPU usage, as many as the sampler
    /// lists (see [`spec_is_top_processes`]).
    pub fn collect_top_processes(&self, processes: &Vec<Process>) -> (top: Vec<Process>)
        ensures
            spec_is_top_processes(processes@, self.spec_top_processes() as nat, top@),
    {
        top_processes(processes, self.top_processes)
    }
}

/// The `n` processes with the highest CPU usage, highest first (see
/// [`spec_is_top_processes`]).
pub fn top_processes(processes: &Vec<Process>, n: usize) -> (top: Vec<Process>)
    ensures
        spec_is_top_processes(processes@, n as nat, top@),
        top@.len() == min_nat(n as nat, processes@.len()),
{
    if n == 0 {
        let top: Vec<Process> = Vec::new();
        let ghost sel = Seq::<usize>::empty();
        assert(is_top_selection(spec_cpu_keys(processes@), 0, sel));
        return top;
    }
    let len = processes.len();
    let mut keys: Vec<u32> = Vec::new();
    let mut i: usize = 0;
    while i < len
        invariant
            len == processes.len(),
            i <= len,
            keys@.len() == i,
            forall|j: int| 0 <= j < i ==> keys@[j] == spec_order_key(#[trigger] processes@[j].cpu_percent),
        decreases len - i,
    {
        keys.push(order_key(processes[i].cpu_percent));
        i = i + 1;
    }
    assert(keys@ =~= spec_cpu_keys(processes@));
    let sel = top_indices(&keys, n);
    let mut top: Vec<Process> = Vec::new();
    let mut p: usize = 0;
    while p < sel.len()
        invariant
            len == processes.len(),
            keys@.len() == len,
            is_top_selection(keys@, n as nat, sel@),
            p <= sel.len(),
            top@.len() == p,
            forall|q: int| 0 <= q < p ==> top@[q] == processes@[#[trigger] sel@[q] as int],
        decreases sel.len() - p,
    {
        let e = &processes[sel[p]];
        top.push(
            Process {
                pid: e.pid,
                name: e.name.clone(),
                cpu_percent: e.cpu_percent,
                memory_bytes: e.memory_bytes,
            },
        );
        p = p + 1;
    }
    assert(is_top_selection(spec_cpu_keys(processes@), n as nat, sel@));
    top
}

/// The top processes are a function of the processes and of `n`.
pub proof fn lemma_top_processes_unique(procs: Seq<Process>, n: nat, a: Seq<Process>, b: Seq<Process>)
    requires
        spec_is_top_processes(procs, n, a),
        spec_is_top_processes(procs, n, b),
    ensures
        a == b,
{
    let keys = spec_cpu_keys(procs);
    let sa = choose|sel: Seq<usize>|
        #[trigger] is_top_selection(keys, n, sel) && a.len() == sel.len() && (forall|p: int|
            0 <= p < sel.len() ==> a[p] == procs[sel[p] as int]);
    let sb = choose|sel: Seq<usize>|
        #[trigger] is_top_selection(keys, n, sel) && b.len() == sel.len() && (forall|p: int|
            0 <= p < sel.len() ==> b[p] == procs[sel[p] as int]);
    lemma_top_selection_unique(keys, n, sa, sb);
    assert(a =~= b);
}

/// Listing fewer processes lists the leading ones of a longer listing.
pub proof fn lemma_top_processes_prefix(
    procs: Seq<Process>,
    n: nat,
    m: nat,
    small: Seq<Process>,
    large: Seq<Process>,
)
    requires
        n <= m,
        spec_is_top_processes(procs, n, small),
        spec_is_top_processes(procs, m, large),
    ensures
        small == large.take(small.len() as int),
{
    let keys = spec_cpu_keys(procs);
    let ss = choose|sel: Seq<usize>|
        #[trigger] is_top_selection(keys, n, sel) && small.len() == sel.len() && (forall|p: int|
            0 <= p < sel.len() ==> small[p] == procs[sel[p] as int]);
    let sl = choose|sel: Seq<usize>|
        #[trigger] is_top_selection(keys, m, sel) && large.len() == sel.len() && (forall|p: int|
            0 <= p < sel.len() ==> large[p] == procs[sel[p] as int]);
    lemma_top_selection_prefix(keys, n, m, ss, sl);
    assert(small =~= large.take(small.len() as int));
}

/// When no usage is a NaN, the listing runs from the highest usage down, and
/// no process left out uses more CPU than one that is listed.
pub proof fn lemma_top_processes_by_usage(procs: Seq<Process>, n: nat, top: Seq<Process>)
    requires
        spec_is_top_processes(procs, n, top),
        forall|i: int| 0 <= i < procs.len() ==> !spec_is_nan(#[trigger] procs[i].cpu_percent),
    ensures
        forall|p: int, q: int|
            0 <= p < q < top.len() ==> !spec_less_than(
                #[trigger] top[p].cpu_percent,
                #[trigger] top[q].cpu_percent,
            ),
        forall|i: usize, p: int|
            i < procs.len() && 0 <= p < top.len() && !top.contains(#[trigger] procs[i as int])
                ==> !spec_less_than(#[trigger] top[p].cpu_percent, procs[i as int].cpu_percent),
{
    let keys = spec_cpu_keys(procs);
    let sel = choose|sel: Seq<usize>|
        #[trigger] is_top_selection(keys, n, sel) && top.len() == sel.len() && (forall|p: int|
            0 <= p < sel.len() ==> top[p] == procs[sel[p] as int]);
    assert forall|p: int, q: int| 0 <= p < q < top.len() implies !spec_less_than(
        #[trigger] top[p].cpu_percent,
        #[trigger] top[q].cpu_percent,
    ) by {
        let a = procs[sel[p] as int].cpu_percent;
        let b = procs[sel[q] as int].cpu_percent;
        assert(ranks_before(keys, sel[p] as int, sel[q] as int));
        lemma_order_key_is_float_order(a, b);
        lemma_order_key_is_float_order(b, a);
    }
    assert forall|i: usize, p: int|
        i < procs.len() && 0 <= p < top.len() && !top.contains(#[trigger] procs[i as int])
            implies !spec_less_than(#[trigger] top[p].cpu_percent, procs[i as int].cpu_percent) by {
        if sel.contains(i) {
            let q = choose|q: int| 0 <= q < sel.len() && sel[q] == i;
            assert(top[q] == procs[i as int]);
            assert(top.contains(procs[i as int]));
        } else {
            assert(ranks_before(keys, sel[p] as int, i as int));
            let a = procs[sel[p] as int].cpu_percent;
            let b = procs[i as int].cpu_percent;
            lemma_order_key_is_float_order(a, b);
            lemma_order_key_is_float_order(b, a);
        }
    }
}

/// The kernel string (see [`spec_kernel_version`]) from the OS name and the
/// kernel version.
pub fn read_kernel_version(os_name: Option<String>, kernel_version: Option<String>) -> (kernel: Option<String>)
    ensures
        opt_view(kernel) == spec_kernel_version(os_name, kernel_version),
{
    match (os_name, kernel_version) {
        (Some(n), Some(v)) => Some(n.concat(" ").concat(v.as_str())),
        (None, Some(v)) => Some(v),
        _ => None,
    }
}

} // verus!
