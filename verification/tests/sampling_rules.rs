use mac_cpu_monitord::f32_bits::{is_positive, order_key};
use mac_cpu_monitord::model::{LoadAverage, Process};
use mac_cpu_monitord::ranking::top_indices;
use mac_cpu_monitord::readings::{cluster_frequency_known, ClusterFrequencies, ExtraReadings};
use mac_cpu_monitord::source::{read_kernel_version, top_processes, CpuHardware, CpuReading, MacCpuSource};
use mac_cpu_monitord::timing::{ioreport_window_ms, sample_window_ms, sampler_period_ms, sampler_period_nanos, usage_wait_nanos};

fn sample_floats() -> Vec<f32> {
    vec![
        0.0,
        -0.0,
        1.0,
        -1.0,
        0.5,
        100.0,
        250.75,
        -3.25,
        f32::MIN_POSITIVE,
        f32::from_bits(1),
        f32::from_bits(0x8000_0001),
        f32::MAX,
        f32::MIN,
        f32::INFINITY,
        f32::NEG_INFINITY,
    ]
}

fn process(pid: u32, name: &str, cpu: f32) -> Process {
    Process { pid, name: name.to_string(), cpu_percent: cpu.to_bits(), memory_bytes: pid as u64 * 1024 }
}

fn hardware(brand: Option<&str>, vendor: Option<&str>, cores: Option<usize>) -> CpuHardware {
    CpuHardware {
        first_cpu_brand: brand.map(|s| s.to_string()),
        first_cpu_vendor_id: vendor.map(|s| s.to_string()),
        physical_core_count: cores,
    }
}

fn reading(per_core: Vec<f32>, freq: Option<f32>, procs: Vec<Process>) -> CpuReading {
    CpuReading {
        usage_percent: 12.5f32.to_bits(),
        per_core_usage: per_core.into_iter().map(f32::to_bits).collect(),
        first_cpu_frequency_mhz: freq.map(f32::to_bits),
        load_average: LoadAverage { one: 1.5f32.to_bits(), five: 1.25f32.to_bits(), fifteen: 1.0f32.to_bits() },
        uptime_s: 3600,
        processes: procs,
    }
}

#[test]
fn positive_bits_match_float_comparison() {
    let mut values = sample_floats();
    values.push(f32::NAN);
    values.push(-f32::NAN);
    for v in values {
        assert_eq!(is_positive(v.to_bits()), v > 0.0, "value {v:?}");
    }
}

#[test]
fn order_keys_match_float_order() {
    let values = sample_floats();
    for a in &values {
        for b in &values {
            assert_eq!(order_key(a.to_bits()) < order_key(b.to_bits()), a < b, "{a:?} < {b:?}");
            assert_eq!(order_key(a.to_bits()) == order_key(b.to_bits()), a == b, "{a:?} == {b:?}");
        }
    }
}

#[test]
fn sample_window_is_clamped() {
    assert_eq!(sample_window_ms(0), 200);
    assert_eq!(sample_window_ms(199), 200);
    assert_eq!(sample_window_ms(500), 500);
    assert_eq!(sample_window_ms(1000), 900);
    assert_eq!(sample_window_ms(u64::MAX), 900);
}

#[test]
fn ioreport_window_is_clamped() {
    assert_eq!(ioreport_window_ms(100), 400);
    assert_eq!(ioreport_window_ms(1000), 1000);
    assert_eq!(ioreport_window_ms(5000), 2000);
}

#[test]
fn usage_wait_covers_the_rest_of_the_window() {
    assert_eq!(usage_wait_nanos(900, 0), 900_000_000);
    assert_eq!(usage_wait_nanos(900, 300_000_000), 600_000_000);
    assert_eq!(usage_wait_nanos(900, 1_000_000_000), 0);
    assert_eq!(usage_wait_nanos(900, 900_000_000), 0);
}

#[test]
fn sampler_period_has_a_floor() {
    assert_eq!(sampler_period_ms(50), 200);
    assert_eq!(sampler_period_ms(1000), 1000);
    assert_eq!(sampler_period_nanos(1000), 1_000_000_000);
    assert_eq!(sampler_period_nanos(0), 200_000_000);
}

#[test]
fn top_indices_is_a_stable_descending_prefix() {
    let keys = vec![5, 9, 5, 1, 9];
    assert_eq!(top_indices(&keys, 3), vec![1, 4, 0]);
    assert_eq!(top_indices(&keys, 0), Vec::<usize>::new());
    assert_eq!(top_indices(&keys, 10), vec![1, 4, 0, 2, 3]);
    assert_eq!(top_indices(&Vec::new(), 4), Vec::<usize>::new());
}

#[test]
fn top_processes_by_cpu_usage() {
    let procs = vec![
        process(1, "idle", 0.0),
        process(2, "a", 10.0),
        process(3, "busy", 50.0),
        process(4, "b", 10.0),
        process(5, "c", 2.5),
    ];
    let top = top_processes(&procs, 3);
    let names: Vec<&str> = top.iter().map(|p| p.name.as_str()).collect();
    assert_eq!(names, vec!["busy", "a", "b"]);
    assert_eq!(top[0], procs[2]);
    assert!(top_processes(&procs, 0).is_empty());
    assert_eq!(top_processes(&procs, 9).len(), 5);
}

#[test]
fn fewer_top_processes_is_a_prefix() {
    let procs = vec![
        process(1, "a", 3.0),
        process(2, "b", 7.0),
        process(3, "c", 7.0),
        process(4, "d", 1.0),
        process(5, "e", 0.0),
    ];
    let small = top_processes(&procs, 2);
    let large = top_processes(&procs, 4);
    assert_eq!(small[..], large[..2]);
}

#[test]
fn negative_zero_usage_ties_with_zero() {
    let procs = vec![process(1, "neg", -0.0), process(2, "pos", 0.0)];
    let top = top_processes(&procs, 2);
    assert_eq!(top[0].pid, 1);
    assert_eq!(top[1].pid, 2);
}

#[test]
fn source_reports_brand_and_vendor_rules() {
    let s = MacCpuSource::new(5, 1000, hardware(Some("Apple M2"), Some(""), Some(8)));
    assert_eq!(s.cpu_model(), Some("Apple M2".to_string()));
    assert_eq!(s.sample_window_ms(), 900);
    let cpu = s.sample(reading(vec![], None, vec![]), ExtraReadings::empty());
    assert_eq!(cpu.vendor, Some("Apple".to_string()));
    assert_eq!(cpu.physical_cores, Some(8));

    let s = MacCpuSource::new(5, 100, hardware(Some(""), Some("GenuineIntel"), None));
    assert_eq!(s.cpu_model(), None);
    assert_eq!(s.sample_window_ms(), 200);
    let cpu = s.sample(reading(vec![], None, vec![]), ExtraReadings::empty());
    assert_eq!(cpu.vendor, Some("GenuineIntel".to_string()));
    assert_eq!(cpu.physical_cores, None);

    let s = MacCpuSource::new(5, 500, hardware(None, None, Some(usize::MAX)));
    let cpu = s.sample(reading(vec![], None, vec![]), ExtraReadings::empty());
    assert_eq!(cpu.model, None);
    assert_eq!(cpu.vendor, Some("Apple".to_string()));
    assert_eq!(cpu.physical_cores, Some(usize::MAX as u32));
}

#[test]
fn sample_assembles_the_cpu_object() {
    let s = MacCpuSource::new(2, 1000, hardware(Some("Apple M1"), Some("Apple"), Some(8)));
    let procs = vec![process(10, "x", 1.0), process(11, "y", 30.0), process(12, "z", 20.0)];
    let cpu = s.sample(reading(vec![10.0, 20.0, 30.0, 40.0], Some(2400.0), procs), ExtraReadings::empty());
    assert_eq!(cpu.logical_cores, 4);
    assert_eq!(cpu.usage_percent, 12.5f32.to_bits());
    assert_eq!(cpu.per_core_usage[3], 40.0f32.to_bits());
    assert_eq!(cpu.frequency_mhz, Some(2400.0f32.to_bits()));
    assert_eq!(cpu.temperature_c, None);
    assert_eq!(cpu.primary_sensor, None);
    assert!(cpu.temperatures.is_empty());
    assert_eq!(cpu.uptime_s, Some(3600));
    assert_eq!(cpu.load_average.map(|l| f32::from_bits(l.one)), Some(1.5));
    let pids: Vec<u32> = cpu.processes.iter().map(|p| p.pid).collect();
    assert_eq!(pids, vec![11, 12]);
}

#[test]
fn zero_first_cpu_frequency_is_not_reported() {
    let s = MacCpuSource::new(0, 1000, hardware(None, None, None));
    let cpu = s.sample(reading(vec![1.0], Some(0.0), vec![process(1, "p", 5.0)]), ExtraReadings::empty());
    assert_eq!(cpu.frequency_mhz, None);
    assert!(cpu.processes.is_empty());
}

#[test]
fn extra_frequency_wins_over_first_cpu() {
    let s = MacCpuSource::new(0, 1000, hardware(None, None, None));
    let clusters = ClusterFrequencies { pcpu_freq_mhz: 3000, ecpu_freq_mhz: 2000, pcpu_cores: 4, ecpu_cores: 4 };
    let extra = ExtraReadings::from_metrics(Some(55.0f32.to_bits()), None, &clusters, 2500.0f32.to_bits());
    let cpu = s.sample(reading(vec![], Some(1000.0), vec![]), extra);
    assert_eq!(cpu.frequency_mhz, Some(2500.0f32.to_bits()));
    assert_eq!(cpu.temperature_c, Some(55.0f32.to_bits()));
    assert_eq!(cpu.primary_sensor, Some("CPU (IOReport avg)".to_string()));
    assert_eq!(cpu.temperatures.len(), 1);
}

#[test]
fn temperature_readings_rules() {
    let clusters = ClusterFrequencies { pcpu_freq_mhz: 0, ecpu_freq_mhz: 0, pcpu_cores: 4, ecpu_cores: 4 };
    let both = ExtraReadings::from_metrics(Some(45.5f32.to_bits()), Some(40.0f32.to_bits()), &clusters, 0);
    assert_eq!(both.temperature_c, Some(45.5f32.to_bits()));
    assert_eq!(both.temperatures.len(), 2);
    assert_eq!(both.temperatures[0].chip, "SoC");
    assert_eq!(both.temperatures[0].label, "CPU avg");
    assert_eq!(both.temperatures[1].label, "GPU avg");
    assert_eq!(both.temperatures[1].temp_c, 40.0f32.to_bits());
    assert_eq!(both.frequency_mhz, None);

    let cpu_only = ExtraReadings::from_metrics(Some(45.5f32.to_bits()), Some(0.0f32.to_bits()), &clusters, 0);
    assert_eq!(cpu_only.temperatures.len(), 1);

    let gpu_only = ExtraReadings::from_metrics(None, Some(40.0f32.to_bits()), &clusters, 0);
    assert_eq!(gpu_only.temperature_c, None);
    assert_eq!(gpu_only.primary_sensor, None);
    assert_eq!(gpu_only.temperatures.len(), 1);
    assert_eq!(gpu_only.temperatures[0].chip, "SoC");
    assert_eq!(gpu_only.temperatures[0].label, "GPU avg");
    assert_eq!(gpu_only.temperatures[0].temp_c, 40.0f32.to_bits());

    let cold_cpu = ExtraReadings::from_metrics(Some(0.0f32.to_bits()), Some(40.0f32.to_bits()), &clusters, 0);
    assert_eq!(cold_cpu.temperature_c, None);
    assert_eq!(cold_cpu.temperatures.len(), 1);
    assert_eq!(cold_cpu.temperatures[0].label, "GPU avg");

    let negative = ExtraReadings::from_metrics(Some((-1.0f32).to_bits()), None, &clusters, 0);
    assert_eq!(negative.temperature_c, None);
    assert!(negative.temperatures.is_empty());
    assert_eq!(ExtraReadings::from_metrics(None, None, &clusters, 0), ExtraReadings::empty());

    let nan = ExtraReadings::from_metrics(Some(f32::NAN.to_bits()), None, &clusters, 0);
    assert_eq!(nan.primary_sensor, None);
}

#[test]
fn cluster_frequency_needs_cores_and_a_running_cluster() {
    let mut c = ClusterFrequencies { pcpu_freq_mhz: 3000, ecpu_freq_mhz: 0, pcpu_cores: 0, ecpu_cores: 0 };
    assert!(!cluster_frequency_known(&c));
    c.ecpu_cores = 4;
    assert!(cluster_frequency_known(&c));
    c.pcpu_freq_mhz = 0;
    assert!(!cluster_frequency_known(&c));
    c.ecpu_freq_mhz = 1000;
    assert!(cluster_frequency_known(&c));
    let extra = ExtraReadings::from_metrics(None, None, &c, 1000.0f32.to_bits());
    assert_eq!(extra.frequency_mhz, Some(1000.0f32.to_bits()));
    assert_eq!(extra.temperature_c, None);
}

#[test]
fn kernel_version_string() {
    let k = read_kernel_version(Some("Darwin".to_string()), Some("23.1.0".to_string()));
    assert_eq!(k, Some("Darwin 23.1.0".to_string()));
    assert_eq!(read_kernel_version(None, Some("23.1.0".to_string())), Some("23.1.0".to_string()));
    assert_eq!(read_kernel_version(Some("Darwin".to_string()), None), None);
    assert_eq!(read_kernel_version(None, None), None);
}
