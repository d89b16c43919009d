use syshealth::battery::{battery_block, battery_section, health_deci, BatterySample};
use syshealth::disk::{disk_block, disk_blocks, DiskSample};
use syshealth::memory::{ram_block, MemorySample};
use syshealth::report::{build_report, cpu_line, CpuSample, Snapshot};
use syshealth::search::label_has_gpu_marker;
use syshealth::sensors::{graphics_line, SensorSample};

fn sample_memory() -> MemorySample {
    MemorySample {
        total_bytes: 8 * 1024 * 1024 * 1024,
        available_bytes: 2 * 1024 * 1024 * 1024,
    }
}

#[test]
fn health_is_ratio_in_tenths_of_percent() {
    assert_eq!(health_deci(45_000, 50_000), 900);
    assert_eq!(health_deci(50_000, 50_000), 1000);
    assert_eq!(health_deci(0, 50_000), 0);
}

#[test]
fn health_grows_with_current_capacity() {
    let lower = health_deci(40_000, 50_000);
    let higher = health_deci(47_500, 50_000);
    assert!(lower <= higher);
    assert!(health_deci(75_000, 50_000) <= 1500);
}

#[test]
fn battery_block_is_exact() {
    let b = BatterySample {
        current_mwh: 45_000,
        design_mwh: 50_000,
        cycle_count: 123,
    };
    assert_eq!(
        battery_block(&b),
        "🔋 Battery Health: 90.0% (123 cycles)\n\
         📉 Current Max Capacity: 45.00Wh\n\
         🏭 Design Capacity: 50.00Wh"
    );
}

#[test]
fn battery_section_without_device_is_fallback() {
    assert_eq!(battery_section(&None), "🔋 Battery: Not Detected");
}

#[test]
fn gpu_marker_search_is_case_sensitive_substring() {
    assert!(label_has_gpu_marker("GPU0"));
    assert!(label_has_gpu_marker("amdgpu GPU sensor"));
    assert!(!label_has_gpu_marker("gpu0"));
    assert!(!label_has_gpu_marker("coretemp"));
    assert!(!label_has_gpu_marker(""));
    assert!(!label_has_gpu_marker("GP"));
}

#[test]
fn graphics_line_reports_first_gpu_sensor() {
    let sensors = vec![
        SensorSample { label: "coretemp Core 0".to_string(), temp_deci: 410 },
        SensorSample { label: "GPU0".to_string(), temp_deci: 553 },
        SensorSample { label: "GPU1".to_string(), temp_deci: 600 },
    ];
    let line = graphics_line(&sensors);
    assert_eq!(line, "🎮 Graphics: GPU0 | Temp: 55.3°C");
    assert!(line.contains("GPU0"));
    assert!(line.contains("55.3"));
}

#[test]
fn graphics_line_without_gpu_sensor_is_fallback() {
    let sensors = vec![
        SensorSample { label: "coretemp Core 0".to_string(), temp_deci: 410 },
        SensorSample { label: "acpitz temp1".to_string(), temp_deci: 300 },
    ];
    let line = graphics_line(&sensors);
    assert_eq!(line, "🎮 Graphics: Information not available");
    assert!(line.contains("not available"));
}

#[test]
fn graphics_line_handles_negative_temperature() {
    let sensors = vec![SensorSample { label: "GPU cold".to_string(), temp_deci: -53 }];
    assert_eq!(graphics_line(&sensors), "🎮 Graphics: GPU cold | Temp: -5.3°C");
}

#[test]
fn ram_block_is_exact() {
    assert_eq!(
        ram_block(&sample_memory()),
        "🛠️ RAM: 6.00/8.00GB used (75.0%)\n\
         📊 Max RAM Capacity: 8.00GB"
    );
}

#[test]
fn disk_block_is_exact() {
    let d = DiskSample {
        name: "root".to_string(),
        total_bytes: 100 * 1024 * 1024 * 1024,
        available_bytes: 40 * 1024 * 1024 * 1024,
    };
    assert_eq!(
        disk_block(&d),
        "\n💾 Disk [root]: 60.00/100.00GB used (60.0%)\n\
         📊 Total Capacity: 100.00GB | Free: 40.00GB"
    );
}

#[test]
fn disk_used_plus_available_reconstructs_total() {
    let d = DiskSample {
        name: "data".to_string(),
        total_bytes: 999_999_999_937,
        available_bytes: 123_456_789,
    };
    assert_eq!(d.used_bytes() + d.available_bytes, d.total_bytes);
}

#[test]
fn disk_blocks_of_no_disks_is_empty() {
    let disks: Vec<DiskSample> = Vec::new();
    assert_eq!(disk_blocks(&disks), "");
}

#[test]
fn cpu_line_is_exact() {
    let c = CpuSample { brand: "TestBrand 9000".to_string(), usage_deci: 123 };
    assert_eq!(cpu_line(&c), "💻 CPU: TestBrand 9000 | Usage: 12.3%");
}

#[test]
fn full_report_is_exact() {
    let s = Snapshot {
        cpu: Some(CpuSample { brand: "TestBrand 9000".to_string(), usage_deci: 123 }),
        memory: sample_memory(),
        disks: vec![DiskSample {
            name: "root".to_string(),
            total_bytes: 100 * 1024 * 1024 * 1024,
            available_bytes: 40 * 1024 * 1024 * 1024,
        }],
        sensors: vec![SensorSample { label: "GPU0".to_string(), temp_deci: 553 }],
        uptime_seconds: 3661,
        battery: Some(BatterySample { current_mwh: 45_000, design_mwh: 50_000, cycle_count: 123 }),
    };
    assert_eq!(
        build_report(&s),
        "\n🔍 System Health Report:\n\
         💻 CPU: TestBrand 9000 | Usage: 12.3%\n\
         🛠️ RAM: 6.00/8.00GB used (75.0%)\n\
         📊 Max RAM Capacity: 8.00GB\n\
         \n\
         💾 Disk [root]: 60.00/100.00GB used (60.0%)\n\
         📊 Total Capacity: 100.00GB | Free: 40.00GB\n\
         🎮 Graphics: GPU0 | Temp: 55.3°C\n\
         ⏳ Uptime: 1h 1m\n\
         🔋 Battery Health: 90.0% (123 cycles)\n\
         📉 Current Max Capacity: 45.00Wh\n\
         🏭 Design Capacity: 50.00Wh\n"
    );
}

#[test]
fn report_without_cpu_omits_cpu_line() {
    let s = Snapshot {
        cpu: None,
        memory: sample_memory(),
        disks: Vec::new(),
        sensors: Vec::new(),
        uptime_seconds: 0,
        battery: None,
    };
    let report = build_report(&s);
    assert!(!report.contains("CPU"));
    assert_eq!(
        report,
        "\n🔍 System Health Report:\n\
         🛠️ RAM: 6.00/8.00GB used (75.0%)\n\
         📊 Max RAM Capacity: 8.00GB\n\
         \n\
         🎮 Graphics: Information not available\n\
         ⏳ Uptime: 0h 0m\n\
         🔋 Battery: Not Detected\n"
    );
}

#[test]
fn report_without_battery_carries_fallback_line() {
    let s = Snapshot {
        cpu: None,
        memory: sample_memory(),
        disks: Vec::new(),
        sensors: vec![SensorSample { label: "coretemp".to_string(), temp_deci: 400 }],
        uptime_seconds: 42,
        battery: None,
    };
    let report = build_report(&s);
    assert!(report.contains("🔋 Battery: Not Detected"));
    assert!(report.contains("🎮 Graphics: Information not available"));
}
