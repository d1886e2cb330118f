use sysfinder::decimal::to_decimal;
use sysfinder::system_info::{
    formato_bytes, CpuReading, DiskReading, NetworkReading, SystemMonitor, SystemReading,
};

fn empty_reading() -> SystemReading {
    SystemReading {
        name: None,
        kernel_version: None,
        os_version: None,
        host_name: None,
        total_memory: 0,
        used_memory: 0,
        total_swap: 0,
        used_swap: 0,
        cpus: Vec::new(),
        disks: Vec::new(),
        networks: Vec::new(),
    }
}

#[test]
fn numbers_are_written_in_decimal() {
    assert_eq!(to_decimal(0), "0");
    assert_eq!(to_decimal(7), "7");
    assert_eq!(to_decimal(10), "10");
    assert_eq!(to_decimal(1_234_567_890), "1234567890");
    assert_eq!(to_decimal(u64::MAX), "18446744073709551615");
    for n in [9u64, 99, 100, 101, 4096, 999_999] {
        assert_eq!(to_decimal(n), n.to_string());
    }
}

#[test]
fn bytes_are_shown_in_whole_mebibytes() {
    assert_eq!(formato_bytes(0), "0");
    assert_eq!(formato_bytes(1_048_575), "0");
    assert_eq!(formato_bytes(1_048_576), "1");
    assert_eq!(formato_bytes(8 * 1_073_741_824), "8192");
    assert_eq!(formato_bytes(u64::MAX), "17592186044415");
}

#[test]
fn monitor_reads_once_a_second_unless_told_otherwise() {
    let mut monitor = SystemMonitor::new();
    assert_eq!(monitor.intervalo_segundos(), 1);
    monitor.set_intervalo(5);
    assert_eq!(monitor.intervalo_segundos(), 5);
    monitor.set_intervalo(0);
    assert_eq!(monitor.intervalo_segundos(), 0);
}

#[test]
fn report_of_an_empty_reading() {
    let info = SystemMonitor::new().obtener_info_completa(&empty_reading());
    let expected = "=== INFORMACIÓN DEL SISTEMA ===\n\
Sistema:         Desconocido\n\
Kernel:          Desconocido\n\
Sistema Op:      Desconocido\n\
Host:            Desconocido\n\
\n=== MEMORIA ===\n\
Total:           0 MB\n\
En uso:          0 MB\n\
Swap Total:      0 MB\n\
Swap en uso:     0 MB\n\
\n=== CPU ===\n\
CPU | Uso % | MHz\n\
-----------------\n\
\n=== DISCOS ===\n\
\n=== RED ===\n";
    assert_eq!(info, expected);
}

#[test]
fn report_of_a_full_reading() {
    let mut reading = empty_reading();
    reading.name = Some("Linux".to_string());
    reading.kernel_version = Some("6.1.0".to_string());
    reading.os_version = Some("12".to_string());
    reading.host_name = Some("caja".to_string());
    reading.total_memory = 16 * 1_073_741_824;
    reading.used_memory = 3 * 1_048_576 + 17;
    reading.total_swap = 2 * 1_073_741_824;
    reading.used_swap = 1_048_575;
    reading.cpus = vec![
        CpuReading { usage: "12.5".to_string(), frequency: 2400 },
        CpuReading { usage: "0.0".to_string(), frequency: 800 },
    ];
    reading.disks = vec![
        DiskReading {
            mount_point: Some("/".to_string()),
            total_space: 500 * 1_073_741_824,
            available_space: 3 * 1_073_741_824 - 1,
        },
        DiskReading { mount_point: None, total_space: 1, available_space: 1 },
    ];
    reading.networks =
        vec![NetworkReading { name: "eth0".to_string(), received: 2048, transmitted: 1023 }];
    let info = SystemMonitor::new().obtener_info_completa(&reading);
    let expected = format!(
        "=== INFORMACIÓN DEL SISTEMA ===\n{}{}{}{}\n=== MEMORIA ===\n{}{}{}{}\n=== CPU ===\n{}{}{}{}\n=== DISCOS ===\n{}{}{}\n=== RED ===\n{}{}{}",
        "Sistema:         Linux\n",
        "Kernel:          6.1.0\n",
        "Sistema Op:      12\n",
        "Host:            caja\n",
        "Total:           16384 MB\n",
        "En uso:          3 MB\n",
        "Swap Total:      2048 MB\n",
        "Swap en uso:     0 MB\n",
        "CPU | Uso % | MHz\n",
        "-----------------\n",
        "  0 | 12.5  | 2400\n",
        "  1 | 0.0  | 800\n",
        "Montaje: /\n",
        "Total:       500 GB\n",
        "Disponible:  2 GB\n",
        "Interfaz: eth0\n",
        "Recibido:     2 KB\n",
        "Enviado:      0 KB\n",
    );
    assert_eq!(info, expected);
}

#[test]
fn processor_numbers_are_right_aligned_in_three_columns() {
    let mut reading = empty_reading();
    for _ in 0..101 {
        reading.cpus.push(CpuReading { usage: "1.0".to_string(), frequency: 1 });
    }
    let info = SystemMonitor::new().obtener_info_completa(&reading);
    assert!(info.contains("\n  9 | 1.0  | 1\n"));
    assert!(info.contains("\n 10 | 1.0  | 1\n"));
    assert!(info.contains("\n 99 | 1.0  | 1\n"));
    assert!(info.contains("\n100 | 1.0  | 1\n"));
    for (i, line) in info.lines().skip(15).take(101).enumerate() {
        assert_eq!(line, format!("{:3} | 1.0  | 1", i));
    }
}
