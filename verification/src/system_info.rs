//! The system monitor: what a reading of the host says, written out as text.

use vstd::prelude::*;
use vstd::string::StringExecFns;
use crate::decimal::{decimal, to_decimal};

verus! {

/// The bytes of one mebibyte.
pub const BYTES_PER_MB: u64 = 1_048_576;

/// The bytes of one gibibyte.
pub const BYTES_PER_GB: u64 = 1_073_741_824;

/// The bytes of one kibibyte.
pub const BYTES_PER_KB: u64 = 1024;

/// A number of bytes in whole mebibytes, rounded down and written in decimal.
pub fn formato_bytes(bytes: u64) -> (text: String)
    ensures
        text@ == decimal((bytes / BYTES_PER_MB) as nat),
{
    to_decimal(bytes / BYTES_PER_MB)
}

/// The monitor of the host: how often it is to be read.
pub struct SystemMonitor {
    intervalo: u64,
}

impl SystemMonitor {
    /// The seconds between two readings.
    pub closed spec fn intervalo(&self) -> u64 {
        self.intervalo
    }

    /// A monitor that reads the host once a second.
    pub fn new() -> (monitor: SystemMonitor)
        ensures
            monitor.intervalo() == 1,
    {
        SystemMonitor { intervalo: 1 }
    }

    /// Sets the seconds between two readings.
    pub fn set_intervalo(&mut self, segundos: u64)
        ensures
            final(self).intervalo() == segundos,
    {
        self.intervalo = segundos;
    }

    /// The seconds between two readings.
    pub fn intervalo_segundos(&self) -> (segundos: u64)
        ensures
            segundos == self.intervalo(),
    {
        self.intervalo
    }
}

/// One processor, as it was read.
pub struct CpuReading {
    /// The load in percent, already written out with one decimal.
    pub usage: String,
    /// The frequency in MHz.
    pub frequency: u64,
}

/// One disk, as it was read.
pub struct DiskReading {
    /// Where the disk is mounted, or `None` where that is not valid text.
    pub mount_point: Option<String>,
    /// The size of the disk in bytes.
    pub total_space: u64,
    /// The bytes of it that are free.
    pub available_space: u64,
}

/// One network interface, as it was read.
pub struct NetworkReading {
    pub name: String,
    /// The bytes received.
    pub received: u64,
    /// The bytes sent.
    pub transmitted: u64,
}

/// One reading of the host.
pub struct SystemReading {
    pub name: Option<String>,
    pub kernel_version: Option<String>,
    pub os_version: Option<String>,
    pub host_name: Option<String>,
    /// Memory and swap, in bytes.
    pub total_memory: u64,
    pub used_memory: u64,
    pub total_swap: u64,
    pub used_swap: u64,
    pub cpus: Vec<CpuReading>,
    pub disks: Vec<DiskReading>,
    pub networks: Vec<NetworkReading>,
}

/// A text that the host gave, or the word for one that it did not give.
pub open spec fn or_unknown(text: Option<String>) -> Seq<char> {
    match text {
        Some(text) => text@,
        None => "Desconocido"@,
    }
}

/// A text moved to the right in a field of three characters; a longer text is
/// left as it is.
pub open spec fn right_aligned(text: Seq<char>) -> Seq<char> {
    if text.len() >= 3 {
        text
    } else if text.len() == 2 {
        " "@ + text
    } else if text.len() == 1 {
        "  "@ + text
    } else {
        "   "@
    }
}

/// The line of the processor at `index`.
pub open spec fn cpu_line(index: nat, cpu: CpuReading) -> Seq<char> {
    right_aligned(decimal(index)) + " | "@ + cpu.usage@ + "  | "@ + decimal(cpu.frequency as nat)
        + "\n"@
}

/// The lines of the processors, each with its place in the list.
pub open spec fn cpu_lines(cpus: Seq<CpuReading>) -> Seq<char>
    decreases cpus.len(),
{
    if cpus.len() == 0 {
        Seq::empty()
    } else {
        cpu_lines(cpus.drop_last()) + cpu_line((cpus.len() - 1) as nat, cpus.last())
    }
}

/// The lines of one disk: none where its mount point is not valid text.
pub open spec fn disk_block(disk: DiskReading) -> Seq<char> {
    match disk.mount_point {
        Some(point) => "Montaje: "@ + point@ + "\n"@ + "Total:       "@ + decimal(
            (disk.total_space / BYTES_PER_GB) as nat,
        ) + " GB\n"@ + "Disponible:  "@ + decimal((disk.available_space / BYTES_PER_GB) as nat)
            + " GB\n"@,
        None => Seq::empty(),
    }
}

/// The lines of the disks.
pub open spec fn disk_blocks(disks: Seq<DiskReading>) -> Seq<char>
    decreases disks.len(),
{
    if disks.len() == 0 {
        Seq::empty()
    } else {
        disk_blocks(disks.drop_last()) + disk_block(disks.last())
    }
}

/// The lines of one network interface.
pub open spec fn network_block(network: NetworkReading) -> Seq<char> {
    "Interfaz: "@ + network.name@ + "\n"@ + "Recibido:     "@ + decimal(
        (network.received / BYTES_PER_KB) as nat,
    ) + " KB\n"@ + "Enviado:      "@ + decimal((network.transmitted / BYTES_PER_KB) as nat)
        + " KB\n"@
}

/// The lines of the network interfaces.
pub open spec fn network_blocks(networks: Seq<NetworkReading>) -> Seq<char>
    decreases networks.len(),
{
    if networks.len() == 0 {
        Seq::empty()
    } else {
        network_blocks(networks.drop_last()) + network_block(networks.last())
    }
}

/// The part of the report on the host itself.
pub open spec fn system_section(reading: SystemReading) -> Seq<char> {
    "=== INFORMACIÓN DEL SISTEMA ===\n"@ + "Sistema:         "@ + or_unknown(reading.name)
        + "\n"@ + "Kernel:          "@ + or_unknown(reading.kernel_version) + "\n"@
        + "Sistema Op:      "@ + or_unknown(reading.os_version) + "\n"@ + "Host:            "@
        + or_unknown(reading.host_name) + "\n"@
}

/// The part of the report on memory and swap, in whole mebibytes.
pub open spec fn memory_section(reading: SystemReading) -> Seq<char> {
    "\n=== MEMORIA ===\n"@ + "Total:           "@ + decimal(
        (reading.total_memory / BYTES_PER_MB) as nat,
    ) + " MB\n"@ + "En uso:          "@ + decimal((reading.used_memory / BYTES_PER_MB) as nat)
        + " MB\n"@ + "Swap Total:      "@ + decimal((reading.total_swap / BYTES_PER_MB) as nat)
        + " MB\n"@ + "Swap en uso:     "@ + decimal((reading.used_swap / BYTES_PER_MB) as nat)
        + " MB\n"@
}

/// The whole report: the host, the memory, the processors, the disks and the
/// network interfaces, in this order.
pub open spec fn report(reading: SystemReading) -> Seq<char> {
    system_section(reading) + memory_section(reading) + "\n=== CPU ===\n"@
        + "CPU | Uso % | MHz\n"@ + "-----------------\n"@ + cpu_lines(reading.cpus@)
        + "\n=== DISCOS ===\n"@ + disk_blocks(reading.disks@) + "\n=== RED ===\n"@
        + network_blocks(reading.networks@)
}

/// Adds to `out` a label, a text and the end of the line.
fn push_text_line(out: &mut String, label: &str, text: &str)
    ensures
        final(out)@ == old(out)@ + label@ + text@ + "\n"@,
{
    out.append(label);
    out.append(text);
    out.append("\n");
}

/// Adds to `out` a label, the whole units that `amount` holds, and the end
/// of the line with the unit's name.
fn push_amount_line(out: &mut String, label: &str, amount: u64, unit: u64, ending: &str)
    requires
        unit > 0,
    ensures
        final(out)@ == old(out)@ + label@ + decimal((amount / unit) as nat) + ending@,
{
    out.append(label);
    let number = to_decimal(amount / unit);
    out.append(number.as_str());
    out.append(ending);
}

/// The text that the host gave, or the word for one that it did not give.
fn text_or_unknown(text: &Option<String>) -> (shown: &str)
    ensures
        shown@ == or_unknown(*text),
{
    match text {
        Some(text) => text.as_str(),
        None => "Desconocido",
    }
}

/// Adds to `out` the place of a processor in the list, moved to the right in
/// a field of three characters.
fn push_right_aligned(out: &mut String, index: usize)
    ensures
        final(out)@ == old(out)@ + right_aligned(decimal(index as nat)),
{
    let number = to_decimal(index as u64);
    proof {
        crate::decimal::decimal_is_digits(index as nat);
    }
    let length = number.as_str().unicode_len();
    if length == 1 {
        out.append("  ");
    } else if length == 2 {
        out.append(" ");
    }
    out.append(number.as_str());
}

impl SystemMonitor {
    /// The report on one reading of the host, as text.
    pub fn obtener_info_completa(&self, lectura: &SystemReading) -> (info: String)
        ensures
            info@ == report(*lectura),
    {
        let mut info = String::new();
        info.append("=== INFORMACIÓN DEL SISTEMA ===\n");
        push_text_line(&mut info, "Sistema:         ", text_or_unknown(&lectura.name));
        push_text_line(&mut info, "Kernel:          ", text_or_unknown(&lectura.kernel_version));
        push_text_line(&mut info, "Sistema Op:      ", text_or_unknown(&lectura.os_version));
        push_text_line(&mut info, "Host:            ", text_or_unknown(&lectura.host_name));
        assert(info@ =~= system_section(*lectura));

        info.append("\n=== MEMORIA ===\n");
        push_amount_line(
            &mut info,
            "Total:           ",
            lectura.total_memory,
            BYTES_PER_MB,
            " MB\n",
        );
        push_amount_line(
            &mut info,
            "En uso:          ",
            lectura.used_memory,
            BYTES_PER_MB,
            " MB\n",
        );
        push_amount_line(&mut info, "Swap Total:      ", lectura.total_swap, BYTES_PER_MB, " MB\n");
        push_amount_line(&mut info, "Swap en uso:     ", lectura.used_swap, BYTES_PER_MB, " MB\n");
        assert(info@ =~= system_section(*lectura) + memory_section(*lectura));

        info.append("\n=== CPU ===\n");
        info.append("CPU | Uso % | MHz\n");
        info.append("-----------------\n");
        let ghost head = info@;
        let mut i: usize = 0;
        while i < lectura.cpus.len()
            invariant
                i <= lectura.cpus.len(),
                info@ == head + cpu_lines(lectura.cpus@.take(i as int)),
            decreases lectura.cpus.len() - i,
        {
            let ghost before = info@;
            let cpu = &lectura.cpus[i];
            push_right_aligned(&mut info, i);
            info.append(" | ");
            info.append(cpu.usage.as_str());
            info.append("  | ");
            let frequency = to_decimal(cpu.frequency);
            info.append(frequency.as_str());
            info.append("\n");
            proof {
                let shown = lectura.cpus@.take(i + 1);
                assert(shown.drop_last() == lectura.cpus@.take(i as int));
                assert(shown.last() == *cpu);
                assert(info@ =~= before + cpu_line(i as nat, *cpu));
                assert(info@ =~= head + cpu_lines(shown));
            }
            i += 1;
        }
        assert(lectura.cpus@.take(i as int) == lectura.cpus@);

        info.append("\n=== DISCOS ===\n");
        let ghost head = info@;
        let mut i: usize = 0;
        while i < lectura.disks.len()
            invariant
                i <= lectura.disks.len(),
                info@ == head + disk_blocks(lectura.disks@.take(i as int)),
            decreases lectura.disks.len() - i,
        {
            let ghost before = info@;
            let disk = &lectura.disks[i];
            if let Some(point) = &disk.mount_point {
                push_text_line(&mut info, "Montaje: ", point.as_str());
                push_amount_line(
                    &mut info,
                    "Total:       ",
                    disk.total_space,
                    BYTES_PER_GB,
                    " GB\n",
                );
                push_amount_line(
                    &mut info,
                    "Disponible:  ",
                    disk.available_space,
                    BYTES_PER_GB,
                    " GB\n",
                );
            }
            proof {
                let shown = lectura.disks@.take(i + 1);
                assert(shown.drop_last() == lectura.disks@.take(i as int));
                assert(shown.last() == *disk);
                assert(info@ =~= before + disk_block(*disk));
                assert(info@ =~= head + disk_blocks(shown));
            }
            i += 1;
        }
        assert(lectura.disks@.take(i as int) == lectura.disks@);

        info.append("\n=== RED ===\n");
        let ghost head = info@;
        let mut i: usize = 0;
        while i < lectura.networks.len()
            invariant
                i <= lectura.networks.len(),
                info@ == head + network_blocks(lectura.networks@.take(i as int)),
            decreases lectura.networks.len() - i,
        {
            let ghost before = info@;
            let network = &lectura.networks[i];
            push_text_line(&mut info, "Interfaz: ", network.name.as_str());
            push_amount_line(&mut info, "Recibido:     ", network.received, BYTES_PER_KB, " KB\n");
            push_amount_line(
                &mut info,
                "Enviado:      ",
                network.transmitted,
                BYTES_PER_KB,
                " KB\n",
            );
            proof {
                let shown = lectura.networks@.take(i + 1);
                assert(shown.drop_last() == lectura.networks@.take(i as int));
                assert(shown.last() == *network);
                assert(info@ =~= before + network_block(*network));
                assert(info@ =~= head + network_blocks(shown));
            }
            i += 1;
        }
        assert(lectura.networks@.take(i as int) == lectura.networks@);
        assert(info@ =~= report(*lectura));
        info
    }
}

} // verus!
