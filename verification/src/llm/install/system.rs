//! The requirements that a system has to meet, the reading of what the
//! system reports about itself, and the check of one against the other.

use crate::llm::install::{InstallError, InstallResult};
use crate::scan::{
    decimal_text, has_prefix, lines, parse_u64, parsed_u64, split_lines, starts_with,
    u64_to_string,
};
use crate::shell::executor::{slice_views, Invocation, ProcessOutput};
use crate::text::{lossy_text, split_whitespace, tokens, trim, trimmed, utf8_lossy, views};
use vstd::prelude::*;

verus! {

/// Kilobytes in a gigabyte.
pub const KB_PER_GB: u64 = 1048576;

/// Bytes in a gigabyte.
pub const BYTES_PER_GB: u64 = 1073741824;

/// System requirements for running Ollama and the model.
#[derive(Debug, Clone)]
pub struct SystemRequirements {
    pub min_memory_gb: u64,
    pub min_disk_space_gb: u64,
    pub supported_architectures: Vec<String>,
    pub supported_platforms: Vec<String>,
}

/// The requirements as plain values.
pub struct RequirementsView {
    pub min_memory_gb: u64,
    pub min_disk_space_gb: u64,
    pub supported_architectures: Seq<Seq<char>>,
    pub supported_platforms: Seq<Seq<char>>,
}

impl View for SystemRequirements {
    type V = RequirementsView;

    open spec fn view(&self) -> RequirementsView {
        RequirementsView {
            min_memory_gb: self.min_memory_gb,
            min_disk_space_gb: self.min_disk_space_gb,
            supported_architectures: views(self.supported_architectures@),
            supported_platforms: views(self.supported_platforms@),
        }
    }
}

/// The requirements of the default model: 4 GB of memory, 3 GB of disk
/// space, a 64-bit x86 or ARM processor, macOS or Linux.
pub open spec fn default_requirements() -> RequirementsView {
    RequirementsView {
        min_memory_gb: 4,
        min_disk_space_gb: 3,
        supported_architectures: seq!["x86_64"@, "aarch64"@, "arm64"@],
        supported_platforms: seq!["darwin"@, "linux"@],
    }
}

impl Default for SystemRequirements {
    fn default() -> (r: Self)
        ensures
            r@ == default_requirements(),
    {
        let mut supported_architectures: Vec<String> = Vec::new();
        supported_architectures.push(String::from_str("x86_64"));
        supported_architectures.push(String::from_str("aarch64"));
        supported_architectures.push(String::from_str("arm64"));
        let mut supported_platforms: Vec<String> = Vec::new();
        supported_platforms.push(String::from_str("darwin"));
        supported_platforms.push(String::from_str("linux"));
        proof {
            assert(views(supported_architectures@) =~= seq!["x86_64"@, "aarch64"@, "arm64"@]);
            assert(views(supported_platforms@) =~= seq!["darwin"@, "linux"@]);
        }
        Self {
            min_memory_gb: 4,
            min_disk_space_gb: 3,
            supported_architectures,
            supported_platforms,
        }
    }
}

/// What was found out about the system, each fact by whoever could look.
#[derive(Debug, Clone)]
pub struct SystemFacts {
    /// The name of the operating system.
    pub platform: String,
    /// The name of the processor architecture.
    pub architecture: String,
    /// The memory of the machine in GB, if it could be determined.
    pub memory_gb: Option<u64>,
    /// For each directory that was looked at, the free space in bytes if it
    /// could be determined.
    pub available_bytes: Vec<Option<u64>>,
    /// For each network probe that ran, whether it succeeded.
    pub probes: Vec<bool>,
}

/// The size in kilobytes that a line of the memory report gives as the
/// total: the second field of a line that begins with `MemTotal:`.
pub open spec fn memtotal_of(line: Seq<char>) -> Option<u64> {
    if starts_with(line, "MemTotal:"@) && tokens(line).len() >= 2 {
        parsed_u64(tokens(line)[1])
    } else {
        None
    }
}

/// The total of the first of `rows` that gives one.
pub open spec fn first_memtotal(rows: Seq<Seq<char>>) -> Option<u64>
    decreases rows.len(),
{
    if rows.len() == 0 {
        None
    } else if memtotal_of(rows[0]) is Some {
        memtotal_of(rows[0])
    } else {
        first_memtotal(rows.drop_first())
    }
}

/// `amount` in units of `unit`, rounded down, if there is an amount.
pub open spec fn in_units(amount: Option<u64>, unit: u64) -> Option<u64> {
    match amount {
        Some(value) => Some(value / unit),
        None => None,
    }
}

/// The free space that a report of `df` gives: the fourth field of its
/// second line.
pub open spec fn df_available(report: Seq<char>) -> Option<u64> {
    let rows = lines(report);
    if rows.len() >= 2 && tokens(rows[1]).len() >= 4 {
        parsed_u64(tokens(rows[1])[3])
    } else {
        None
    }
}

/// `blocks` blocks of `block_size` bytes in bytes, if that fits.
pub open spec fn in_bytes(blocks: Option<u64>, block_size: u64) -> Option<u64> {
    match blocks {
        Some(count) => if count * block_size <= u64::MAX {
            Some((count * block_size) as u64)
        } else {
            None
        },
        None => None,
    }
}

/// The free space in bytes that a finished `df` reports in blocks of
/// `block_size` bytes, if it succeeded and its report can be read.
pub open spec fn reported_space(output: ProcessOutput, block_size: u64) -> Option<u64> {
    if output.success {
        in_bytes(df_available(lossy_text(output.stdout@)), block_size)
    } else {
        None
    }
}

/// The memory size in bytes that a finished `sysctl` reports, if it
/// succeeded and printed a number.
pub open spec fn reported_memory(output: ProcessOutput) -> Option<u64> {
    if output.success {
        parsed_u64(trimmed(lossy_text(output.stdout@)))
    } else {
        None
    }
}

/// The first of `readings` that is known.
pub open spec fn first_known(readings: Seq<Option<u64>>) -> Option<u64>
    decreases readings.len(),
{
    if readings.len() == 0 {
        None
    } else if readings[0] is Some {
        readings[0]
    } else {
        first_known(readings.drop_first())
    }
}

/// The lines of the system information.
pub open spec fn system_info_text(
    platform: Seq<char>,
    architecture: Seq<char>,
    memory_gb: Option<u64>,
    disk_gb: Option<u64>,
) -> Seq<char> {
    "Platform: "@ + platform + "\n"@ + "Architecture: "@ + architecture + "\n"@ + (match memory_gb {
        Some(gb) => "Memory: "@ + decimal_text(gb as nat) + "GB\n"@,
        None => Seq::empty(),
    }) + (match disk_gb {
        Some(gb) => "Available disk space: "@ + decimal_text(gb as nat) + "GB\n"@,
        None => Seq::empty(),
    })
}

/// `error` is a `SystemCheck` error whose detail reads `detail`.
pub open spec fn is_system_check(error: InstallError, detail: Seq<char>) -> bool {
    error matches InstallError::SystemCheck(m) && m@ == detail
}

/// The memory in GB that the contents of `/proc/meminfo` give.
pub fn memory_gb_from_meminfo(content: &str) -> (r: Option<u64>)
    ensures
        r == in_units(first_memtotal(lines(content@)), KB_PER_GB),
{
    let rows = split_lines(content);
    let mut i: usize = 0;
    assert(views(rows@).skip(0) =~= views(rows@));
    while i < rows.len()
        invariant
            i <= rows.len(),
            views(rows@) == lines(content@),
            first_memtotal(views(rows@).skip(i as int)) == first_memtotal(lines(content@)),
        decreases rows.len() - i,
    {
        let line = rows[i].as_str();
        proof {
            let rest = views(rows@).skip(i as int);
            assert(rest[0] == line@);
            assert(rest.drop_first() =~= views(rows@).skip(i + 1));
        }
        if has_prefix(line, "MemTotal:") {
            let fields = split_whitespace(line);
            if fields.len() >= 2 {
                match parse_u64(fields[1].as_str()) {
                    Some(kb) => {
                        return Some(kb / KB_PER_GB);
                    },
                    None => {},
                }
            }
        }
        i = i + 1;
    }
    None
}

/// The command that prints the memory size in bytes on macOS.
pub fn memory_command() -> (invocation: Invocation)
    ensures
        invocation.runs("sysctl"@, seq!["-n"@, "hw.memsize"@]),
{
    let args = vec!["-n", "hw.memsize"];
    proof {
        assert(slice_views(args@) =~= seq!["-n"@, "hw.memsize"@]);
    }
    Invocation::new("sysctl", &args)
}

/// The memory in GB that `sysctl` gave. That the command could not be
/// started is an error; a report that cannot be read leaves the memory
/// unknown.
pub fn memory_gb_from_sysctl(outcome: Result<ProcessOutput, String>) -> (r: InstallResult<
    Option<u64>,
>)
    ensures
        match outcome {
            Ok(output) => r == Ok::<Option<u64>, InstallError>(
                in_units(reported_memory(output), BYTES_PER_GB),
            ),
            Err(reason) => r matches Err(e) && is_system_check(
                e,
                "Failed to get memory info: "@ + reason@,
            ),
        },
{
    match outcome {
        Ok(output) => {
            if !output.success {
                return Ok(None);
            }
            let report = utf8_lossy(&output.stdout);
            match parse_u64(trim(report.as_str())) {
                Some(bytes) => Ok(Some(bytes / BYTES_PER_GB)),
                None => Ok(None),
            }
        },
        Err(reason) => Err(
            InstallError::SystemCheck(
                String::from_str("Failed to get memory info: ").concat(reason.as_str()),
            ),
        ),
    }
}

/// The command that reports the free space of `path`, in blocks of 1024
/// bytes if `kilobytes` is set and in bytes otherwise.
pub fn df_command(path: &str, kilobytes: bool) -> (invocation: Invocation)
    ensures
        invocation.runs(
            "df"@,
            seq![
                if kilobytes {
                    "-k"@
                } else {
                    "-B1"@
                },
                path@,
            ],
        ),
{
    let unit = if kilobytes {
        "-k"
    } else {
        "-B1"
    };
    let args = vec![unit, path];
    proof {
        assert(slice_views(args@) =~= seq![unit@, path@]);
    }
    Invocation::new("df", &args)
}

/// The directories whose free space decides the disk check.
pub fn disk_check_paths() -> (paths: Vec<&'static str>)
    ensures
        slice_views(paths@) == seq!["/usr/local"@, "/opt/homebrew"@, "/opt"@, "/tmp"@],
{
    let paths = vec!["/usr/local", "/opt/homebrew", "/opt", "/tmp"];
    proof {
        assert(slice_views(paths@) =~= seq!["/usr/local"@, "/opt/homebrew"@, "/opt"@, "/tmp"@]);
    }
    paths
}

/// The directories whose free space is shown in the system information.
pub fn disk_info_paths() -> (paths: Vec<&'static str>)
    ensures
        slice_views(paths@) == seq!["/usr/local"@, "/opt/homebrew"@, "/opt"@],
{
    let paths = vec!["/usr/local", "/opt/homebrew", "/opt"];
    proof {
        assert(slice_views(paths@) =~= seq!["/usr/local"@, "/opt/homebrew"@, "/opt"@]);
    }
    paths
}

/// The commands that probe the network, in the order in which they are
/// tried until one succeeds.
pub fn network_probes() -> (probes: Vec<Invocation>)
    ensures
        probes@.len() == 4,
        probes@[0].runs("ping"@, seq!["-c"@, "1"@, "-W"@, "5"@, "8.8.8.8"@]),
        probes@[1].runs("ping"@, seq!["-c"@, "1"@, "-W"@, "5"@, "1.1.1.1"@]),
        probes@[2].runs("ping"@, seq!["-c"@, "1"@, "-W"@, "5"@, "ollama.ai"@]),
        probes@[3].runs("curl"@, seq!["-s"@, "--max-time"@, "5"@, "https://ollama.ai"@]),
{
    let mut probes: Vec<Invocation> = Vec::new();
    let first = vec!["-c", "1", "-W", "5", "8.8.8.8"];
    let second = vec!["-c", "1", "-W", "5", "1.1.1.1"];
    let third = vec!["-c", "1", "-W", "5", "ollama.ai"];
    let last = vec!["-s", "--max-time", "5", "https://ollama.ai"];
    proof {
        assert(slice_views(first@) =~= seq!["-c"@, "1"@, "-W"@, "5"@, "8.8.8.8"@]);
        assert(slice_views(second@) =~= seq!["-c"@, "1"@, "-W"@, "5"@, "1.1.1.1"@]);
        assert(slice_views(third@) =~= seq!["-c"@, "1"@, "-W"@, "5"@, "ollama.ai"@]);
        assert(slice_views(last@) =~= seq!["-s"@, "--max-time"@, "5"@, "https://ollama.ai"@]);
    }
    probes.push(Invocation::new("ping", &first));
    probes.push(Invocation::new("ping", &second));
    probes.push(Invocation::new("ping", &third));
    probes.push(Invocation::new("curl", &last));
    probes
}

/// Whether `name` is one of `names`.
pub fn is_listed(names: &Vec<String>, name: &str) -> (b: bool)
    ensures
        b == views(names@).contains(name@),
{
    let wanted = String::from_str(name);
    let mut i: usize = 0;
    while i < names.len()
        invariant
            i <= names.len(),
            wanted@ == name@,
            forall|j: int| 0 <= j < i ==> views(names@)[j] != name@,
        decreases names.len() - i,
    {
        if names[i] == wanted {
            assert(views(names@)[i as int] == name@);
            return true;
        }
        i = i + 1;
    }
    false
}

/// System checker that validates requirements.
pub struct SystemChecker {
    requirements: SystemRequirements,
}

impl SystemChecker {
    /// The requirements that are checked.
    pub closed spec fn requirements(&self) -> RequirementsView {
        self.requirements@
    }

    /// Whether a system named `platform` is supported.
    pub open spec fn supports_platform(&self, platform: Seq<char>) -> bool {
        self.requirements().supported_platforms.contains(platform)
    }

    /// Whether a processor named `architecture` is supported.
    pub open spec fn supports_architecture(&self, architecture: Seq<char>) -> bool {
        self.requirements().supported_architectures.contains(architecture)
    }

    /// Whether the memory suffices. A memory that could not be determined
    /// counts as sufficient.
    pub open spec fn memory_suffices(&self, memory_gb: Option<u64>) -> bool {
        match memory_gb {
            Some(gb) => gb >= self.requirements().min_memory_gb,
            None => true,
        }
    }

    /// Whether a system with these facts meets all requirements. The disk
    /// space is never held against it.
    pub open spec fn meets_requirements(&self, facts: SystemFacts) -> bool {
        &&& self.supports_platform(facts.platform@)
        &&& self.supports_architecture(facts.architecture@)
        &&& self.memory_suffices(facts.memory_gb)
        &&& facts.probes@.contains(true)
    }

    /// Create a new system checker with the default requirements.
    pub fn new() -> (s: Self)
        ensures
            s.requirements() == default_requirements(),
    {
        Self { requirements: SystemRequirements::default() }
    }

    /// Create a system checker with custom requirements.
    pub fn with_requirements(requirements: SystemRequirements) -> (s: Self)
        ensures
            s.requirements() == requirements@,
    {
        Self { requirements }
    }

    /// The requirements that are checked.
    pub fn get_requirements(&self) -> (r: &SystemRequirements)
        ensures
            r@ == self.requirements(),
    {
        &self.requirements
    }

    /// Check if the system meets all requirements.
    pub fn check_requirements(&self, facts: &SystemFacts) -> (r: InstallResult<bool>)
        ensures
            r == Ok::<bool, InstallError>(self.meets_requirements(*facts)),
    {
        let platform = is_listed(&self.requirements.supported_platforms, facts.platform.as_str());
        let architecture = is_listed(
            &self.requirements.supported_architectures,
            facts.architecture.as_str(),
        );
        let memory = match facts.memory_gb {
            Some(gb) => gb >= self.requirements.min_memory_gb,
            None => true,
        };
        let network = any_succeeded(&facts.probes);
        Ok(platform && architecture && memory && network)
    }

    /// Check if the platform is supported.
    pub fn check_platform(&self, platform: &str) -> (r: InstallResult<bool>)
        ensures
            r == Ok::<bool, InstallError>(self.supports_platform(platform@)),
    {
        Ok(is_listed(&self.requirements.supported_platforms, platform))
    }

    /// Check if the architecture is supported.
    pub fn check_architecture(&self, architecture: &str) -> (r: InstallResult<bool>)
        ensures
            r == Ok::<bool, InstallError>(self.supports_architecture(architecture@)),
    {
        Ok(is_listed(&self.requirements.supported_architectures, architecture))
    }

    /// Check available memory.
    pub fn check_memory(&self, memory_gb: Option<u64>) -> (r: InstallResult<bool>)
        ensures
            r == Ok::<bool, InstallError>(self.memory_suffices(memory_gb)),
    {
        match memory_gb {
            Some(gb) => Ok(gb >= self.requirements.min_memory_gb),
            None => Ok(true),
        }
    }

    /// Check available disk space. Space that is short or unknown is not
    /// held against the system: the check always passes.
    pub fn check_disk_space(&self, available_bytes: &Vec<Option<u64>>) -> (r: InstallResult<bool>)
        ensures
            r == Ok::<bool, InstallError>(true),
    {
        Ok(true)
    }

    /// Get available disk space for a path from what `df` gave for it, in
    /// blocks of `block_size` bytes.
    pub fn get_available_space(
        &self,
        outcome: Result<ProcessOutput, String>,
        block_size: u64,
    ) -> (r: InstallResult<u64>)
        ensures
            match outcome {
                Ok(output) => match reported_space(output, block_size) {
                    Some(bytes) => r == Ok::<u64, InstallError>(bytes),
                    None => r matches Err(e) && is_system_check(
                        e,
                        "Could not determine available disk space"@,
                    ),
                },
                Err(reason) => r matches Err(e) && is_system_check(
                    e,
                    "Failed to get disk space: "@ + reason@,
                ),
            },
    {
        match outcome {
            Ok(output) => {
                if output.success {
                    let report = utf8_lossy(&output.stdout);
                    let rows = split_lines(report.as_str());
                    if rows.len() >= 2 {
                        let fields = split_whitespace(rows[1].as_str());
                        if fields.len() >= 4 {
                            match parse_u64(fields[3].as_str()) {
                                Some(blocks) => match blocks.checked_mul(block_size) {
                                    Some(bytes) => {
                                        return Ok(bytes);
                                    },
                                    None => {},
                                },
                                None => {},
                            }
                        }
                    }
                }
                Err(
                    InstallError::SystemCheck(
                        String::from_str("Could not determine available disk space"),
                    ),
                )
            },
            Err(reason) => Err(
                InstallError::SystemCheck(
                    String::from_str("Failed to get disk space: ").concat(reason.as_str()),
                ),
            ),
        }
    }

    /// Check network connectivity: whether any of the probes succeeded.
    pub fn check_network(&self, probes: &Vec<bool>) -> (r: InstallResult<bool>)
        ensures
            r == Ok::<bool, InstallError>(probes@.contains(true)),
    {
        Ok(any_succeeded(probes))
    }

    /// Get system information.
    pub fn get_system_info(&self, facts: &SystemFacts) -> (r: InstallResult<String>)
        ensures
            r matches Ok(info) && info@ == system_info_text(
                facts.platform@,
                facts.architecture@,
                facts.memory_gb,
                in_units(first_known(facts.available_bytes@), BYTES_PER_GB),
            ),
    {
        let mut info = String::from_str("Platform: ");
        info.append(facts.platform.as_str());
        info.append("\n");
        info.append("Architecture: ");
        info.append(facts.architecture.as_str());
        info.append("\n");
        let ghost head = info@;
        match facts.memory_gb {
            Some(gb) => {
                info.append("Memory: ");
                info.append(u64_to_string(gb).as_str());
                info.append("GB\n");
                proof {
                    assert(info@ =~= head + ("Memory: "@ + decimal_text(gb as nat) + "GB\n"@));
                }
            },
            None => {
                proof {
                    assert(info@ =~= head + Seq::<char>::empty());
                }
            },
        }
        let ghost middle = info@;
        match self.get_disk_gb(&facts.available_bytes) {
            Ok(gb) => {
                info.append("Available disk space: ");
                info.append(u64_to_string(gb).as_str());
                info.append("GB\n");
                proof {
                    assert(info@ =~= middle + ("Available disk space: "@ + decimal_text(gb as nat)
                        + "GB\n"@));
                }
            },
            Err(_) => {
                proof {
                    assert(info@ =~= middle + Seq::<char>::empty());
                }
            },
        }
        Ok(info)
    }

    /// Get memory in GB.
    pub fn get_memory_gb(&self, memory_gb: Option<u64>) -> (r: InstallResult<u64>)
        ensures
            match memory_gb {
                Some(gb) => r == Ok::<u64, InstallError>(gb),
                None => r matches Err(e) && is_system_check(e, "Could not determine memory size"@),
            },
    {
        match memory_gb {
            Some(gb) => Ok(gb),
            None => Err(InstallError::SystemCheck(String::from_str("Could not determine memory size"))),
        }
    }

    /// Get available disk space in GB: that of the first directory whose
    /// free space is known.
    pub fn get_disk_gb(&self, available_bytes: &Vec<Option<u64>>) -> (r: InstallResult<u64>)
        ensures
            match first_known(available_bytes@) {
                Some(bytes) => r == Ok::<u64, InstallError>(bytes / BYTES_PER_GB),
                None => r matches Err(e) && is_system_check(e, "Could not determine disk space"@),
            },
    {
        let mut i: usize = 0;
        assert(available_bytes@.skip(0) =~= available_bytes@);
        while i < available_bytes.len()
            invariant
                i <= available_bytes.len(),
                first_known(available_bytes@.skip(i as int)) == first_known(available_bytes@),
            decreases available_bytes.len() - i,
        {
            proof {
                let rest = available_bytes@.skip(i as int);
                assert(rest[0] == available_bytes@[i as int]);
                assert(rest.drop_first() =~= available_bytes@.skip(i + 1));
            }
            match available_bytes[i] {
                Some(bytes) => {
                    return Ok(bytes / BYTES_PER_GB);
                },
                None => {},
            }
            i = i + 1;
        }
        Err(InstallError::SystemCheck(String::from_str("Could not determine disk space")))
    }
}

/// Whether any of `probes` succeeded.
pub fn any_succeeded(probes: &Vec<bool>) -> (b: bool)
    ensures
        b == probes@.contains(true),
{
    let mut i: usize = 0;
    while i < probes.len()
        invariant
            i <= probes.len(),
            forall|j: int| 0 <= j < i ==> !probes@[j],
        decreases probes.len() - i,
    {
        if probes[i] {
            return true;
        }
        i = i + 1;
    }
    false
}

impl Default for SystemChecker {
    fn default() -> (s: Self)
        ensures
            s.requirements() == default_requirements(),
    {
        Self::new()
    }
}

} // verus!
