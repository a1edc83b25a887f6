//! Settings: refresh cadences, colors, display and export options, with
//! their defaults.
use vstd::prelude::*;
use vstd::string::*;

verus! {

/// Refresh cadences in milliseconds.
#[derive(Debug, Clone, Copy, PartialEq, Eq, Structural)]
pub struct RefreshRates {
    pub cpu: u64,
    pub memory: u64,
    pub network: u64,
    pub disk: u64,
    pub process: u64,
    pub temp: u64,
}

#[derive(Debug, Clone)]
pub struct ColorConfig {
    pub theme: String,
    pub enable_colors: bool,
}

#[derive(Debug, Clone, Copy, PartialEq, Eq, Structural)]
pub struct DisplayConfig {
    pub show_temperature: bool,
    pub show_network: bool,
    pub show_disk: bool,
    pub max_processes: usize,
    pub show_kernel_processes: bool,
    pub show_self: bool,
}

#[derive(Debug, Clone)]
pub struct ExportConfig {
    pub enable_logging: bool,
    pub log_path: Option<String>,
    pub log_interval: u64,
}

pub fn default_cpu_refresh() -> (r: u64)
    ensures
        r == 1000,
{
    1000
}

pub fn default_memory_refresh() -> (r: u64)
    ensures
        r == 1000,
{
    1000
}

pub fn default_network_refresh() -> (r: u64)
    ensures
        r == 1000,
{
    1000
}

pub fn default_disk_refresh() -> (r: u64)
    ensures
        r == 2000,
{
    2000
}

pub fn default_process_refresh() -> (r: u64)
    ensures
        r == 2000,
{
    2000
}

pub fn default_temp_refresh() -> (r: u64)
    ensures
        r == 1000,
{
    1000
}

pub fn default_theme() -> (r: String)
    ensures
        r@ == "cyan"@,
{
    String::from_str("cyan")
}

pub fn default_true() -> (r: bool)
    ensures
        r,
{
    true
}

pub fn default_false() -> (r: bool)
    ensures
        !r,
{
    false
}

pub fn default_max_processes() -> (r: usize)
    ensures
        r == 20,
{
    20
}

pub fn default_log_interval() -> (r: u64)
    ensures
        r == 5000,
{
    5000
}

impl Default for RefreshRates {
    fn default() -> (r: Self)
        ensures
            r == (RefreshRates { cpu: 1000, memory: 1000, network: 1000, disk: 2000, process: 2000, temp: 1000 }),
    {
        RefreshRates {
            cpu: default_cpu_refresh(),
            memory: default_memory_refresh(),
            network: default_network_refresh(),
            disk: default_disk_refresh(),
            process: default_process_refresh(),
            temp: default_temp_refresh(),
        }
    }
}

impl RefreshRates {
    /// In minimal mode the cpu and memory cadences slow to 2 s and the disk
    /// and process cadences to 5 s; otherwise nothing changes.
    pub fn set_minimal_mode(&mut self, minimal: bool)
        ensures
            minimal ==> *final(self) == (RefreshRates {
                cpu: 2000,
                memory: 2000,
                disk: 5000,
                process: 5000,
                ..*old(self)
            }),
            !minimal ==> *final(self) == *old(self),
    {
        if minimal {
            self.cpu = 2000;
            self.memory = 2000;
            self.disk = 5000;
            self.process = 5000;
        }
    }
}

impl Default for ColorConfig {
    fn default() -> (r: Self)
        ensures
            r.theme@ == "cyan"@,
            r.enable_colors,
    {
        ColorConfig { theme: default_theme(), enable_colors: default_true() }
    }
}

impl Default for DisplayConfig {
    fn default() -> (r: Self)
        ensures
            r == (DisplayConfig {
                show_temperature: true,
                show_network: true,
                show_disk: true,
                max_processes: 20,
                show_kernel_processes: false,
                show_self: true,
            }),
    {
        DisplayConfig {
            show_temperature: default_true(),
            show_network: default_true(),
            show_disk: default_true(),
            max_processes: default_max_processes(),
            show_kernel_processes: default_false(),
            show_self: default_true(),
        }
    }
}

impl Default for ExportConfig {
    fn default() -> (r: Self)
        ensures
            !r.enable_logging,
            r.log_path is None,
            r.log_interval == 5000,
    {
        ExportConfig { enable_logging: default_false(), log_path: None, log_interval: default_log_interval() }
    }
}

} // verus!
