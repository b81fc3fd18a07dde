//! The current state of a process, as the table holds it.

use vstd::prelude::*;

verus! {

/// Stores process PID
#[derive(Debug, Default, Clone, Copy, PartialEq, Eq, PartialOrd, Ord, Hash)]
pub struct ProcessPid(u32);

impl ProcessPid {
    pub closed spec fn value(&self) -> u32 {
        self.0
    }

    pub fn new(pid: u32) -> (r: Self)
        ensures
            r.value() == pid,
    {
        ProcessPid(pid)
    }

    pub fn as_u32(&self) -> (r: u32)
        ensures
            r == self.value(),
    {
        self.0
    }

    pub fn as_u64(&self) -> (r: u64)
        ensures
            r == self.value(),
    {
        self.0 as u64
    }

    pub fn as_usize(&self) -> (r: usize)
        ensures
            r == self.value(),
    {
        self.0 as usize
    }
}

/// Stores process CPU usage as total, as the bit pattern of an `f32`.
#[derive(Debug, Default, Clone, Copy, PartialEq)]
pub struct ProcessCpuTotal(u32);

impl ProcessCpuTotal {
    pub closed spec fn value(&self) -> u32 {
        self.0
    }

    /// From the bits of the `f32` usage (`f32::to_bits`).
    pub fn new(cpu_bits: u32) -> (r: Self)
        ensures
            r.value() == cpu_bits,
    {
        ProcessCpuTotal(cpu_bits)
    }

    /// The bits of the `f32` usage (`f32::from_bits` gives it back).
    pub fn to_bits(&self) -> (r: u32)
        ensures
            r == self.value(),
    {
        self.0
    }
}

/// Stores process CPU usage as an average across all cores, as the bit
/// pattern of an `f32`.
#[derive(Debug, Default, Clone, Copy, PartialEq)]
pub struct ProcessCpuAverage(u32);

impl ProcessCpuAverage {
    pub closed spec fn value(&self) -> u32 {
        self.0
    }

    /// From the bits of the `f32` usage (`f32::to_bits`).
    pub fn new(cpu_bits: u32) -> (r: Self)
        ensures
            r.value() == cpu_bits,
    {
        ProcessCpuAverage(cpu_bits)
    }

    /// The bits of the `f32` usage (`f32::from_bits` gives it back).
    pub fn to_bits(&self) -> (r: u32)
        ensures
            r == self.value(),
    {
        self.0
    }
}

/// Stores process memory usage as bytes
#[derive(Debug, Default, Clone, Copy, PartialEq, Eq, PartialOrd, Ord)]
pub struct ProcessMemory(u64);

impl ProcessMemory {
    pub closed spec fn value(&self) -> u64 {
        self.0
    }

    pub fn new(memory: u64) -> (r: Self)
        ensures
            r.value() == memory,
    {
        ProcessMemory(memory)
    }

    pub fn as_bytes(&self) -> (r: u64)
        ensures
            r == self.value(),
    {
        self.as_u64()
    }

    pub fn as_kb(&self) -> (r: u64)
        ensures
            r == self.value() / 1024,
    {
        self.as_u64() / 1024
    }

    pub fn as_mb(&self) -> (r: u64)
        ensures
            r == self.value() / 1048576,
    {
        self.as_u64() / 1048576
    }

    pub fn as_gb(&self) -> (r: u64)
        ensures
            r == self.value() / 1073741824,
    {
        self.as_u64() / 1073741824
    }

    pub fn as_u64(&self) -> (r: u64)
        ensures
            r == self.value(),
    {
        self.0
    }
}

/// Stores process name as String
#[derive(Debug, Default, Clone, PartialEq, Eq, PartialOrd, Ord)]
pub struct ProcessName(String);

impl ProcessName {
    pub closed spec fn value(&self) -> Seq<char> {
        self.0@
    }

    pub fn new(name: String) -> (r: Self)
        ensures
            r.value() == name@,
    {
        ProcessName(name)
    }

    pub fn as_str(&self) -> (r: &str)
        ensures
            r@ == self.value(),
    {
        self.0.as_str()
    }
}

/// A process as plain values: CPU usages are `f32` bit patterns.
pub struct ProcessModel {
    pub pid: u32,
    pub cpu_total: u32,
    pub cpu_average: u32,
    pub mem: u64,
    pub name: Seq<char>,
}

/// Represents the current state of a process.
#[derive(Debug, Default, PartialEq)]
pub struct Process {
    pid: ProcessPid,
    cpu_tot: ProcessCpuTotal,
    cpu_avg: ProcessCpuAverage,
    mem: ProcessMemory,
    name: ProcessName,
}

impl View for Process {
    type V = ProcessModel;

    closed spec fn view(&self) -> ProcessModel {
        ProcessModel {
            pid: self.pid.value(),
            cpu_total: self.cpu_tot.value(),
            cpu_average: self.cpu_avg.value(),
            mem: self.mem.value(),
            name: self.name.value(),
        }
    }
}

impl Process {
    /// A process; the CPU usages are given as `f32` bit patterns.
    pub fn new(pid: u32, cpu_tot: u32, cpu_avg: u32, mem: u64, name: String) -> (r: Self)
        ensures
            r@ == (ProcessModel {
                pid: pid,
                cpu_total: cpu_tot,
                cpu_average: cpu_avg,
                mem: mem,
                name: name@,
            }),
    {
        Process {
            pid: ProcessPid(pid),
            cpu_tot: ProcessCpuTotal(cpu_tot),
            cpu_avg: ProcessCpuAverage(cpu_avg),
            mem: ProcessMemory(mem),
            name: ProcessName(name),
        }
    }

    pub fn pid(&self) -> (r: &ProcessPid)
        ensures
            r.value() == self@.pid,
    {
        &self.pid
    }

    pub fn cpu_total(&self) -> (r: &ProcessCpuTotal)
        ensures
            r.value() == self@.cpu_total,
    {
        &self.cpu_tot
    }

    pub fn cpu_average(&self) -> (r: &ProcessCpuAverage)
        ensures
            r.value() == self@.cpu_average,
    {
        &self.cpu_avg
    }

    pub fn mem(&self) -> (r: &ProcessMemory)
        ensures
            r.value() == self@.mem,
    {
        &self.mem
    }

    pub fn name(&self) -> (r: &ProcessName)
        ensures
            r.value() == self@.name,
    {
        &self.name
    }
}

} // verus!
