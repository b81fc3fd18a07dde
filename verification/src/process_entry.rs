//! A process entry of the table: its id, CPU usage, memory and name, and
//! the order of two entries under a sort.

use vstd::prelude::*;
use std::cmp::Ordering;
use crate::column::ColumnOptions;
use crate::process::{Process, ProcessMemory, ProcessModel, ProcessName, ProcessPid};
use crate::row_order::{process_order, row_order};
use crate::sort::{RowSort, Sort};

verus! {

/// A CPU usage, as the bit pattern of an `f32`.
#[derive(Debug, Default, Clone, Copy, PartialEq, Eq, Structural)]
pub struct ProcessCpu(u32);

impl ProcessCpu {
    pub closed spec fn value(&self) -> u32 {
        self.0
    }

    pub fn new(cpu_bits: u32) -> (r: Self)
        ensures
            r.value() == cpu_bits,
    {
        ProcessCpu(cpu_bits)
    }

    /// The bit pattern of the usage.
    pub fn to_bits(&self) -> (r: u32)
        ensures
            r == self.value(),
    {
        self.0
    }
}

/// A process: id, CPU usage, memory and name.
#[derive(Debug, Default)]
pub struct ProcessEntry {
    pid: ProcessPid,
    cpu: ProcessCpu,
    mem: ProcessMemory,
    name: ProcessName,
}

/// A cell of an entry.
pub enum Cell<'a> {
    Pid(&'a ProcessPid),
    Cpu(&'a ProcessCpu),
    Memory(&'a ProcessMemory),
    Name(&'a ProcessName),
}

/// The table sort that an entry sort is.
pub open spec fn row_sort_of(s: Sort) -> RowSort {
    match s {
        Sort::PidDec => RowSort::PidDec,
        Sort::PidInc => RowSort::PidInc,
        Sort::CpuDec => RowSort::CpuDec,
        Sort::CpuInc => RowSort::CpuInc,
        Sort::MemDec => RowSort::MemDec,
        Sort::MemInc => RowSort::MemInc,
        Sort::NameDec => RowSort::NameDec,
        Sort::NameInc => RowSort::NameInc,
    }
}

fn row_sort_for(s: &Sort) -> (r: RowSort)
    ensures
        r == row_sort_of(*s),
{
    match s {
        Sort::PidDec => RowSort::PidDec,
        Sort::PidInc => RowSort::PidInc,
        Sort::CpuDec => RowSort::CpuDec,
        Sort::CpuInc => RowSort::CpuInc,
        Sort::MemDec => RowSort::MemDec,
        Sort::MemInc => RowSort::MemInc,
        Sort::NameDec => RowSort::NameDec,
        Sort::NameInc => RowSort::NameInc,
    }
}

impl ProcessEntry {
    /// The entry as a process; its CPU usage is both total and average.
    pub closed spec fn model(&self) -> ProcessModel {
        ProcessModel {
            pid: self.pid.value(),
            cpu_total: self.cpu.value(),
            cpu_average: self.cpu.value(),
            mem: self.mem.value(),
            name: self.name.value(),
        }
    }

    /// An entry; the CPU usage is given as an `f32` bit pattern.
    pub fn new(pid: u32, cpu: u32, mem: u64, name: String) -> (r: Self)
        ensures
            r.model() == (ProcessModel {
                pid: pid,
                cpu_total: cpu,
                cpu_average: cpu,
                mem: mem,
                name: name@,
            }),
    {
        ProcessEntry {
            pid: ProcessPid::new(pid),
            cpu: ProcessCpu::new(cpu),
            mem: ProcessMemory::new(mem),
            name: ProcessName::new(name),
        }
    }

    /// The cell that `column` shows: the entry's own id, memory, name or
    /// CPU usage.
    pub fn cell(&self, column: ColumnOptions) -> (r: Cell<'_>)
        ensures
            match column {
                ColumnOptions::Pid => (r matches Cell::Pid(p) && p.value() == self.model().pid),
                ColumnOptions::Memory(_) => (r matches Cell::Memory(m) && m.value() == self.model().mem),
                ColumnOptions::Name => (r matches Cell::Name(n) && n.value() == self.model().name),
                _ => (r matches Cell::Cpu(c) && c.value() == self.model().cpu_total),
            },
    {
        match column {
            ColumnOptions::Pid => Cell::Pid(&self.pid),
            ColumnOptions::Memory(_) => Cell::Memory(&self.mem),
            ColumnOptions::Name => Cell::Name(&self.name),
            _ => Cell::Cpu(&self.cpu),
        }
    }

    /// The order of two entries under `sort`; unordered CPU usages (a NaN)
    /// count as equal.
    pub fn cmp(&self, other: &Self, sort: &Sort) -> (r: Ordering)
        ensures
            r == row_order(row_sort_of(*sort), self.model(), other.model()),
    {
        let a = Process::new(self.pid.as_u32(), self.cpu.to_bits(), self.cpu.to_bits(), self.mem.as_u64(), crate::text::string_of(self.name.as_str()));
        let b = Process::new(other.pid.as_u32(), other.cpu.to_bits(), other.cpu.to_bits(), other.mem.as_u64(), crate::text::string_of(other.name.as_str()));
        process_order(&a, &b, &row_sort_for(sort))
    }

    pub fn pid(&self) -> (r: &ProcessPid)
        ensures
            r.value() == self.model().pid,
    {
        &self.pid
    }

    pub fn cpu(&self) -> (r: &ProcessCpu)
        ensures
            r.value() == self.model().cpu_total,
    {
        &self.cpu
    }

    pub fn mem(&self) -> (r: &ProcessMemory)
        ensures
            r.value() == self.model().mem,
    {
        &self.mem
    }

    pub fn name(&self) -> (r: &ProcessName)
        ensures
            r.value() == self.model().name,
    {
        &self.name
    }
}

} // verus!
