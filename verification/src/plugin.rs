//! Processes behind a function table: a process of any kind is driven
//! through four entries that answer with a status code, as a process that
//! lives in a loaded library is.
use vstd::prelude::*;
use std::sync::Arc;
use libloading::Library;
use crate::architecture::Architecture;
use crate::error::Error;

verus! {

/// `libloading::Library`, the handle of a loaded dynamic library. Nothing
/// is stated of it: a handle is held and handed on, never looked into.
#[verifier::external_type_specification]
#[verifier::external_body]
pub struct ExLibrary(Library);

/// The status code of an entry that succeeded.
pub const STATUS_OK: i32 = 0;

/// The status code of an entry that failed.
pub const STATUS_FAILED: i32 = -1;

/// A module of a process.
#[derive(Debug, PartialEq, Eq)]
pub struct ModuleInfo {
    /// The address of the structure that describes the module.
    pub address: u64,
    /// The base of the module's image.
    pub base: u64,
    /// The size of the module's image.
    pub size: u64,
    pub name: String,
}

/// What is known of a process without reading its memory.
#[derive(Debug, PartialEq, Eq)]
pub struct ProcessInfo {
    /// The address of the process-control-block.
    pub address: u64,
    pub pid: u64,
    pub name: String,
    /// The architecture of the system.
    pub sys_arch: Architecture,
    /// The architecture that the process runs as.
    pub proc_arch: Architecture,
}

/// A process of the target, of whatever kind.
///
/// Beside each method stands a relation that says which answers the
/// process may give to a call, and what the call may leave behind. A
/// process states of its answers what it can by giving the relation a
/// body; one that states nothing leaves it as it is, and any answer may
/// come. What is built on a process says of its own answers which answer
/// of that process they come from.
pub trait Process: Sized {
    type VirtualMemoryType;

    /// Whether the process may lend its virtual memory as `lent`, and be
    /// `after` once the memory has come back as `returned`.
    open spec fn lends_memory(
        &self,
        lent: Self::VirtualMemoryType,
        returned: Self::VirtualMemoryType,
        after: Self,
    ) -> bool {
        true
    }

    /// The virtual memory of the process.
    fn virt_mem(&mut self) -> (r: &mut Self::VirtualMemoryType)
        ensures
            old(self).lends_memory(*r, *final(r), *final(self)),
    ;

    /// Whether the process may answer `answer` to a request for the
    /// addresses of its modules, turn what `callback` held from `before`
    /// into `collected`, and be `after`.
    open spec fn lists_modules(
        &self,
        target_arch: Option<Architecture>,
        before: Seq<u64>,
        answer: Result<(), Error>,
        collected: Seq<u64>,
        after: Self,
    ) -> bool {
        true
    }

    /// Hands the address of each module of the process to `callback`:
    /// of every module, or of those of `target_arch`.
    fn module_address_list_callback(
        &mut self,
        target_arch: Option<Architecture>,
        callback: &mut Vec<u64>,
    ) -> (r: Result<(), Error>)
        ensures
            old(self).lists_modules(target_arch, old(callback)@, r, final(callback)@, *final(self)),
    ;

    /// Whether the process may answer `answer` to a request for the module
    /// at `address`, and be `after`.
    open spec fn finds_module(
        &self,
        address: u64,
        architecture: Architecture,
        answer: Result<ModuleInfo, Error>,
        after: Self,
    ) -> bool {
        true
    }

    /// The module whose describing structure is at `address`.
    fn module_by_address(&mut self, address: u64, architecture: Architecture) -> (r: Result<
        ModuleInfo,
        Error,
    >)
        ensures
            old(self).finds_module(address, architecture, r, *final(self)),
    ;

    /// Whether the process may answer `answer` to a request for the
    /// address of its primary module, and be `after`.
    open spec fn finds_primary_module(&self, answer: Result<u64, Error>, after: Self) -> bool {
        true
    }

    /// The address of the module that the process was started from.
    fn primary_module_address(&mut self) -> (r: Result<u64, Error>)
        ensures
            old(self).finds_primary_module(r, *final(self)),
    ;

    /// Whether `info` is what the process says of itself.
    open spec fn gives_info(&self, info: ProcessInfo) -> bool {
        true
    }

    fn info(&self) -> (r: &ProcessInfo)
        ensures
            self.gives_info(*r),
    ;
}

/// What an answer comes to behind a function table: a value comes through
/// as it is, and of a failure only that it is one.
pub open spec fn through_table<V>(answer: Result<V, Error>) -> Result<V, Error> {
    match answer {
        Ok(value) => Ok(value),
        Err(_) => Err(Error::Plugin),
    }
}

/// What an entry leaves in `out` for an answer: the value, or what was
/// there.
pub open spec fn spec_out<V>(answer: Result<V, Error>, before: Option<V>) -> Option<V> {
    match answer {
        Ok(value) => Some(value),
        Err(_) => before,
    }
}

/// The status code for a result.
pub open spec fn spec_status<T>(result: Result<T, Error>) -> i32 {
    if result is Ok {
        STATUS_OK
    } else {
        STATUS_FAILED
    }
}

/// The status code for a result that carries nothing.
pub fn int_result(result: Result<(), Error>) -> (status: i32)
    ensures
        status == spec_status(result),
{
    match result {
        Ok(_) => STATUS_OK,
        Err(_) => STATUS_FAILED,
    }
}

/// The status code for a result, whose value goes to `out`. A failure
/// leaves `out` as it was.
pub fn int_out_result<T>(result: Result<T, Error>, out: &mut Option<T>) -> (status: i32)
    ensures
        status == spec_status(result),
        *final(out) == match result {
            Ok(value) => Some(value),
            Err(_) => *old(out),
        },
{
    match result {
        Ok(value) => {
            *out = Some(value);
            STATUS_OK
        },
        Err(_) => STATUS_FAILED,
    }
}

/// The result for a status code.
pub fn result_from_int_void(status: i32) -> (result: Result<(), Error>)
    ensures
        result == if status == STATUS_OK {
            Ok::<(), Error>(())
        } else {
            Err(Error::Plugin)
        },
{
    if status == STATUS_OK {
        Ok(())
    } else {
        Err(Error::Plugin)
    }
}

/// The result for a status code and what the entry left in `out`. A code
/// of success with nothing left is a failure.
pub fn result_from_int<T>(status: i32, out: Option<T>) -> (result: Result<T, Error>)
    ensures
        result == match out {
            Some(value) => if status == STATUS_OK {
                Ok::<T, Error>(value)
            } else {
                Err(Error::Plugin)
            },
            None => Err(Error::Plugin),
        },
{
    match out {
        Some(value) => if status == STATUS_OK {
            Ok(value)
        } else {
            Err(Error::Plugin)
        },
        None => Err(Error::Plugin),
    }
}

/// The entries through which a process of type `T` is driven. Each calls
/// the process and turns what it answers into a status code.
pub struct ProcessFunctionTable<T> {
    pub process: core::marker::PhantomData<T>,
}

impl<T: Process> Default for ProcessFunctionTable<T> {
    /// The table for processes of type `T`: there is one.
    fn default() -> (table: Self)
        ensures
            table == (ProcessFunctionTable::<T> { process: core::marker::PhantomData }),
    {
        ProcessFunctionTable { process: core::marker::PhantomData }
    }
}

impl<T: Process> ProcessFunctionTable<T> {
    /// The virtual memory of `process`, as the process lends it.
    pub fn virt_mem<'a>(&self, process: &'a mut T) -> (r: &'a mut T::VirtualMemoryType)
        ensures
            old(process).lends_memory(*r, *final(r), *final(process)),
    {
        process.virt_mem()
    }

    /// Has `process` hand its module addresses to `callback`, and answers
    /// with the status code of what the process answered.
    pub fn module_address_list_callback(
        &self,
        process: &mut T,
        target_arch: Option<Architecture>,
        callback: &mut Vec<u64>,
    ) -> (status: i32)
        ensures
            exists|answer: Result<(), Error>|
                old(process).lists_modules(
                    target_arch,
                    old(callback)@,
                    answer,
                    final(callback)@,
                    *final(process),
                ) && status == spec_status(answer),
    {
        int_result(process.module_address_list_callback(target_arch, callback))
    }

    /// Asks `process` for the module at `address`, and answers with the
    /// status code of what the process answered. A module that the process
    /// found is in `out`; after a failure `out` is as it was.
    pub fn module_by_address(
        &self,
        process: &mut T,
        address: u64,
        architecture: Architecture,
        out: &mut Option<ModuleInfo>,
    ) -> (status: i32)
        ensures
            exists|answer: Result<ModuleInfo, Error>|
                old(process).finds_module(address, architecture, answer, *final(process))
                    && status == spec_status(answer) && *final(out) == spec_out(
                    answer,
                    *old(out),
                ),
    {
        let answer = process.module_by_address(address, architecture);
        let ghost given = answer;
        let status = int_out_result(answer, out);
        assert(old(process).finds_module(address, architecture, given, *process)
            && status == spec_status(given) && *out == spec_out(given, *old(out)));
        status
    }

    /// Asks `process` for the address of its primary module, and answers
    /// with the status code of what the process answered. An address that
    /// the process found is in `out`; after a failure `out` is as it was.
    pub fn primary_module_address(&self, process: &mut T, out: &mut Option<u64>) -> (status: i32)
        ensures
            exists|answer: Result<u64, Error>|
                old(process).finds_primary_module(answer, *final(process)) && status
                    == spec_status(answer) && *final(out) == spec_out(answer, *old(out)),
    {
        let answer = process.primary_module_address();
        let status = int_out_result(answer, out);
        assert(old(process).finds_primary_module(answer, *process) && status == spec_status(
            answer,
        ) && *out == spec_out(answer, *old(out)));
        status
    }

    /// What `process` says of itself.
    pub fn info<'a>(&self, process: &'a T) -> (r: &'a ProcessInfo)
        ensures
            process.gives_info(*r),
    {
        process.info()
    }
}

/// A process behind its function table. It is a process itself: each call
/// goes through the table, and a failure comes back as `Error::Plugin`,
/// whatever the process behind the table had answered.
pub struct PluginProcess<T: Process> {
    instance: T,
    vtable: ProcessFunctionTable<T>,
}

impl<T: Process> PluginProcess<T> {
    /// The process behind the table.
    pub closed spec fn instance(&self) -> T {
        self.instance
    }

    pub fn new(proc: T) -> (plugin: Self)
        ensures
            plugin.instance() == proc,
    {
        PluginProcess { instance: proc, vtable: ProcessFunctionTable::default() }
    }
}

impl<T: Process> Process for PluginProcess<T> {
    type VirtualMemoryType = T::VirtualMemoryType;

    /// The memory is lent as the process behind the table lends it.
    open spec fn lends_memory(
        &self,
        lent: T::VirtualMemoryType,
        returned: T::VirtualMemoryType,
        after: Self,
    ) -> bool {
        self.instance().lends_memory(lent, returned, after.instance())
    }

    fn virt_mem(&mut self) -> (r: &mut Self::VirtualMemoryType) {
        self.vtable.virt_mem(&mut self.instance)
    }

    /// The answer is one of the process behind the table, come through
    /// the table.
    open spec fn lists_modules(
        &self,
        target_arch: Option<Architecture>,
        before: Seq<u64>,
        answer: Result<(), Error>,
        collected: Seq<u64>,
        after: Self,
    ) -> bool {
        exists|given: Result<(), Error>|
            self.instance().lists_modules(target_arch, before, given, collected, after.instance())
                && answer == through_table(given)
    }

    fn module_address_list_callback(
        &mut self,
        target_arch: Option<Architecture>,
        callback: &mut Vec<u64>,
    ) -> (r: Result<(), Error>) {
        let res = self.vtable.module_address_list_callback(
            &mut self.instance,
            target_arch,
            callback,
        );
        let ghost given = choose|given: Result<(), Error>|
            old(self).instance().lists_modules(
                target_arch,
                old(callback)@,
                given,
                callback@,
                self.instance(),
            ) && res == spec_status(given);
        let r = result_from_int_void(res);
        assert(r == through_table(given));
        r
    }

    /// The answer is one of the process behind the table, come through
    /// the table.
    open spec fn finds_module(
        &self,
        address: u64,
        architecture: Architecture,
        answer: Result<ModuleInfo, Error>,
        after: Self,
    ) -> bool {
        exists|given: Result<ModuleInfo, Error>|
            self.instance().finds_module(address, architecture, given, after.instance())
                && answer == through_table(given)
    }

    fn module_by_address(&mut self, address: u64, architecture: Architecture) -> (r: Result<
        ModuleInfo,
        Error,
    >) {
        let mut out: Option<ModuleInfo> = None;
        let res = self.vtable.module_by_address(&mut self.instance, address, architecture, &mut out);
        let ghost given = choose|given: Result<ModuleInfo, Error>|
            old(self).instance().finds_module(address, architecture, given, self.instance())
                && res == spec_status(given) && out == spec_out(given, None::<ModuleInfo>);
        let r = result_from_int(res, out);
        assert(r == through_table(given));
        r
    }

    /// The answer is one of the process behind the table, come through
    /// the table.
    open spec fn finds_primary_module(&self, answer: Result<u64, Error>, after: Self) -> bool {
        exists|given: Result<u64, Error>|
            self.instance().finds_primary_module(given, after.instance()) && answer
                == through_table(given)
    }

    fn primary_module_address(&mut self) -> (r: Result<u64, Error>) {
        let mut out: Option<u64> = None;
        let res = self.vtable.primary_module_address(&mut self.instance, &mut out);
        let ghost given = choose|given: Result<u64, Error>|
            old(self).instance().finds_primary_module(given, self.instance()) && res
                == spec_status(given) && out == spec_out(given, None::<u64>);
        let r = result_from_int(res, out);
        assert(r == through_table(given));
        r
    }

    /// The process says of itself what the process behind the table says.
    open spec fn gives_info(&self, info: ProcessInfo) -> bool {
        self.instance().gives_info(info)
    }

    fn info(&self) -> (r: &ProcessInfo) {
        self.vtable.info(&self.instance)
    }
}

/// A process that lives in a loaded library, with a handle of the library:
/// the library stays loaded for as long as the process is there.
pub struct ArcPluginProcess<T: Process> {
    inner: PluginProcess<T>,
    library: Arc<Library>,
}

impl<T: Process> ArcPluginProcess<T> {
    /// The process behind the table.
    pub closed spec fn instance(&self) -> T {
        self.inner.instance()
    }

    /// The library that the handle keeps loaded.
    pub closed spec fn library(&self) -> Library {
        *self.library
    }

    pub fn from(proc: T, lib: &Arc<Library>) -> (plugin: Self)
        ensures
            plugin.instance() == proc,
            plugin.library() == **lib,
    {
        ArcPluginProcess { inner: PluginProcess::new(proc), library: lib.clone() }
    }
}

impl<T: Process> Process for ArcPluginProcess<T> {
    type VirtualMemoryType = T::VirtualMemoryType;

    /// The memory is lent as the process behind the table lends it, and
    /// the library stays the same.
    open spec fn lends_memory(
        &self,
        lent: T::VirtualMemoryType,
        returned: T::VirtualMemoryType,
        after: Self,
    ) -> bool {
        self.instance().lends_memory(lent, returned, after.instance()) && after.library()
            == self.library()
    }

    fn virt_mem(&mut self) -> (r: &mut Self::VirtualMemoryType) {
        self.inner.virt_mem()
    }

    /// The answer is one of the process behind the table, come through
    /// the table, and the library stays the same.
    open spec fn lists_modules(
        &self,
        target_arch: Option<Architecture>,
        before: Seq<u64>,
        answer: Result<(), Error>,
        collected: Seq<u64>,
        after: Self,
    ) -> bool {
        after.library() == self.library() && exists|given: Result<(), Error>|
            self.instance().lists_modules(target_arch, before, given, collected, after.instance())
                && answer == through_table(given)
    }

    fn module_address_list_callback(
        &mut self,
        target_arch: Option<Architecture>,
        callback: &mut Vec<u64>,
    ) -> (r: Result<(), Error>) {
        self.inner.module_address_list_callback(target_arch, callback)
    }

    /// The answer is one of the process behind the table, come through
    /// the table, and the library stays the same.
    open spec fn finds_module(
        &self,
        address: u64,
        architecture: Architecture,
        answer: Result<ModuleInfo, Error>,
        after: Self,
    ) -> bool {
        after.library() == self.library() && exists|given: Result<ModuleInfo, Error>|
            self.instance().finds_module(address, architecture, given, after.instance())
                && answer == through_table(given)
    }

    fn module_by_address(&mut self, address: u64, architecture: Architecture) -> (r: Result<
        ModuleInfo,
        Error,
    >) {
        self.inner.module_by_address(address, architecture)
    }

    /// The answer is one of the process behind the table, come through
    /// the table, and the library stays the same.
    open spec fn finds_primary_module(&self, answer: Result<u64, Error>, after: Self) -> bool {
        after.library() == self.library() && exists|given: Result<u64, Error>|
            self.instance().finds_primary_module(given, after.instance()) && answer
                == through_table(given)
    }

    fn primary_module_address(&mut self) -> (r: Result<u64, Error>) {
        self.inner.primary_module_address()
    }

    /// The process says of itself what the process behind the table says.
    open spec fn gives_info(&self, info: ProcessInfo) -> bool {
        self.instance().gives_info(info)
    }

    fn info(&self) -> (r: &ProcessInfo) {
        self.inner.info()
    }
}

} // verus!
