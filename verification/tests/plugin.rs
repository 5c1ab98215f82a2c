use flow_win32::architecture::Architecture;
use flow_win32::error::Error;
use flow_win32::plugin::{
    int_out_result, int_result, result_from_int, result_from_int_void, ArcPluginProcess,
    ModuleInfo, PluginProcess, Process, ProcessFunctionTable, ProcessInfo, STATUS_FAILED,
    STATUS_OK,
};
use std::sync::Arc;

struct Dummy {
    info: ProcessInfo,
    memory: Vec<u8>,
    modules: Vec<(u64, Architecture)>,
    calls: usize,
}

impl Process for Dummy {
    type VirtualMemoryType = Vec<u8>;

    fn virt_mem(&mut self) -> &mut Vec<u8> {
        &mut self.memory
    }

    fn module_address_list_callback(
        &mut self,
        target_arch: Option<Architecture>,
        callback: &mut Vec<u64>,
    ) -> Result<(), Error> {
        self.calls += 1;
        if self.modules.is_empty() {
            return Err(Error::IoError);
        }
        for (address, arch) in self.modules.iter() {
            if target_arch.is_none() || target_arch == Some(*arch) {
                callback.push(*address);
            }
        }
        Ok(())
    }

    fn module_by_address(&mut self, address: u64, architecture: Architecture) -> Result<ModuleInfo, Error> {
        self.calls += 1;
        if self.modules.contains(&(address, architecture)) {
            Ok(ModuleInfo { address, base: address + 0x1000, size: 0x2000, name: String::from("ntdll.dll") })
        } else {
            Err(Error::TranslationFailed)
        }
    }

    fn primary_module_address(&mut self) -> Result<u64, Error> {
        self.calls += 1;
        match self.modules.first() {
            Some((address, _)) => Ok(*address),
            None => Err(Error::UnknownField),
        }
    }

    fn info(&self) -> &ProcessInfo {
        &self.info
    }
}

fn dummy(modules: Vec<(u64, Architecture)>) -> Dummy {
    Dummy {
        info: ProcessInfo {
            address: 0xffff_f800_0010_4000,
            pid: 0x2b8,
            name: String::from("notepad.exe"),
            sys_arch: Architecture::X64,
            proc_arch: Architecture::X86,
        },
        memory: vec![1, 2, 3],
        modules,
        calls: 0,
    }
}

fn two_modules() -> Vec<(u64, Architecture)> {
    vec![(0x7000, Architecture::X64), (0x9000, Architecture::X86)]
}

fn this_library() -> Arc<libloading::Library> {
    let library: libloading::Library = libloading::os::unix::Library::this().into();
    Arc::new(library)
}

#[test]
fn status_of_a_result_is_zero_or_minus_one() {
    assert_eq!(STATUS_OK, 0);
    assert_eq!(STATUS_FAILED, -1);
    assert_eq!(int_result(Ok(())), 0);
    assert_eq!(int_result(Err(Error::IoError)), -1);
    assert_eq!(int_result(Err(Error::Plugin)), -1);
}

#[test]
fn out_result_hands_the_value_out_on_success_only() {
    let mut out: Option<u64> = Some(7);
    assert_eq!(int_out_result(Ok(9), &mut out), 0);
    assert_eq!(out, Some(9));
    assert_eq!(int_out_result(Err(Error::IoError), &mut out), -1);
    assert_eq!(out, Some(9));
    let mut nothing: Option<u64> = None;
    assert_eq!(int_out_result(Err(Error::UnknownField), &mut nothing), -1);
    assert_eq!(nothing, None);
}

#[test]
fn status_becomes_a_result_again() {
    assert_eq!(result_from_int_void(0), Ok(()));
    assert_eq!(result_from_int_void(-1), Err(Error::Plugin));
    assert_eq!(result_from_int_void(5), Err(Error::Plugin));
    assert_eq!(result_from_int(0, Some(3u64)), Ok(3));
    assert_eq!(result_from_int(-1, Some(3u64)), Err(Error::Plugin));
    assert_eq!(result_from_int::<u64>(0, None), Err(Error::Plugin));
    assert_eq!(result_from_int::<u64>(-1, None), Err(Error::Plugin));
}

#[test]
fn table_entries_answer_with_status_codes() {
    let table: ProcessFunctionTable<Dummy> = ProcessFunctionTable::default();
    let mut process = dummy(two_modules());
    let mut addresses = Vec::new();
    assert_eq!(table.module_address_list_callback(&mut process, None, &mut addresses), 0);
    assert_eq!(addresses, vec![0x7000, 0x9000]);
    let mut module = None;
    assert_eq!(table.module_by_address(&mut process, 0x9000, Architecture::X86, &mut module), 0);
    assert_eq!(
        module,
        Some(ModuleInfo { address: 0x9000, base: 0xa000, size: 0x2000, name: String::from("ntdll.dll") })
    );
    assert_eq!(table.module_by_address(&mut process, 0x9000, Architecture::X64, &mut module), -1);
    assert_eq!(module.as_ref().map(|m| m.address), Some(0x9000));
    let mut primary = None;
    assert_eq!(table.primary_module_address(&mut process, &mut primary), 0);
    assert_eq!(primary, Some(0x7000));
    assert_eq!(table.info(&process).pid, 0x2b8);
    table.virt_mem(&mut process).push(4);
    assert_eq!(process.memory, vec![1, 2, 3, 4]);
    assert_eq!(process.calls, 4);
}

#[test]
fn table_entries_of_a_failing_process_leave_out_untouched() {
    let table: ProcessFunctionTable<Dummy> = ProcessFunctionTable::default();
    let mut process = dummy(Vec::new());
    let mut addresses = vec![1];
    assert_eq!(table.module_address_list_callback(&mut process, None, &mut addresses), -1);
    assert_eq!(addresses, vec![1]);
    let mut primary = Some(0x42);
    assert_eq!(table.primary_module_address(&mut process, &mut primary), -1);
    assert_eq!(primary, Some(0x42));
}

#[test]
fn plugin_process_answers_as_its_instance_does() {
    let mut plugin = PluginProcess::new(dummy(two_modules()));
    let mut addresses = Vec::new();
    assert_eq!(plugin.module_address_list_callback(Some(Architecture::X86), &mut addresses), Ok(()));
    assert_eq!(addresses, vec![0x9000]);
    assert_eq!(
        plugin.module_by_address(0x7000, Architecture::X64),
        Ok(ModuleInfo { address: 0x7000, base: 0x8000, size: 0x2000, name: String::from("ntdll.dll") })
    );
    assert_eq!(plugin.primary_module_address(), Ok(0x7000));
    assert_eq!(plugin.info().name, "notepad.exe");
    assert_eq!(plugin.info().proc_arch, Architecture::X86);
    plugin.virt_mem()[0] = 9;
    assert_eq!(plugin.virt_mem(), &mut vec![9, 2, 3]);
}

#[test]
fn plugin_process_reports_every_failure_as_plugin_error() {
    let mut plugin = PluginProcess::new(dummy(Vec::new()));
    let mut addresses = Vec::new();
    assert_eq!(plugin.module_address_list_callback(None, &mut addresses), Err(Error::Plugin));
    assert_eq!(plugin.module_by_address(0x7000, Architecture::X64), Err(Error::Plugin));
    assert_eq!(plugin.primary_module_address(), Err(Error::Plugin));
}

#[test]
fn arc_plugin_process_keeps_the_library_loaded() {
    let library = this_library();
    assert_eq!(Arc::strong_count(&library), 1);
    let mut plugin = ArcPluginProcess::from(dummy(two_modules()), &library);
    assert_eq!(Arc::strong_count(&library), 2);
    assert_eq!(plugin.primary_module_address(), Ok(0x7000));
    assert_eq!(plugin.module_by_address(0x1, Architecture::X64), Err(Error::Plugin));
    let mut addresses = Vec::new();
    assert_eq!(plugin.module_address_list_callback(None, &mut addresses), Ok(()));
    assert_eq!(addresses, vec![0x7000, 0x9000]);
    assert_eq!(plugin.info().pid, 0x2b8);
    assert_eq!(plugin.virt_mem().len(), 3);
    drop(plugin);
    assert_eq!(Arc::strong_count(&library), 1);
}
