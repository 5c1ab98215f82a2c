use flow_win32::architecture::Architecture;
use flow_win32::bytes::{pointer_at, u16_at, u32_at, u64_at};
use flow_win32::error::{Error, ReadError, Stage};
use flow_win32::image::{Mapping, MemoryImage};
use flow_win32::lowstub::{self, parse_stub, KernelStubInfo};
use flow_win32::memory::MemoryAccess;
use flow_win32::ntos::{self, parse_header, ImageHeader};
use flow_win32::sysproc::{
    self, find_links, has_system_name, looks_like_system_process, read_pointer, BLOCK_SPAN,
};
use flow_win32::win::{value, FieldWidth};

fn x64_stub_page() -> Vec<u8> {
    let mut page = vec![0u8; 0x1000];
    page[..8].copy_from_slice(&[0xe9, 0x4d, 0x06, 0x00, 0x01, 0x00, 0x00, 0x00]);
    page[0x70..0x78].copy_from_slice(&0xffff_f800_0123_4560u64.to_le_bytes());
    page[0xa0..0xa8].copy_from_slice(&0x0000_0000_001a_b000u64.to_le_bytes());
    page
}

fn x86_stub_page() -> Vec<u8> {
    let mut page = vec![0u8; 0x1000];
    page[..8].copy_from_slice(&[0xe9, 0x10, 0x06, 0x00, 0x01, 0x00, 0x00, 0x00]);
    page[0x6c..0x70].copy_from_slice(&0x8010_2460u32.to_le_bytes());
    page[0x98..0x9c].copy_from_slice(&0x0018_5000u32.to_le_bytes());
    page
}

fn header_page(machine: u16, magic: u16, sections: u16, size: u32) -> Vec<u8> {
    let mut page = vec![0u8; 0x1000];
    page[0] = 0x4d;
    page[1] = 0x5a;
    page[0x3c..0x40].copy_from_slice(&0xf8u32.to_le_bytes());
    page[0xf8..0xfc].copy_from_slice(&[0x50, 0x45, 0, 0]);
    page[0xfc..0xfe].copy_from_slice(&machine.to_le_bytes());
    page[0xfe..0x100].copy_from_slice(&sections.to_le_bytes());
    page[0x100..0x104].copy_from_slice(&0x4ce7_8a09u32.to_le_bytes());
    page[0x110..0x112].copy_from_slice(&magic.to_le_bytes());
    page[0x148..0x14c].copy_from_slice(&size.to_le_bytes());
    page
}

#[test]
fn little_endian_integers_are_read_at_an_offset() {
    let bytes = [0x11u8, 0x22, 0x33, 0x44, 0x55, 0x66, 0x77, 0x88, 0x99];
    assert_eq!(u16_at(&bytes, 1), 0x3322);
    assert_eq!(u32_at(&bytes, 1), 0x5544_3322);
    assert_eq!(u64_at(&bytes, 1), 0x9988_7766_5544_3322);
    assert_eq!(pointer_at(Architecture::X86, &bytes, 0), 0x4433_2211);
    assert_eq!(pointer_at(Architecture::X64, &bytes, 0), 0x8877_6655_4433_2211);
}

#[test]
fn value_reads_one_two_four_or_eight_bytes() {
    assert_eq!(value(&[0xab]), 0xab);
    assert_eq!(value(&[0x34, 0x12]), 0x1234);
    assert_eq!(value(&[0x78, 0x56, 0x34, 0x12]), 0x1234_5678);
    assert_eq!(value(&[1, 0, 0, 0, 0, 0, 0, 0x80]), 0x8000_0000_0000_0001);
}

#[test]
fn field_width_gives_the_number_of_bytes() {
    assert_eq!(FieldWidth::U8.length(Architecture::X64), 1);
    assert_eq!(FieldWidth::U16.length(Architecture::X64), 2);
    assert_eq!(FieldWidth::U32.length(Architecture::X86), 4);
    assert_eq!(FieldWidth::U64.length(Architecture::X86), 8);
    assert_eq!(FieldWidth::Pointer.length(Architecture::X86), 4);
    assert_eq!(FieldWidth::Pointer.length(Architecture::X64), 8);
}

#[test]
fn architecture_fixes_pointer_width_and_kernel_space() {
    assert_eq!(Architecture::X86.pointer_width(), 4);
    assert_eq!(Architecture::X64.pointer_width(), 8);
    assert!(Architecture::X86.is_kernel_address(0x8000_0000));
    assert!(Architecture::X86.is_kernel_address(0xffff_ffff));
    assert!(!Architecture::X86.is_kernel_address(0x7fff_ffff));
    assert!(!Architecture::X86.is_kernel_address(0x1_0000_0000));
    assert!(Architecture::X64.is_kernel_address(0xffff_8000_0000_0000));
    assert!(Architecture::X64.is_kernel_address(u64::MAX));
    assert!(!Architecture::X64.is_kernel_address(0xffff_7fff_ffff_ffff));
}

#[test]
fn errors_describe_themselves() {
    assert_eq!(Error::DiscoveryFailed(Stage::LowStub).describe(), "discovery failed: no low stub");
    assert_eq!(Error::DiscoveryFailed(Stage::KernelImage).describe(), "discovery failed: no kernel image");
    assert_eq!(
        Error::DiscoveryFailed(Stage::ProcessAnchor).describe(),
        "discovery failed: no system process"
    );
    assert_eq!(Error::IoError.describe(), "memory read failed");
    assert_eq!(Error::TranslationFailed.describe(), "address has no translation");
    assert_eq!(Error::SymbolsUnavailable.describe(), "symbols unavailable");
    assert_eq!(Error::UnknownStructure.describe(), "unknown structure");
    assert_eq!(Error::UnknownField.describe(), "unknown field");
    assert_eq!(Error::Plugin.describe(), "plugin call failed");
    assert_eq!(Error::from_read(ReadError::Io), Error::IoError);
    assert_eq!(Error::from_read(ReadError::Translation), Error::TranslationFailed);
}

#[test]
fn x64_stub_is_parsed() {
    assert_eq!(
        parse_stub(Architecture::X64, &x64_stub_page()),
        Some(KernelStubInfo {
            arch: Architecture::X64,
            va: 0xffff_f800_0123_4560,
            dtb: 0x001a_b000,
        })
    );
}

#[test]
fn x86_stub_is_parsed() {
    assert_eq!(
        parse_stub(Architecture::X86, &x86_stub_page()),
        Some(KernelStubInfo { arch: Architecture::X86, va: 0x8010_2460, dtb: 0x0018_5000 })
    );
}

#[test]
fn stub_of_one_architecture_is_none_of_the_other() {
    assert_eq!(parse_stub(Architecture::X86, &x64_stub_page()), None);
    assert_eq!(parse_stub(Architecture::X64, &x86_stub_page()), None);
}

#[test]
fn stub_with_a_broken_structure_is_rejected() {
    assert_eq!(parse_stub(Architecture::X64, &vec![0u8; 0x1000]), None);
    assert_eq!(parse_stub(Architecture::X86, &vec![0u8; 0x1000]), None);
    assert_eq!(parse_stub(Architecture::X64, &x64_stub_page()[..0xfff]), None);
    let mut page = x64_stub_page();
    page[4] = 2;
    assert_eq!(parse_stub(Architecture::X64, &page), None);
    let mut page = x64_stub_page();
    page[1] = 0xff;
    assert!(parse_stub(Architecture::X64, &page).is_some());
    let mut page = x64_stub_page();
    page[0x70] = 0x61;
    assert_eq!(parse_stub(Architecture::X64, &page), None);
    let mut page = x64_stub_page();
    page[0x77] = 0x7f;
    assert_eq!(parse_stub(Architecture::X64, &page), None);
    let mut page = x64_stub_page();
    page[0xa0] = 1;
    assert_eq!(parse_stub(Architecture::X64, &page), None);
    let mut page = x64_stub_page();
    page[0xa5] = 1;
    assert_eq!(parse_stub(Architecture::X64, &page), None);
    let mut page = x64_stub_page();
    page[0xa0..0xa8].copy_from_slice(&[0u8; 8]);
    assert_eq!(parse_stub(Architecture::X64, &page), None);
    let mut page = x86_stub_page();
    page[0x6f] = 0x7f;
    assert_eq!(parse_stub(Architecture::X86, &page), None);
    let mut page = x86_stub_page();
    page[0x98..0x9c].copy_from_slice(&[0u8; 4]);
    assert_eq!(parse_stub(Architecture::X86, &page), None);
}

#[test]
fn image_header_is_parsed_for_its_architecture() {
    let x64 = header_page(0x8664, 0x020b, 24, 0x00a0_0000);
    let x86 = header_page(0x014c, 0x010b, 1, 0x1000);
    assert_eq!(
        parse_header(Architecture::X64, &x64),
        Some(ImageHeader { timestamp: 0x4ce7_8a09, size_of_image: 0x00a0_0000, sections: 24 })
    );
    assert_eq!(
        parse_header(Architecture::X86, &x86),
        Some(ImageHeader { timestamp: 0x4ce7_8a09, size_of_image: 0x1000, sections: 1 })
    );
    assert_eq!(parse_header(Architecture::X86, &x64), None);
    assert_eq!(parse_header(Architecture::X64, &x86), None);
}

#[test]
fn image_header_outside_its_bounds_is_rejected() {
    assert_eq!(parse_header(Architecture::X64, &vec![0u8; 0x1000]), None);
    assert_eq!(parse_header(Architecture::X64, &header_page(0x8664, 0x020b, 0, 0x2000)), None);
    assert_eq!(parse_header(Architecture::X64, &header_page(0x8664, 0x020b, 97, 0x2000)), None);
    assert!(parse_header(Architecture::X64, &header_page(0x8664, 0x020b, 96, 0x2000)).is_some());
    assert_eq!(parse_header(Architecture::X64, &header_page(0x8664, 0x020b, 5, 0xfff)), None);
    assert_eq!(parse_header(Architecture::X64, &header_page(0x8664, 0x020b, 5, 0x0400_0001)), None);
    assert!(parse_header(Architecture::X64, &header_page(0x8664, 0x020b, 5, 0x0400_0000)).is_some());
    assert_eq!(parse_header(Architecture::X64, &header_page(0x8664, 0x010b, 5, 0x2000)), None);
    let mut page = header_page(0x8664, 0x020b, 5, 0x2000);
    page[0xf8] = 0x51;
    assert_eq!(parse_header(Architecture::X64, &page), None);
    let mut page = header_page(0x8664, 0x020b, 5, 0x2000);
    page[1] = 0x5b;
    assert_eq!(parse_header(Architecture::X64, &page), None);
    let mut page = header_page(0x8664, 0x020b, 5, 0x2000);
    page[0x3c..0x40].copy_from_slice(&0x3cu32.to_le_bytes());
    assert_eq!(parse_header(Architecture::X64, &page), None);
    let mut page = header_page(0x8664, 0x020b, 5, 0x2000);
    page[0x3c..0x40].copy_from_slice(&0xfadu32.to_le_bytes());
    assert_eq!(parse_header(Architecture::X64, &page), None);
    let page = header_page(0x8664, 0x020b, 5, 0x2000);
    assert_eq!(parse_header(Architecture::X64, &page[..0x800]), None);
}

#[test]
fn image_header_at_the_end_of_the_page_is_read() {
    let mut page = vec![0u8; 0x1000];
    let nt = 0x1000 - 84;
    page[0] = 0x4d;
    page[1] = 0x5a;
    page[0x3c..0x40].copy_from_slice(&(nt as u32).to_le_bytes());
    page[nt..nt + 4].copy_from_slice(&[0x50, 0x45, 0, 0]);
    page[nt + 4..nt + 6].copy_from_slice(&0x8664u16.to_le_bytes());
    page[nt + 6..nt + 8].copy_from_slice(&3u16.to_le_bytes());
    page[nt + 24..nt + 26].copy_from_slice(&0x020bu16.to_le_bytes());
    page[nt + 80..nt + 84].copy_from_slice(&0x5000u32.to_le_bytes());
    assert_eq!(
        parse_header(Architecture::X64, &page),
        Some(ImageHeader { timestamp: 0, size_of_image: 0x5000, sections: 3 })
    );
}

#[test]
fn system_name_is_found_anywhere_in_a_block() {
    let mut block = vec![0xffu8; 0x40];
    assert!(!has_system_name(&block));
    block[0x21..0x27].copy_from_slice(b"System");
    assert!(!has_system_name(&block));
    for byte in block[0x27..0x30].iter_mut() {
        *byte = 0;
    }
    assert!(has_system_name(&block));
    block[0x2f] = 1;
    assert!(!has_system_name(&block));
    let mut tail = vec![0u8; 15];
    tail[..6].copy_from_slice(b"System");
    assert!(has_system_name(&tail));
    assert!(!has_system_name(&tail[..14]));
    assert!(!has_system_name(b"system\0\0\0\0\0\0\0\0\0"));
}

const DTB: u64 = 0x001a_b000;
const NODE: u64 = 0xffff_f800_0000_4000;
const OTHER: u64 = 0xffff_f800_0000_5000;

fn stub() -> KernelStubInfo {
    KernelStubInfo { arch: Architecture::X64, va: 0xffff_f800_0000_2000, dtb: DTB }
}

fn system_block() -> Vec<u8> {
    let mut block = vec![0u8; BLOCK_SPAN];
    block[0] = 0x03;
    block[0x28..0x30].copy_from_slice(&DTB.to_le_bytes());
    block[0x450..0x456].copy_from_slice(b"System");
    block
}

#[test]
fn block_looks_like_the_system_process_by_tag_root_and_name() {
    assert!(looks_like_system_process(&stub(), &system_block()));
    let mut block = system_block();
    block[0] = 0x06;
    assert!(!looks_like_system_process(&stub(), &block));
    let mut block = system_block();
    block[0x29] = 0xa0;
    assert!(!looks_like_system_process(&stub(), &block));
    let mut block = system_block();
    block[0x450] = b's';
    assert!(!looks_like_system_process(&stub(), &block));
    assert!(!looks_like_system_process(&stub(), &system_block()[..BLOCK_SPAN - 1]));
    let x86 = KernelStubInfo { arch: Architecture::X86, va: 0x8010_0000, dtb: DTB };
    assert!(!looks_like_system_process(&x86, &system_block()));
    let mut block = system_block();
    block[0x18..0x1c].copy_from_slice(&(DTB as u32).to_le_bytes());
    assert!(looks_like_system_process(&x86, &block));
}

fn linked_image() -> MemoryImage {
    let mut image = MemoryImage::new(0x10000);
    image.map(Mapping { root: DTB, virt: 0xffff_f800_0000_0000, phys: 0, length: 0x10000 });
    let put = |image: &mut MemoryImage, address: u64, value: u64| {
        assert_eq!(image.write_virtual(DTB, address, &value.to_le_bytes()), Ok(()));
    };
    assert_eq!(image.write_virtual(DTB, NODE, &[0x03]), Ok(()));
    assert_eq!(image.write_virtual(DTB, OTHER, &[0x03]), Ok(()));
    put(&mut image, NODE + 0x2e8, OTHER + 0x2e8);
    put(&mut image, NODE + 0x2f0, OTHER + 0x2e8);
    put(&mut image, OTHER + 0x2e8, NODE + 0x2e8);
    put(&mut image, OTHER + 0x2f0, NODE + 0x2e8);
    image
}

#[test]
fn pointer_is_read_in_the_width_of_the_architecture() {
    let mut image = linked_image();
    assert_eq!(read_pointer(&mut image, &stub(), NODE + 0x2e8), Ok(OTHER + 0x2e8));
    let x86 = KernelStubInfo { arch: Architecture::X86, va: 0x8010_0000, dtb: DTB };
    assert_eq!(read_pointer(&mut image, &x86, NODE + 0x2e8), Ok((OTHER + 0x2e8) & 0xffff_ffff));
    assert_eq!(
        read_pointer(&mut image, &stub(), 0xffff_f800_0001_0000),
        Err(ReadError::Translation)
    );
}

#[test]
fn links_are_found_where_the_neighbours_answer() {
    let mut image = linked_image();
    let block = image.read_virtual(DTB, NODE, BLOCK_SPAN).unwrap();
    assert_eq!(find_links(&mut image, &stub(), NODE, &block), Ok(0x2e8));
}

#[test]
fn links_that_no_neighbour_answers_are_not_found() {
    let mut image = linked_image();
    assert_eq!(image.write_virtual(DTB, OTHER + 0x2f0, &(OTHER + 0x2e8).to_le_bytes()), Ok(()));
    let block = image.read_virtual(DTB, NODE, BLOCK_SPAN).unwrap();
    assert_eq!(
        find_links(&mut image, &stub(), NODE, &block),
        Err(Error::DiscoveryFailed(Stage::ProcessAnchor))
    );
    let mut image = linked_image();
    assert_eq!(image.write_virtual(DTB, OTHER + 0x2e8, &(OTHER + 0x2e8).to_le_bytes()), Ok(()));
    let block = image.read_virtual(DTB, NODE, BLOCK_SPAN).unwrap();
    assert_eq!(
        find_links(&mut image, &stub(), NODE, &block),
        Err(Error::DiscoveryFailed(Stage::ProcessAnchor))
    );
    let mut image = linked_image();
    let away = 0xffff_f800_0100_0000u64;
    assert_eq!(image.write_virtual(DTB, NODE + 0x2e8, &away.to_le_bytes()), Ok(()));
    let block = image.read_virtual(DTB, NODE, BLOCK_SPAN).unwrap();
    assert_eq!(
        find_links(&mut image, &stub(), NODE, &block),
        Err(Error::DiscoveryFailed(Stage::ProcessAnchor))
    );
}

#[test]
fn links_to_something_that_begins_no_process_are_not_found() {
    let mut image = linked_image();
    assert_eq!(image.write_virtual(DTB, OTHER, &[0x02]), Ok(()));
    let block = image.read_virtual(DTB, NODE, BLOCK_SPAN).unwrap();
    assert_eq!(
        find_links(&mut image, &stub(), NODE, &block),
        Err(Error::DiscoveryFailed(Stage::ProcessAnchor))
    );
}

#[test]
fn links_of_a_list_of_one_are_found() {
    let mut image = linked_image();
    assert_eq!(image.write_virtual(DTB, NODE + 0x2e8, &[0u8; 16]), Ok(()));
    assert_eq!(image.write_virtual(DTB, NODE + 0x488, &(NODE + 0x488).to_le_bytes()), Ok(()));
    assert_eq!(image.write_virtual(DTB, NODE + 0x490, &(NODE + 0x488).to_le_bytes()), Ok(()));
    let block = image.read_virtual(DTB, NODE, BLOCK_SPAN).unwrap();
    assert_eq!(find_links(&mut image, &stub(), NODE, &block), Ok(0x488));
}

#[test]
fn links_are_not_looked_for_in_a_block_of_another_size() {
    let mut image = linked_image();
    let block = image.read_virtual(DTB, NODE, BLOCK_SPAN - 8).unwrap();
    assert_eq!(
        find_links(&mut image, &stub(), NODE, &block),
        Err(Error::DiscoveryFailed(Stage::ProcessAnchor))
    );
}

#[test]
fn link_that_reads_beyond_physical_memory_is_an_io_error() {
    let mut image = linked_image();
    image.map(Mapping { root: DTB, virt: 0xffff_f800_0200_0000, phys: 0x0100_0000, length: 0x1000 });
    let broken = 0xffff_f800_0200_0100u64;
    assert_eq!(image.write_virtual(DTB, NODE + 0x100, &broken.to_le_bytes()), Ok(()));
    assert_eq!(image.write_virtual(DTB, NODE + 0x108, &broken.to_le_bytes()), Ok(()));
    let block = image.read_virtual(DTB, NODE, BLOCK_SPAN).unwrap();
    assert_eq!(find_links(&mut image, &stub(), NODE, &block), Err(Error::IoError));
}

#[test]
fn stages_can_be_run_one_by_one() {
    let base = 0xffff_f800_0120_0000u64;
    let mut image = MemoryImage::new(0x0014_0000);
    assert_eq!(image.write_physical(0x2000, &x64_stub_page()), Ok(()));
    assert_eq!(lowstub::find(&mut image), Err(Error::DiscoveryFailed(Stage::LowStub)));
    image.map(Mapping { root: DTB, virt: base, phys: 0x0010_0000, length: 0x40000 });
    let found = lowstub::find(&mut image).unwrap();
    assert_eq!(found.va, 0xffff_f800_0123_4560);
    assert_eq!(ntos::find(&mut image, &found), Err(Error::DiscoveryFailed(Stage::KernelImage)));
    let header = header_page(0x8664, 0x020b, 5, 0x20000);
    assert_eq!(image.write_virtual(DTB, base, &header), Ok(()));
    assert_eq!(ntos::find(&mut image, &found), Ok(base));
    assert_eq!(image.write_virtual(DTB, base + 0x3000, &header), Ok(()));
    assert_eq!(ntos::find(&mut image, &found), Ok(base + 0x3000));
    assert_eq!(image.write_virtual(DTB, base + 0x3_5000, &header), Ok(()));
    assert_eq!(ntos::find(&mut image, &found), Ok(base + 0x3000));
    assert_eq!(
        sysproc::find(&mut image, &found, base),
        Err(Error::DiscoveryFailed(Stage::ProcessAnchor))
    );
    assert_eq!(
        sysproc::find(&mut image, &found, base + 0x1000),
        Err(Error::DiscoveryFailed(Stage::ProcessAnchor))
    );
    assert_eq!(
        sysproc::find(&mut image, &found, 0xffff_f800_0100_0000),
        Err(Error::DiscoveryFailed(Stage::ProcessAnchor))
    );
}
