use kernel::arch::devices::framebuffer::{
    ColorMode, CustomColorMode, Framebuffer, FramebufferInfo, FramebufferReport, Pixel,
    RawFramebuffer, Rect, Rgb,
};
use kernel::arch::interrupts::idt::{
    GateType, Idt, IdtEntry, IdtEntryData, IdtVector, IstIndex,
};
use kernel::arch::interrupts::ErrorCode;
use kernel::arch::intrinsics::{brand, time_stamp_counter, CpuidResult};
use kernel::arch::paging::structs::{PageTableEntry, ADDRESS_MASK, PAGE_SIZE};
use kernel::arch::paging::{has_alias, initialize_identity_map, to_virtual};
use kernel::arch::{
    PhysicalAddress, PrivilegeLevel, SegmentIndex, SegmentSelector, TableIndicator, VirtualAddress,
};

#[test]
fn physical_address_rounds_to_multiples() {
    let address = PhysicalAddress::new(0x1234);
    assert_eq!(address.next_multiple_of(0x1000), PhysicalAddress::new(0x2000));
    assert_eq!(address.last_multiple_of(0x1000), PhysicalAddress::new(0x1000));
    let aligned = PhysicalAddress::new(0x3000);
    assert_eq!(aligned.next_multiple_of(0x1000), aligned);
    assert_eq!(aligned.last_multiple_of(0x1000), aligned);
    assert_eq!(PhysicalAddress::new(7).next_multiple_of(3), PhysicalAddress::new(9));
    assert_eq!(PhysicalAddress::new(7).last_multiple_of(3), PhysicalAddress::new(6));
    assert_eq!(PhysicalAddress::new(0).next_multiple_of(8), PhysicalAddress::new(0));
}

#[test]
fn physical_address_knows_its_alignment() {
    assert!(PhysicalAddress::new(0x2000).is_aligned_to(0x1000));
    assert!(!PhysicalAddress::new(0x2001).is_aligned_to(0x1000));
    assert!(PhysicalAddress::new(0).is_aligned_to(7));
    assert!(PhysicalAddress::new(16).is_aligned::<u64>());
    assert!(!PhysicalAddress::new(12).is_aligned::<u64>());
    assert!(PhysicalAddress::new(13).is_aligned::<u8>());
}

#[test]
fn physical_address_arithmetic() {
    let address = PhysicalAddress::new(0x1000);
    assert_eq!(address + 0x234, PhysicalAddress::new(0x1234));
    assert_eq!(address - 0x1, PhysicalAddress::new(0xfff));
    assert_eq!(PhysicalAddress::new(0x1234) - address, 0x234);
    assert_eq!(PhysicalAddress::new(0x1234) % 0x1000, 0x234);
    let mut moving = address;
    moving += 0x10;
    assert_eq!(moving, PhysicalAddress::new(0x1010));
    moving -= 0x20;
    assert_eq!(moving, PhysicalAddress::new(0xff0));
    moving %= 0x100;
    assert_eq!(moving, PhysicalAddress::new(0xf0));
    assert_eq!(usize::from(address), 0x1000);
    assert_eq!(u64::from(address), 0x1000);
    assert_eq!(PhysicalAddress::from(0x1000), address);
    assert!(PhysicalAddress::new(1) < PhysicalAddress::new(2));
}

#[test]
fn virtual_address_arithmetic() {
    let address = VirtualAddress::new(0xffff_8000);
    assert_eq!(address.next_multiple_of(0x1_0000), VirtualAddress::new(0x1_0000_0000));
    assert_eq!(address.last_multiple_of(0x1_0000), VirtualAddress::new(0xffff_0000));
    assert_eq!(address + 8, VirtualAddress::new(0xffff_8008));
    assert_eq!(address - 8, VirtualAddress::new(0xffff_7ff8));
    assert_eq!(address - VirtualAddress::new(0xffff_0000), 0x8000);
    assert_eq!(address % 0x1000, 0);
    assert_eq!(usize::from(address), 0xffff_8000);
    assert_eq!(VirtualAddress::from(12), VirtualAddress::new(12));
}

#[test]
fn identity_map_adds_its_base() {
    let token = initialize_identity_map(PhysicalAddress::new(0xffff_8000_0000_0000));
    let alias = to_virtual(PhysicalAddress::new(0x1234), token);
    assert_eq!(alias, VirtualAddress::new(0xffff_8000_0000_1234));
    assert!(has_alias(PhysicalAddress::new(0x7fff_ffff_ffff), token));
    assert!(!has_alias(PhysicalAddress::new(0x8000_0000_0000), token));
    assert!(!has_alias(PhysicalAddress::new(usize::MAX), token));
}

#[test]
fn segment_selector_packs_its_fields() {
    let selector = SegmentSelector::new(
        SegmentIndex::new(5),
        TableIndicator::Gdt,
        PrivilegeLevel::kernel(),
    );
    assert_eq!(selector.bits(), 5 << 3);
    assert_eq!(selector.index(), 5);
    assert_eq!(selector.table_indicator(), TableIndicator::Gdt);
    assert_eq!(selector.rpl(), PrivilegeLevel::new(0));
    let selector = SegmentSelector::new(
        SegmentIndex::new(8191),
        TableIndicator::Ldt,
        PrivilegeLevel::userspace(),
    );
    assert_eq!(selector.bits(), 0xffff);
    assert_eq!(selector.index(), 8191);
    assert_eq!(selector.table_indicator(), TableIndicator::Ldt);
    assert_eq!(selector.rpl().get(), 3);
    assert_eq!(SegmentSelector::null().bits(), 0);
    assert_eq!(SegmentSelector::null(), SegmentSelector::default());
}

#[test]
fn segment_selector_setters_touch_one_field() {
    let mut selector = SegmentSelector::new(
        SegmentIndex::new(0x1abc),
        TableIndicator::Ldt,
        PrivilegeLevel::new(2),
    );
    selector.set_index(SegmentIndex::new(1));
    assert_eq!(selector.bits(), (1 << 3) | (1 << 2) | 2);
    selector.set_rpl(PrivilegeLevel::new(1));
    assert_eq!(selector.bits(), (1 << 3) | (1 << 2) | 1);
    selector.set_table_indicator(TableIndicator::Gdt);
    assert_eq!(selector.bits(), (1 << 3) | 1);
    assert_eq!(u8::from(PrivilegeLevel::new(3)), 3);
    assert_eq!(SegmentIndex::new(77).get(), 77);
}

#[test]
fn idt_entry_data_packs_its_fields() {
    let data = IdtEntryData::new(IstIndex::new(5), GateType::interrupt(), PrivilegeLevel::new(3));
    assert_eq!(data.bits(), 5 | (0xE << 8) | (3 << 13) | (1 << 15));
    assert_eq!(data.ist(), IstIndex::new(5));
    assert_eq!(data.gate_type(), GateType::interrupt());
    assert_eq!(data.dpl(), PrivilegeLevel::new(3));
    assert!(data.present());
    let empty = IdtEntryData::empty();
    assert_eq!(empty.bits(), 0);
    assert!(!empty.present());
    assert_eq!(empty.ist(), IstIndex::unused());
    assert_eq!(empty.gate_type(), GateType::invalid());
}

#[test]
fn idt_entry_data_setters_touch_one_field() {
    let mut data = IdtEntryData::new(IstIndex::new(7), GateType::trap(), PrivilegeLevel::new(3));
    assert_eq!(data.bits(), 0xEF07);
    data.set_ist(IstIndex::new(2));
    assert_eq!(data.bits(), 0xEF02);
    data.set_gate_type(GateType::interrupt());
    assert_eq!(data.bits(), 0xEE02);
    data.set_dpl(PrivilegeLevel::new(0));
    assert_eq!(data.bits(), 0x8E02);
    data.set_present(false);
    assert_eq!(data.bits(), 0x0E02);
    data.set_present(true);
    assert_eq!(data.bits(), 0x8E02);
}

#[test]
fn gate_types_and_vectors() {
    assert!(GateType::interrupt().is_valid());
    assert!(GateType::trap().is_valid());
    assert!(!GateType::invalid().is_valid());
    assert_eq!(u8::from(GateType::trap()), 0xF);
    assert_eq!(GateType::interrupt().get(), 0xE);
    assert_eq!(IstIndex::new(3).get(), 3);
    assert!(IdtVector(0).is_predefined());
    assert!(IdtVector(31).is_predefined());
    assert!(!IdtVector(32).is_predefined());
    assert!(!IdtVector(255).is_predefined());
    assert_eq!(IdtVector::from(IdtVector::PAGE_FAULT), IdtVector(14));
    assert_eq!(u8::from(IdtVector(IdtVector::INVALID_OPCODE)), 6);
    assert_eq!(usize::from(ErrorCode::from(9)), 9);
}

#[test]
fn idt_entry_splits_and_joins_the_offset() {
    let selector = SegmentSelector::new(SegmentIndex::new(1), TableIndicator::Gdt, PrivilegeLevel::kernel());
    let entry = IdtEntry::new(
        0xffff_8000_1234_5678,
        selector,
        IstIndex::unused(),
        GateType::interrupt(),
        PrivilegeLevel::kernel(),
    );
    assert_eq!(entry.offset(), 0xffff_8000_1234_5678);
    assert_eq!(entry.segment, selector);
    assert_eq!(entry.data.bits(), 0x8E00);
    let mut entry = entry;
    entry.set_offset(0x1_0002_0003);
    assert_eq!(entry.offset(), 0x1_0002_0003);
    assert_eq!(entry.segment, selector);
    assert_eq!(entry.data.bits(), 0x8E00);
    let empty = IdtEntry::empty();
    assert_eq!(empty.offset(), 0);
    assert_eq!(empty.segment, SegmentSelector::null());
    assert!(!empty.data.present());
}

#[test]
fn idt_swaps_handlers() {
    let mut idt = Box::new(Idt::new());
    let vector = IdtVector(IdtVector::INVALID_OPCODE);
    for number in 0..=255u8 {
        let entry = idt.get(IdtVector(number));
        assert!(!entry.data.present());
        assert_eq!(entry.data.bits(), 0);
        assert_eq!(entry.offset(), 0);
        assert_eq!(entry.segment, SegmentSelector::null());
        assert_eq!(entry.reserved, 0);
    }
    let selector = SegmentSelector::new(SegmentIndex::new(5), TableIndicator::Gdt, PrivilegeLevel::kernel());
    assert!(idt.swap_handler(vector, 0x1000, selector).is_none());
    let entry = idt.get(vector);
    assert_eq!(entry.offset(), 0x1000);
    assert_eq!(entry.segment, selector);
    assert!(entry.data.present());
    assert_eq!(entry.data.gate_type(), GateType::trap());
    assert_eq!(entry.data.dpl(), PrivilegeLevel::userspace());
    assert_eq!(entry.data.ist(), IstIndex::unused());
    assert!(!idt.get(IdtVector(7)).data.present());
    let previous = idt.swap_handler(vector, 0x2000, selector).unwrap();
    assert_eq!(previous.offset(), 0x1000);
    assert_eq!(idt.get(vector).offset(), 0x2000);
}

#[test]
fn page_table_entry_flags() {
    let mut entry = PageTableEntry(0);
    assert!(!entry.present());
    entry.set_present(true);
    entry.set_writable(true);
    entry.set_no_execute(true);
    assert_eq!(entry.0, (1 << 63) | 0b11);
    assert!(entry.present());
    assert!(entry.writable());
    assert!(!entry.user());
    assert!(entry.no_execute());
    entry.set_writable(false);
    entry.set_user(true);
    assert_eq!(entry.0, (1 << 63) | 0b101);
    entry.set_flag(PageTableEntry::GLOBAL, true);
    assert!(entry.get_flag(PageTableEntry::GLOBAL));
    assert!(!entry.get_flag(PageTableEntry::DIRTY));
}

#[test]
fn page_table_entry_address() {
    assert_eq!(PAGE_SIZE, 4096);
    assert_eq!(ADDRESS_MASK, ((1u64 << 40) - 1) << 12);
    let mut entry = PageTableEntry((1 << 63) | 0b111);
    entry.set_address(PhysicalAddress::new(0x1234_5000));
    assert_eq!(entry.0, (1 << 63) | 0x1234_5000 | 0b111);
    assert_eq!(entry.address(), PhysicalAddress::new(0x1234_5000));
    // the bits below the frame and above bit 51 are dropped
    entry.set_address(PhysicalAddress::new(0xfff0_0000_0000_1fff));
    assert_eq!(entry.0, (1 << 63) | 0x1000 | 0b111);
    assert_eq!(entry.address(), PhysicalAddress::new(0x1000));
}

#[test]
fn rgb_packs_into_argb32() {
    let color = Rgb { r: 0x12, g: 0x34, b: 0x56 };
    assert_eq!(color.into_argb32(), 0x0012_3456);
    assert_eq!(Rgb::from_argb32(0xff12_3456), color);
    assert_eq!(Rgb::from_argb32(color.into_argb32()), color);
    assert_eq!(Rgb::from_argb32(0xab00_00ff).into_argb32(), 0xff);
    assert_eq!(Rgb::black().into_argb32(), 0);
    assert_eq!(Rgb::white().into_argb32(), 0xff_ffff);
    assert_eq!(Rgb::from(0x0001_0203), Rgb { r: 1, g: 2, b: 3 });
    assert_eq!(u32::from(Rgb { r: 1, g: 2, b: 3 }), 0x0001_0203);
}

#[test]
fn pixel_arithmetic() {
    let pixel = Pixel::from((3, 4));
    assert_eq!(pixel, Pixel { x: 3, y: 4 });
    assert_eq!(pixel + (1, 2), Pixel { x: 4, y: 6 });
    assert_eq!(pixel - (3, 1), Pixel { x: 0, y: 3 });
}

fn info(bpp: u8, color_mode: ColorMode) -> FramebufferInfo {
    FramebufferInfo {
        address: VirtualAddress::new(0xb8000),
        bpp,
        color_mode,
        width: 640,
        height: 480,
        stride: 2560,
    }
}

#[test]
fn raw_framebuffer_wants_rgb_of_32_bits() {
    assert!(RawFramebuffer::ARGB32_ONLY);
    assert!(RawFramebuffer::new(info(32, ColorMode::Rgb)).is_ok());
    assert!(RawFramebuffer::new(info(24, ColorMode::Rgb)).is_err());
    let custom = CustomColorMode {
        red_mask: 8,
        red_shift: 16,
        green_mask: 8,
        green_shift: 8,
        blue_mask: 8,
        blue_shift: 0,
    };
    assert!(RawFramebuffer::new(info(32, ColorMode::Custom(custom))).is_err());
}

#[test]
fn raw_framebuffer_places_pixels() {
    let framebuffer = RawFramebuffer::new(info(32, ColorMode::Rgb)).unwrap();
    assert!(framebuffer.contains(Pixel { x: 639, y: 479 }));
    assert!(!framebuffer.contains(Pixel { x: 640, y: 0 }));
    assert!(!framebuffer.contains(Pixel { x: 0, y: 480 }));
    assert_eq!(framebuffer.pixel_offset(Pixel { x: 0, y: 0 }), Some(0));
    assert_eq!(framebuffer.pixel_offset(Pixel { x: 3, y: 2 }), Some(2 * 2560 + 12));
    assert_eq!(framebuffer.pixel_offset(Pixel { x: usize::MAX, y: 0 }), None);
    assert_eq!(framebuffer.pixel_offset(Pixel { x: 0, y: usize::MAX }), None);
    let last_row = usize::MAX / 2560;
    assert_eq!(framebuffer.pixel_offset(Pixel { x: 1, y: last_row }), Some(last_row * 2560 + 4));
    assert_eq!(framebuffer.pixel_offset(Pixel { x: 1000, y: last_row }), None);
}

#[test]
fn rect_lies_on_its_framebuffer() {
    let raw = RawFramebuffer::new(info(32, ColorMode::Rgb)).unwrap();
    let framebuffer = Framebuffer::new(&raw);
    assert_eq!(framebuffer.raw().info.width, 640);
    let origin = Pixel { x: 192, y: 112 };
    assert!(Rect::check_fits(&framebuffer, origin, 256, 256));
    assert!(Rect::check_fits(&framebuffer, Pixel { x: 0, y: 0 }, 640, 480));
    assert!(!Rect::check_fits(&framebuffer, Pixel { x: 1, y: 0 }, 640, 480));
    assert!(!Rect::check_fits(&framebuffer, Pixel { x: 0, y: 225 }, 256, 256));
    assert!(!Rect::check_fits(&framebuffer, origin, usize::MAX, 1));
    let rect = Rect::new(&framebuffer, origin, 256, 256);
    assert_eq!(rect.width, 256);
    assert_eq!(rect.pixel(0, 0), origin);
    assert_eq!(rect.pixel(255, 255), Pixel { x: 447, y: 367 });
}

#[test]
fn cpuid_result_spells_the_vendor() {
    let result = CpuidResult::from((0xd, 0x756e_6547, 0x6c65_746e, 0x4965_6e69));
    assert_eq!(result.ebx, 0x756e_6547);
    assert_eq!(&brand(result), b"GenuineIntel");
    assert_eq!(time_stamp_counter(0x1234, 0x5678_9abc), 0x1234_5678_9abc);
}

#[test]
fn framebuffer_report_becomes_info() {
    let masks = CustomColorMode {
        red_mask: 5,
        red_shift: 11,
        green_mask: 6,
        green_shift: 5,
        blue_mask: 5,
        blue_shift: 0,
    };
    let report = FramebufferReport {
        address: 0xfd00_0000,
        width: 1024,
        height: 768,
        pitch: 4096,
        bpp: 32,
        rgb: true,
        masks,
    };
    let info = FramebufferInfo::from_report(report).unwrap();
    assert_eq!(info.address, VirtualAddress::new(0xfd00_0000));
    assert_eq!(info.width, 1024);
    assert_eq!(info.height, 768);
    assert_eq!(info.stride, 4096);
    assert_eq!(info.bpp, 32);
    assert_eq!(info.color_mode, ColorMode::Rgb);
    let custom = FramebufferInfo::from_report(FramebufferReport { rgb: false, bpp: 16, ..report }).unwrap();
    assert_eq!(custom.color_mode, ColorMode::Custom(masks));
    assert_eq!(custom.bpp, 16);
    assert!(FramebufferInfo::from_report(FramebufferReport { bpp: 256, ..report }).is_none());
    assert!(FramebufferInfo::from_report(FramebufferReport { bpp: 255, ..report }).is_some());
}
