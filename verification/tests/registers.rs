//! The concrete register modules: feature words, selectors, the
//! model-specific registers, the table register's byte codec, and the
//! memory-type tables.

use arch_reg::cpuid::feature::StdFeature;
use arch_reg::cpuid::Cpuid;
use arch_reg::cr::cr2::Cr2;
use arch_reg::cr::cr3::TBA;
use arch_reg::cr::cr8::{Cr8, TRR};
use arch_reg::cr::flags::{self, Flags};
use arch_reg::field::BitField;
use arch_reg::machine::Machine;
use arch_reg::mem::descriptor::gdtr::{GdtrBuffer, GDTR};
use arch_reg::mem::mttr::{MemType, MtrrCapBuffer, MtrrDefaultTypeBuffer, MtrrFix4K,
    MtrrPhysBaseBuffer, PhysBase};
use arch_reg::mem::segment::cs::Cs;
use arch_reg::mem::segment::selector::{Privilege, Selector};
use arch_reg::msr::efer::Efer;
use arch_reg::msr::{Msr, EFER_ADDR, SYSCFG_ADDR};
use arch_reg::arch::Arch;
use arch_reg::msr::syscfg::{Syscfg, SyscfgBuffer};
use arch_reg::ArchError;

#[test]
fn feature_test() {
    let m = Machine::new();
    if let Some(cpuid) = Cpuid::inst() {
        println!("{:#}", cpuid.std_feature(&m).describe());
    }
}

#[test]
fn size() {
    println!("{}", core::mem::size_of::<Efer>());
    println!("{}", core::mem::size_of::<arch_reg::msr::efer::EferBuffer>())
}

#[test]
fn cs_test() {
    let m = Machine::new();
    let cs = Cs::buffer(&m);
    println!("{}", cs.selector.rpl().describe());
}

#[test]
fn selector_fields() {
    // index 5, global table, requestor level 3
    let s = Selector::new((5 << 3) | 3);
    assert_eq!(s.rpl(), Privilege::pl3());
    assert_eq!(s.si(), 5);
    assert!(!s.ti());
    let t = Selector::new(1 << 2);
    assert!(t.ti());
    assert_eq!(t.rpl(), Privilege::pl0());
}

#[test]
fn privilege_names() {
    assert_eq!(Privilege::pl0().describe(), "PL0");
    assert_eq!(Privilege::pl1().describe(), "PL1");
    assert_eq!(Privilege::pl2().describe(), "PL2");
    assert_eq!(Privilege::pl3().describe(), "PL3");
    assert_eq!(Privilege::new(0), Privilege::pl0());
}

#[test]
fn feature_bits() {
    let f = StdFeature::new(1 | (1 << 17), 1 | (1 << 5));
    assert!(f.support_sse3());
    assert!(f.support_pcid());
    assert!(f.support_fpu());
    assert!(f.support_msr());
    let none = StdFeature::new(0, 0);
    assert!(!none.support_sse3());
    assert!(!none.support_pcid());
    assert!(!none.support_fpu());
    assert!(!none.support_msr());
    assert_eq!(none.describe(), "MSR: false\nSSE: false\n");
    assert_eq!(f.describe(), "MSR: true\nSSE: true\n");
}

#[test]
fn cpuid_query() {
    let mut m = Machine::new();
    m.cpuid_ecx = 0xdead;
    m.cpuid_edx = 0xbeef;
    let cpuid = Cpuid::inst().unwrap();
    let leaf1 = cpuid.query(&m, 1, 0);
    assert_eq!(leaf1.ecx, 0xdead);
    assert_eq!(leaf1.edx, 0xbeef);
    assert_eq!(leaf1.eax, 0);
}

#[test]
fn msr_addresses() {
    let mut m = Machine::new();
    m.efer = 0x500;
    m.syscfg = 0x40_0000;
    let mut msr = Msr::inst_uncheck();
    assert_eq!(msr.read(&m, EFER_ADDR), 0x500);
    assert_eq!(msr.read(&m, SYSCFG_ADDR), 0x40_0000);
    msr.write(&mut m, EFER_ADDR, 0x901, 0);
    assert_eq!(m.efer, 0x901);
    assert_eq!(m.syscfg, 0x40_0000);
    msr.write(&mut m, SYSCFG_ADDR, 0x9, 0);
    assert_eq!(m.syscfg, 0x9);
}

#[test]
fn msr_gate() {
    let m = Machine::new();
    let with_msr = StdFeature::new(0, 1 << 5);
    let without = StdFeature::new(0, 0);
    assert!(Msr::inst(&with_msr, &m).is_some());
    assert!(Msr::inst(&without, &m).is_none());
    let mut unprivileged = Machine::new();
    unprivileged.cs = 3;
    assert!(Msr::inst(&with_msr, &unprivileged).is_none());
}

#[test]
fn efer_long_mode() {
    let mut m = Machine::new();
    m.cpuid_edx = 1 << 5;
    m.efer = 1 << 10;
    let feature = StdFeature::new(m.cpuid_ecx, m.cpuid_edx);
    let efer = Efer::inst(&feature, &mut m).unwrap();
    let clean = efer.buffer(&mut m).unwrap();
    assert!(clean.long_mode_activated());
    clean.release(&mut m);
    efer.release(&mut m);
    m.efer = 0;
    let efer = Efer::inst(&feature, &mut m).unwrap();
    let clean = efer.buffer(&mut m).unwrap();
    assert!(!clean.long_mode_activated());
}

#[test]
fn enable_pcid_errors() {
    let mut m = Machine::new();
    m.cpuid_edx = 1 << 5;
    m.efer = 1 << 10;
    let feature_with_pcid = StdFeature::new(1 << 17, 1 << 5);
    let feature_without = StdFeature::new(0, 1 << 5);
    let arch = Arch::init(&mut m).unwrap();
    let ext = arch.extension(&mut m).unwrap();
    let efer_clean = ext.efer.buffer(&mut m).unwrap();
    let cr4_clean = ext.cr4.buffer(&mut m).unwrap();

    // feature absent: refused with the feature error
    let dirty = cr4_clean.asume_dirty();
    let dirty = match dirty.enable_pcid(&efer_clean, &feature_without) {
        Err((dirty, err)) => {
            assert_eq!(err, ArchError::PcidIsNotSupported);
            dirty
        }
        Ok(_) => panic!("the feature check did not refuse"),
    };

    // both conditions hold: the enable bit is set locally
    let dirty = match dirty.enable_pcid(&efer_clean, &feature_with_pcid) {
        Ok(dirty) => dirty,
        Err(_) => panic!("the enable was refused"),
    };
    let clean = dirty.flush(&mut m);
    assert_eq!(m.cr4, 1 << 17);
    clean.release(&mut m);

    // long mode inactive: refused with the mode error
    efer_clean.release(&mut m);
    m.efer = 0;
    let efer_clean = ext.efer.buffer(&mut m).unwrap();
    let cr4_clean = ext.cr4.buffer(&mut m).unwrap();
    match cr4_clean.asume_dirty().enable_pcid(&efer_clean, &feature_with_pcid) {
        Err((_dirty, err)) => assert_eq!(err, ArchError::LongModeInactivated),
        Ok(_) => panic!("the mode check did not refuse"),
    }
}

#[test]
fn cr2_reads_fault_address() {
    let mut m = Machine::new();
    m.cr2 = 0xdead_f000;
    let cr2 = Cr2::inst(&mut m).unwrap();
    let buffer = cr2.buffer(&mut m).unwrap();
    assert_eq!(
        buffer.read(&arch_reg::cr::cr2::PFVA::field()),
        0xdead_f000
    );
    buffer.release(&mut m);
    cr2.release(&mut m);
    m.cs = 3;
    assert!(Cr2::inst(&mut m).is_none());
}

/// Two sequential CR2 acquisitions with no release between them: the
/// second is refused; so is a second live snapshot.
#[test]
fn cr2_acquire_is_exclusive() {
    let mut m = Machine::new();
    let first = Cr2::inst(&mut m).unwrap();
    assert!(Cr2::inst(&mut m).is_none());
    let snapshot = first.buffer(&mut m).unwrap();
    assert!(first.buffer(&mut m).is_none());
    snapshot.release(&mut m);
    assert!(first.buffer(&mut m).is_some());
    first.release(&mut m);
    assert!(Cr2::inst(&mut m).is_some());
}

#[test]
fn cr3_pcid_view() {
    let mut m = Machine::new();
    m.cpuid_ecx = 1 << 17;
    m.cpuid_edx = 1 << 5;
    m.efer = 1 << 10;
    m.cr4 = 1 << 17;
    m.cr3 = (0x42 << 12) | 0x7;
    let arch = Arch::init(&mut m).unwrap();
    let ext = arch.extension(&mut m).unwrap();
    let efer_clean = ext.efer.buffer(&mut m).unwrap();
    let cr4_clean = ext.cr4.buffer(&mut m).unwrap();
    let cr3_clean = arch.cr3.buffer(&mut m).unwrap();
    let pcid_view = cr3_clean
        .into_pcid(&efer_clean, &cr4_clean, &mut m)
        .unwrap();
    assert_eq!(pcid_view.pcid(), 0x7);
    assert_eq!(pcid_view.read(&TBA::field()), 0x42);
    let dirty = pcid_view.asume_dirty().set_pcid(0xabc);
    let committed = dirty.flush(&mut m);
    assert_eq!(m.cr3, (0x42 << 12) | 0xabc);
    assert_eq!(committed.pcid(), 0xabc);
}

#[test]
fn cr3_pcid_gated() {
    let mut m = Machine::new();
    m.cpuid_edx = 1 << 5;
    m.efer = 1 << 10;
    // identifiers disabled in the control register
    m.cr4 = 0;
    let arch = Arch::init(&mut m).unwrap();
    let ext = arch.extension(&mut m).unwrap();
    let efer_clean = ext.efer.buffer(&mut m).unwrap();
    let cr4_clean = ext.cr4.buffer(&mut m).unwrap();
    let cr3_clean = arch.cr3.buffer(&mut m).unwrap();
    assert!(cr3_clean
        .into_pcid(&efer_clean, &cr4_clean, &mut m)
        .is_none());
    // the refused conversion returned the snapshot permit
    assert!(arch.cr3.buffer(&mut m).is_some());
}

#[test]
fn cr8_priority() {
    let mut m = Machine::new();
    m.cr8 = 0x9;
    let mut buffer = Cr8::buffer(&mut m).unwrap();
    assert_eq!(buffer.read(&TRR::field()), 0x9);
    // the snapshot permit is exclusive until released
    assert!(Cr8::buffer(&mut m).is_none());
    buffer.write(&TRR::field(), 0x3);
    buffer.flush(&mut m);
    assert_eq!(m.cr8, 0x3);
    buffer.release(&mut m);
    assert!(Cr8::buffer(&mut m).is_some());
}

#[test]
fn flags_interrupt_bit() {
    let mut m = Machine::new();
    m.rflags = 1 << 9;
    let buffer = Flags::buffer(&mut m).unwrap();
    assert_eq!(buffer.read(&flags::IF::field()), 1);
    buffer.release(&mut m);
    Flags::disable_if(&mut m);
    assert_eq!(m.rflags, 0);
    Flags::enable_if(&mut m);
    assert_eq!(m.rflags, 1 << 9);
    let mut local = Flags::buffer(&mut m).unwrap();
    assert!(Flags::buffer(&mut m).is_none());
    local.write(&flags::IOPL::field(), 3);
    local.flush(&mut m);
    local.release(&mut m);
    assert_eq!(m.rflags, (1 << 9) | (3 << 12));
    assert!(Flags::buffer(&mut m).is_some());
}

/// A flags load hides the resume and virtual-machine bits, and a flags
/// commit leaves the virtual-machine, virtual-interrupt and
/// interrupt-pending bits exactly as the register held them.
#[test]
fn flags_hidden_and_fixed_bits() {
    let mut m = Machine::new();
    // resume (16), virtual-machine (17), virtual-interrupt (19),
    // interrupt-pending (20), and carry (0)
    m.rflags = (1 << 16) | (1 << 17) | (1 << 19) | (1 << 20) | 1;
    let buffer = Flags::buffer(&mut m).unwrap();
    // the load exposes neither the resume nor the virtual-machine bit
    assert_eq!(buffer.read(&flags::VIF::field()), 1);
    let whole_word = BitField::rw(0, 64);
    assert_eq!(buffer.read(&whole_word), (1 << 19) | (1 << 20) | 1);
    // a commit writes none of the fixed bits: they keep the register's
    // old values whatever the buffer holds there
    let mut local = buffer;
    local.write(&flags::CF::field(), 0);
    local.write(&flags::ID::field(), 1);
    local.flush(&mut m);
    assert_eq!(
        m.rflags,
        (1 << 17) | (1 << 19) | (1 << 20) | (1 << 21)
    );
}

#[test]
fn gdtr_codec() {
    let bytes: Vec<u8> = vec![0x34, 0x12, 0xef, 0xbe, 0xad, 0xde, 0x01, 0x00, 0x00, 0x00];
    let buffer = GdtrBuffer::from_bytes(&bytes);
    assert_eq!(buffer.limit, 0x1234);
    assert_eq!(buffer.base_addr, 0x0000_0001_dead_beef);
    let back = buffer.to_bytes();
    assert_eq!(back, bytes);
}

#[test]
fn gdtr_machine_round_trip() {
    let mut m = Machine::new();
    m.gdtr_limit = 0x7ff;
    m.gdtr_base = 0xffff_8000_0000_1000;
    let buffer = GDTR::buffer(&mut m).unwrap();
    assert!(GDTR::buffer(&mut m).is_none());
    assert_eq!(buffer.limit, 0x7ff);
    assert_eq!(buffer.base_addr, 0xffff_8000_0000_1000);
    let mut m2 = Machine::new();
    buffer.flush(&mut m2);
    assert_eq!(m2.gdtr_limit, 0x7ff);
    assert_eq!(m2.gdtr_base, 0xffff_8000_0000_1000);
    buffer.release(&mut m);
    assert!(GDTR::buffer(&mut m).is_some());
}

#[test]
fn mtrr_tables() {
    assert_eq!(MtrrFix4K::LOW_REG_ADDR, 0x0267);
    assert_eq!(MtrrFix4K::TOP_REG_ADDR, 0x026f);
    assert_eq!(MemType::uc().code(), 0x00);
    assert_eq!(MemType::wc().code(), 0x01);
    assert_eq!(MemType::wt().code(), 0x04);
    assert_eq!(MemType::wp().code(), 0x05);
    assert_eq!(MemType::wb().code(), 0x06);

    let cap = MtrrCapBuffer::new((1 << 10) | (1 << 8) | 8);
    assert!(cap.supports_wc());
    assert!(cap.supports_fix());
    assert_eq!(cap.variable_range_count(), 8);

    let mut base = MtrrPhysBaseBuffer::new(0);
    base.write(&PhysBase::field(), 0x12345);
    base.set_mem_type(&MemType::wb());
    assert_eq!(base.read(&PhysBase::field()), 0x12345);
    assert_eq!(base.mem_type().code(), 0x06);

    let mut dt = MtrrDefaultTypeBuffer::new(0);
    dt.set_mem_type(&MemType::wt());
    dt.write(&arch_reg::mem::mttr::E::field(), 1);
    assert_eq!(dt.mem_type().code(), 0x04);
    assert_eq!(dt.read(&arch_reg::mem::mttr::E::field()), 1);
    assert_eq!(dt.read(&arch_reg::mem::mttr::FE::field()), 0);
}

#[test]
fn syscfg_round_trip() {
    let mut m = Machine::new();
    m.syscfg = 1 << 21;
    let buffer: SyscfgBuffer = Syscfg::buffer(&mut m).unwrap();
    assert!(Syscfg::buffer(&mut m).is_none());
    buffer.flush(&mut m);
    assert_eq!(m.syscfg, 1 << 21);
    buffer.release(&mut m);
    assert!(Syscfg::buffer(&mut m).is_some());
}

#[test]
fn machine_starts_cleared() {
    let m = Machine::new();
    assert_eq!(m.cr0, 0);
    assert_eq!(m.cs, 0);
    assert_eq!(m.gdtr_limit, 0);
}
