//! The snapshot protocol end to end: exclusivity, gating, commit, and
//! discard, all against explicitly built machine contexts.

use arch_reg::arch::extension::ArchExtension;
use arch_reg::arch::Arch;
use arch_reg::cpuid::Cpuid;
use arch_reg::cr::cr0::{self, Cr0};
use arch_reg::cr::cr2::Cr2;
use arch_reg::cr::cr4::Cr4;
use arch_reg::field::BitField;
use arch_reg::machine::Machine;
use arch_reg::ArchMutex;

#[test]
fn mutex_test() {
    let mut mutex = ArchMutex::new();
    assert_eq!(true, mutex.lock());
    assert_eq!(false, mutex.lock());
    assert_eq!(true, mutex.unlock());
    assert_eq!(false, mutex.unlock());
}

#[test]
fn cr0_instance() {
    let mut m = Machine::new();
    m.cr0 = 1 << 18;
    {
        let cr0 = Cr0::inst(&mut m).unwrap();
        let cr0_buffer_clean = cr0.buffer(&mut m).unwrap();
        if cr0_buffer_clean.read_flag(&cr0::AM::field()) {
            let cr0_buffer_dirty = cr0_buffer_clean.write(&cr0::AM::field(), 0);
            let flushed = cr0_buffer_dirty.flush(&mut m);
            flushed.release(&mut m);
        } else {
            cr0_buffer_clean.release(&mut m);
        }
        cr0.release(&mut m);
    }
    let cr0 = Cr0::inst(&mut m).unwrap();
    let _cr0_ro1 = cr0.buffer(&mut m).unwrap();
    assert_eq!(m.cr0, 0);
}

/// Two acquisitions with no release between them: the second is refused;
/// after the first handle's release a third succeeds.
#[test]
fn acquire_is_exclusive() {
    let mut m = Machine::new();
    let first = Cr0::inst(&mut m);
    assert!(first.is_some());
    let second = Cr0::inst(&mut m);
    assert!(second.is_none());
    first.unwrap().release(&mut m);
    let third = Cr0::inst(&mut m);
    assert!(third.is_some());
}

/// The snapshot permit is exclusive too: one live snapshot per register.
#[test]
fn snapshot_is_exclusive() {
    let mut m = Machine::new();
    let cr0 = Cr0::inst(&mut m).unwrap();
    let buffer = cr0.buffer(&mut m).unwrap();
    assert!(cr0.buffer(&mut m).is_none());
    buffer.release(&mut m);
    assert!(cr0.buffer(&mut m).is_some());
}

/// Acquisition is gated on privilege: a context outside the most
/// privileged level gets nothing.
#[test]
fn acquire_is_gated_on_privilege() {
    let mut m = Machine::new();
    m.cs = 3;
    assert!(Cr0::inst(&mut m).is_none());
    assert!(Cr4::inst(&mut m).is_none());
    assert!(Arch::init(&mut m).is_none());
    m.cs = 0;
    assert!(Cr0::inst(&mut m).is_some());
}

/// Field writes on a discarded dirty snapshot never reach the register:
/// a fresh load still observes the old bits.
#[test]
fn no_write_without_commit() {
    let mut m = Machine::new();
    m.cr0 = 0x10;
    let cr0 = Cr0::inst(&mut m).unwrap();
    let clean = cr0.buffer(&mut m).unwrap();
    let dirty = clean
        .write(&cr0::PE::field(), 1)
        .write(&cr0::MP::field(), 1);
    assert_eq!(dirty.read(&cr0::PE::field()), 1);
    dirty.discard(&mut m);
    assert_eq!(m.cr0, 0x10);
    let fresh = cr0.buffer(&mut m).unwrap();
    assert_eq!(fresh.read(&cr0::PE::field()), 0);
    assert_eq!(fresh.read(&cr0::AM::field()), 0);
    fresh.release(&mut m);
    cr0.release(&mut m);
}

/// The commit scenario: load reads 0x10, clearing the boolean field at
/// bit four empties the local buffer, the commit stores it, and a fresh
/// load returns zero.
#[test]
fn commit_scenario() {
    let mut m = Machine::new();
    m.cr0 = 0x0000_0010;
    let bit4 = BitField::flag(4);
    let cr0 = Cr0::inst(&mut m).unwrap();
    let clean = cr0.buffer(&mut m).unwrap();
    let dirty = clean.write(&bit4, 0);
    assert_eq!(dirty.read(&bit4), 0);
    let committed = dirty.flush(&mut m);
    committed.release(&mut m);
    cr0.release(&mut m);
    assert_eq!(m.cr0, 0x0000_0000);
    let cr0 = Cr0::inst(&mut m).unwrap();
    let fresh = cr0.buffer(&mut m).unwrap();
    assert_eq!(fresh.read(&bit4), 0);
}

/// A machine whose feature words advertise everything the extension path
/// checks on, running privileged with long mode active.
fn featureful_machine() -> Machine {
    let mut m = Machine::new();
    m.cpuid_edx = 1 << 5; // model-specific registers
    m.cpuid_ecx = 1 << 17; // process-context identifiers
    m.efer = 1 << 10; // long mode active
    m
}

/// The identifier capability is granted exactly when long mode is active
/// and the feature is advertised, and refused when either condition fails.
#[test]
fn pcid_extension_is_gated() {
    // both conditions hold
    let mut m = featureful_machine();
    let arch = Arch::init(&mut m).unwrap();
    let ext = arch.extension(&mut m).unwrap();
    let pcid = ext.pcid_extension(&mut m);
    assert!(pcid.is_some());
    pcid.unwrap().disable(&mut m);

    // long mode inactive
    let mut m = featureful_machine();
    m.efer = 0;
    let arch = Arch::init(&mut m).unwrap();
    let ext = arch.extension(&mut m).unwrap();
    assert!(ext.pcid_extension(&mut m).is_none());

    // feature absent
    let mut m = featureful_machine();
    m.cpuid_ecx = 0;
    let arch = Arch::init(&mut m).unwrap();
    let ext = arch.extension(&mut m).unwrap();
    assert!(ext.pcid_extension(&mut m).is_none());
}

/// Enabling the identifiers commits a word that differs from the loaded
/// one in exactly the enable bit.
#[test]
fn pcid_enable_flips_exactly_one_bit() {
    let mut m = featureful_machine();
    m.cr4 = 0x0000_0680;
    let arch = Arch::init(&mut m).unwrap();
    let ext = arch.extension(&mut m).unwrap();
    let pcid = ext.pcid_extension(&mut m).unwrap();
    assert!(pcid.disabled());
    pcid.enable(&mut m);
    assert_eq!(m.cr4, 0x0000_0680 | (1 << 17));

    let ext2 = ArchExtension {
        std_feature: ext.std_feature,
        cpuid: ext.cpuid,
        efer: ext.efer,
        cr4: ext.cr4,
    };
    let pcid = ext2.pcid_extension(&mut m).unwrap();
    assert!(pcid.enabled());
    pcid.disable(&mut m);
    assert_eq!(m.cr4, 0x0000_0680);
}

/// The whole-architecture handle is granted once and returns its permits
/// on release.
#[test]
fn arch_init_exclusive() {
    let mut m = Machine::new();
    let arch = Arch::init(&mut m).unwrap();
    assert!(Arch::init(&mut m).is_none());
    assert!(Cr0::inst(&mut m).is_none());
    assert!(Cr2::inst(&mut m).is_none());
    arch.release(&mut m);
    assert!(Arch::init(&mut m).is_some());
}

/// The extension handles are gated on the model-specific-register
/// feature.
#[test]
fn extension_is_gated_on_msr_feature() {
    let mut m = Machine::new();
    let arch = Arch::init(&mut m).unwrap();
    assert!(arch.extension(&mut m).is_none());

    let mut m = featureful_machine();
    let arch = Arch::init(&mut m).unwrap();
    let ext = arch.extension(&mut m);
    assert!(ext.is_some());
    let again = Cpuid::inst().unwrap();
    let feature = again.std_feature(&m);
    assert!(feature.support_msr());
}

/// Reverting a field returns its bits to the architectural default and
/// leaves the rest of the snapshot alone.
#[test]
fn revert_field_on_snapshot() {
    let mut m = Machine::new();
    m.cr0 = (1 << 18) | (1 << 16) | 1;
    let cr0 = Cr0::inst(&mut m).unwrap();
    let clean = cr0.buffer(&mut m).unwrap();
    let dirty = clean.revert(&cr0::AM::field());
    assert_eq!(dirty.read(&cr0::AM::field()), 0);
    assert_eq!(dirty.read(&cr0::WP::field()), 1);
    assert_eq!(dirty.read(&cr0::PE::field()), 1);
    let committed = dirty.flush(&mut m);
    committed.release(&mut m);
    assert_eq!(m.cr0, (1 << 16) | 1);
}

/// A clean snapshot chains reads through `output` without changing state.
#[test]
fn output_chains_reads() {
    let mut m = Machine::new();
    m.cr0 = (1 << 31) | (1 << 1);
    let cr0 = Cr0::inst(&mut m).unwrap();
    let clean = cr0.buffer(&mut m).unwrap();
    let mut pg: u64 = 0;
    let mut mp: u64 = 0;
    clean.output(&cr0::PG::field(), &mut pg).output(&cr0::MP::field(), &mut mp);
    assert_eq!(pg, 1);
    assert_eq!(mp, 1);
    assert!(clean.read_flag(&cr0::PG::field()));
}

/// Marking a clean snapshot dirty changes no bits; committing it writes
/// the same word back.
#[test]
fn asume_dirty_commits_same_bits() {
    let mut m = Machine::new();
    m.cr0 = 0xabcd;
    let cr0 = Cr0::inst(&mut m).unwrap();
    let clean = cr0.buffer(&mut m).unwrap();
    let committed = clean.asume_dirty().flush(&mut m);
    committed.release(&mut m);
    assert_eq!(m.cr0, 0xabcd);
}
