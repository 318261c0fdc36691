use core_affinity::mask_register::{core_ids_from_mask, thread_mask};
use core_affinity::policy_hint::{self, affinity_tag, core_ids_up_to};
use core_affinity::{stub, CoreId};

fn ids(v: &[usize]) -> Vec<CoreId> {
    v.iter().map(|&id| CoreId { id }).collect()
}

#[test]
fn test_windows_get_core_ids() {
    let n = num_cpus::get().min(64);
    let mask = if n == 64 { u64::MAX } else { (1u64 << n) - 1 };
    let set = core_ids_from_mask(mask);
    assert_eq!(set.len(), n);
}

#[test]
fn test_windows_set_for_current() {
    let ids = core_ids_from_mask(0b1111);

    assert!(ids.len() > 0);

    assert_ne!(thread_mask(ids[0]).unwrap(), 0);
}

#[test]
fn test_macos_get_core_ids() {
    match policy_hint::get_core_ids() {
        Some(set) => {
            assert_eq!(set.len(), num_cpus::get());
        }
        None => {
            assert!(false);
        }
    }
}

#[test]
fn test_macos_set_for_current() {
    let ids = policy_hint::get_core_ids().unwrap();
    assert!(ids.len() > 0);
    assert!(affinity_tag(ids[0]).is_some())
}

#[test]
fn four_bit_mask_gives_four_cores() {
    assert_eq!(core_ids_from_mask(0b1111), ids(&[0, 1, 2, 3]));
}

#[test]
fn mask_bits_decode_in_ascending_order() {
    assert_eq!(core_ids_from_mask(0b1010_0101), ids(&[0, 2, 5, 7]));
    assert_eq!(core_ids_from_mask(1u64 << 63 | 1), ids(&[0, 63]));
}

#[test]
fn empty_mask_gives_no_cores() {
    assert!(core_ids_from_mask(0).is_empty());
}

#[test]
fn full_mask_gives_sixty_four_cores() {
    let all: Vec<usize> = (0..64).collect();
    assert_eq!(core_ids_from_mask(u64::MAX), ids(&all));
}

#[test]
fn thread_mask_sets_one_bit() {
    assert_eq!(thread_mask(CoreId { id: 0 }), Some(1));
    assert_eq!(thread_mask(CoreId { id: 2 }), Some(4));
    assert_eq!(thread_mask(CoreId { id: 63 }), Some(1u64 << 63));
}

#[test]
fn thread_mask_refuses_core_beyond_mask() {
    assert_eq!(thread_mask(CoreId { id: 64 }), None);
    assert_eq!(thread_mask(CoreId { id: usize::MAX }), None);
}

#[test]
fn thread_mask_reads_back_as_its_core() {
    for id in [0usize, 2, 17, 63] {
        let mask = thread_mask(CoreId { id }).unwrap();
        assert_eq!(core_ids_from_mask(mask), ids(&[id]));
    }
}

#[test]
fn policy_hint_lists_every_logical_cpu() {
    let listed = policy_hint::get_core_ids().unwrap();
    let all: Vec<usize> = (0..num_cpus::get()).collect();
    assert_eq!(listed, ids(&all));
}

#[test]
fn cores_up_to_four() {
    assert_eq!(core_ids_up_to(4), ids(&[0, 1, 2, 3]));
    assert!(core_ids_up_to(0).is_empty());
}

#[test]
fn affinity_tag_is_the_core_number() {
    assert_eq!(affinity_tag(CoreId { id: 2 }), Some(2));
    assert_eq!(affinity_tag(CoreId { id: i32::MAX as usize }), Some(i32::MAX));
    assert_eq!(affinity_tag(CoreId { id: i32::MAX as usize + 1 }), None);
}

#[test]
fn stub_lists_nothing_and_pins_nothing() {
    assert_eq!(stub::get_core_ids(), None);
    assert!(!stub::set_for_current(CoreId { id: 0 }));
    assert!(!stub::set_for_current(CoreId { id: 3 }));
    assert_eq!(stub::get_core_ids(), None);
}

#[test]
fn core_ids_compare_by_number() {
    assert!(CoreId { id: 1 } < CoreId { id: 2 });
    assert_eq!(CoreId { id: 3 }, CoreId { id: 3 });
}
