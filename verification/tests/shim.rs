use yalp_wasm::shim::{dealloc, reserve, Shim};
use yalp_wasm::violation::Violation;

#[test]
fn reserved_buffer_is_held_until_released() {
    let mut shim = Shim::new();
    assert_eq!(shim.count(), 0);
    let address = reserve(&mut shim, 64);
    assert_ne!(address, 0);
    assert!(shim.holds(address, 64));
    assert_eq!(shim.count(), 1);
    assert_eq!(dealloc(&mut shim, address, 64), Ok(()));
    assert!(!shim.holds(address, 64));
    assert_eq!(shim.count(), 0);
}

#[test]
fn release_with_another_size_is_refused() {
    let mut shim = Shim::new();
    let address = reserve(&mut shim, 64);
    assert_eq!(dealloc(&mut shim, address, 63), Err(Violation::UnmatchedRelease));
    assert_eq!(dealloc(&mut shim, address, 65), Err(Violation::UnmatchedRelease));
    assert_eq!(dealloc(&mut shim, address, 0), Err(Violation::UnmatchedRelease));
    assert!(shim.holds(address, 64));
    assert_eq!(shim.count(), 1);
}

#[test]
fn release_at_another_address_is_refused() {
    let mut shim = Shim::new();
    let address = reserve(&mut shim, 64);
    assert_eq!(dealloc(&mut shim, address + 1, 64), Err(Violation::UnmatchedRelease));
    assert!(shim.holds(address, 64));
}

#[test]
fn second_release_is_refused() {
    let mut shim = Shim::new();
    let address = reserve(&mut shim, 16);
    assert_eq!(dealloc(&mut shim, address, 16), Ok(()));
    assert_eq!(dealloc(&mut shim, address, 16), Err(Violation::UnmatchedRelease));
}

#[test]
fn release_on_an_empty_shim_is_refused() {
    let mut shim = Shim::new();
    assert_eq!(dealloc(&mut shim, 4096, 16), Err(Violation::UnmatchedRelease));
    assert_eq!(shim.count(), 0);
}

#[test]
fn live_buffers_have_addresses_of_their_own() {
    let mut shim = Shim::new();
    let first = reserve(&mut shim, 32);
    let second = reserve(&mut shim, 32);
    let third = reserve(&mut shim, 8);
    assert_ne!(first, second);
    assert_ne!(first, third);
    assert_ne!(second, third);
    assert!(first.abs_diff(second) >= 32);
}

#[test]
fn empty_buffers_are_counted_one_by_one() {
    let mut shim = Shim::new();
    let first = reserve(&mut shim, 0);
    let second = reserve(&mut shim, 0);
    assert_ne!(first, 0);
    assert_ne!(second, 0);
    assert_eq!(shim.count(), 2);
    assert_eq!(dealloc(&mut shim, first, 0), Ok(()));
    assert_eq!(shim.count(), 1);
    assert_eq!(dealloc(&mut shim, second, 0), Ok(()));
    assert_eq!(shim.count(), 0);
    assert_eq!(dealloc(&mut shim, second, 0), Err(Violation::UnmatchedRelease));
}

#[test]
fn releasing_one_buffer_leaves_the_others_live() {
    let mut shim = Shim::new();
    let sizes = [1usize, 7, 64, 3, 4096, 12];
    let addresses: Vec<usize> = sizes.iter().map(|size| reserve(&mut shim, *size)).collect();
    assert_eq!(dealloc(&mut shim, addresses[2], sizes[2]), Ok(()));
    assert_eq!(dealloc(&mut shim, addresses[0], sizes[0]), Ok(()));
    for place in [1usize, 3, 4, 5] {
        assert!(shim.holds(addresses[place], sizes[place]));
    }
    assert!(!shim.holds(addresses[0], sizes[0]));
    assert!(!shim.holds(addresses[2], sizes[2]));
    assert_eq!(shim.count(), 4);
}

#[test]
fn paired_calls_in_any_order_leave_what_was_not_released() {
    let mut shim = Shim::new();
    let mut live: Vec<(usize, usize)> = Vec::new();
    let mut seed: u64 = 0x2545_f491_4f6c_dd1d;
    for _ in 0..2000 {
        seed ^= seed << 13;
        seed ^= seed >> 7;
        seed ^= seed << 17;
        if live.is_empty() || seed % 3 != 0 {
            let size = 1 + (seed >> 8) as usize % 257;
            let address = reserve(&mut shim, size);
            assert!(!live.iter().any(|(held, _)| *held == address));
            live.push((address, size));
        } else {
            let place = (seed >> 8) as usize % live.len();
            let (address, size) = live.swap_remove(place);
            assert_eq!(dealloc(&mut shim, address, size), Ok(()));
            assert!(!shim.holds(address, size));
        }
        assert_eq!(shim.count(), live.len());
        for (address, size) in &live {
            assert!(shim.holds(*address, *size));
        }
    }
    while let Some((address, size)) = live.pop() {
        assert_eq!(dealloc(&mut shim, address, size), Ok(()));
    }
    assert_eq!(shim.count(), 0);
}
