use battle_royale_os::cmdline::{boot_modes, contains_bytes};
use battle_royale_os::memory::dma::{
    alloc_dma, alloc_dma_page, init_dma_pool, phys_to_virt, virt_to_phys, DmaAllocator, MemoryRegion, MAX_DMA_PAGES,
    PAGE_SIZE,
};
use battle_royale_os::memory::paging::{
    leaf_entry, map_mmio, next_table, pd_index, pdpt_index, pml4_index, pt_index, set_hhdm_offset, table_entry,
    PagingState, MMIO_FLAGS, MMIO_MAP_BASE,
};
use battle_royale_os::net::protocol::{handle_packet, join_response, process_incoming, PacketAction};
use battle_royale_os::net::server::{ServerClock, ServerStep, TSC_PER_SECOND, TSC_PER_TICK};
use battle_royale_os::protocol::packets::Packet;
use battle_royale_os::smp::scheduler::{
    core_role, cpu_count, current_frame, end_render, init, next_frame, should_shutdown, shutdown, start_render,
    CoreData, CoreRole, CoreStart, FrameSignals,
};
use battle_royale_os::smp::sync::{CoreBarrier, SpinLock, WorkCounter};

#[test]
fn spinlock_try_lock_fails_while_held() {
    let mut l = SpinLock::new();
    assert!(l.try_lock());
    assert!(!l.try_lock());
    l.unlock();
    l.lock();
    assert!(!l.try_lock());
    l.unlock();
    assert!(l.try_lock());
}

#[test]
fn barrier_opens_on_last_arrival() {
    let mut b = CoreBarrier::new(3);
    assert_eq!(b.wait(), Some(0));
    assert_eq!(b.wait(), Some(0));
    assert_eq!(b.wait(), None);
    // next generation
    assert_eq!(b.wait(), Some(1));
    b.reset(3);
    assert_eq!(b.wait(), Some(1));
    assert_eq!(b.wait(), Some(1));
    assert_eq!(b.wait(), None);
    assert_eq!(b.wait(), Some(2));
}

#[test]
fn work_counter_hands_out_each_item_once() {
    let mut w = WorkCounter::new(3);
    assert!(!w.is_done());
    assert_eq!(w.get_next(), Some(0));
    assert_eq!(w.get_next(), Some(1));
    assert_eq!(w.get_next(), Some(2));
    assert_eq!(w.get_next(), None);
    assert_eq!(w.get_next(), None);
    assert!(w.is_done());
    w.reset();
    assert!(!w.is_done());
    assert_eq!(w.get_next(), Some(0));
    let mut empty = WorkCounter::new(0);
    assert!(empty.is_done());
    assert_eq!(empty.get_next(), None);
}

#[test]
fn core_roles() {
    assert_eq!(core_role(0), CoreRole::GameLogic);
    assert_eq!(core_role(1), CoreRole::Rasterizer(0));
    assert_eq!(core_role(3), CoreRole::Rasterizer(2));
    assert_eq!(core_role(4), CoreRole::Network);
    assert_eq!(core_role(5), CoreRole::GameLogic);
    let c = CoreData::new(2, CoreRole::Rasterizer(1));
    assert_eq!(c.id, 2);
    assert!(!c.running);
}

#[test]
fn start_plan_sends_each_core_to_its_entry() {
    assert_eq!(cpu_count(None), 1);
    assert_eq!(cpu_count(Some(6)), 6);
    assert!(init(None).is_none());
    let plan = init(Some(6)).unwrap();
    assert_eq!(plan.active_cores, 6);
    assert_eq!(
        plan.starts,
        vec![
            CoreStart::Bootstrap,
            CoreStart::Rasterizer,
            CoreStart::Rasterizer,
            CoreStart::Rasterizer,
            CoreStart::Network,
            CoreStart::Idle
        ]
    );
    let single = init(Some(1)).unwrap();
    assert_eq!(single.starts, vec![CoreStart::Bootstrap]);
}

#[test]
fn frame_signals() {
    let mut s = FrameSignals::new();
    assert_eq!(current_frame(&s), 0);
    start_render(&mut s);
    assert!(s.render_start);
    end_render(&mut s);
    assert!(!s.render_start);
    next_frame(&mut s);
    next_frame(&mut s);
    assert_eq!(current_frame(&s), 2);
    s.frame = u32::MAX;
    next_frame(&mut s);
    assert_eq!(current_frame(&s), 0);
    assert!(!should_shutdown(&s));
    shutdown(&mut s);
    assert!(should_shutdown(&s));
}

#[test]
fn dma_pool_hands_out_pages_in_order() {
    let mut pool = DmaAllocator::new();
    assert_eq!(pool.available(), 0);
    pool.add_page(0x200_0000);
    pool.add_page(0x200_1000);
    assert_eq!(pool.available(), 2);
    assert_eq!(pool.alloc_page(0x1000), Some((0x200_0000, 0x200_1000)));
    assert_eq!(pool.available(), 1);
    assert_eq!(alloc_dma_page(&mut pool, 0x1000), Some((0x200_1000, 0x200_2000)));
    assert_eq!(pool.alloc_page(0x1000), None);
    assert_eq!(pool.available(), 0);
}

#[test]
fn dma_pool_skips_empty_slots() {
    let mut pool = DmaAllocator::new();
    pool.add_page(0);
    pool.add_page(0x300_0000);
    assert_eq!(pool.alloc_page(0), None);
    assert_eq!(pool.alloc_page(0), Some((0x300_0000, 0x300_0000)));
}

#[test]
fn dma_alloc_pages_all_or_nothing() {
    let mut pool = DmaAllocator::new();
    pool.add_page(0x100_0000);
    pool.add_page(0x100_1000);
    pool.add_page(0x100_2000);
    let pages = pool.alloc_pages(2, 0x10).unwrap();
    assert_eq!(pages, vec![(0x100_0000, 0x100_0010), (0x100_1000, 0x100_1010)]);
    assert_eq!(pool.alloc_pages(2, 0x10), None);
}

#[test]
fn dma_buffers() {
    let mut pool = DmaAllocator::new();
    for i in 0..4u64 {
        pool.add_page(0x400_0000 + i * 0x1000);
    }
    let one = alloc_dma(&mut pool, 0x8000, 100).unwrap();
    assert_eq!((one.virt, one.phys, one.size), (0x400_8000, 0x400_0000, 100));
    let big = alloc_dma(&mut pool, 0x8000, PAGE_SIZE + 1).unwrap();
    assert_eq!((big.virt, big.phys, big.size), (0x400_9000, 0x400_1000, PAGE_SIZE + 1));
    assert_eq!(pool.available(), 1);
    assert!(alloc_dma(&mut pool, 0x8000, 3 * PAGE_SIZE).is_none());
}

#[test]
fn hhdm_translation() {
    assert_eq!(phys_to_virt(0xFFFF_8000_0000_0000, 0x1234), 0xFFFF_8000_0000_1234);
    assert_eq!(virt_to_phys(0xFFFF_8000_0000_0000, 0xFFFF_8000_0000_1234), 0x1234);
    assert_eq!(virt_to_phys(0x10, 0x4), 0u64.wrapping_sub(0xC));
}

#[test]
fn dma_pool_from_memory_map() {
    let regions = vec![
        // below the 16 MB floor: only the part above it counts
        MemoryRegion { base: 0x80_0000, length: 0x80_3000, usable: true },
        // reserved: skipped
        MemoryRegion { base: 0x200_0000, length: 0x10_0000, usable: false },
        // unaligned start, room for one whole page
        MemoryRegion { base: 0x300_0010, length: 0x2000, usable: true },
    ];
    let mut pool = DmaAllocator::new();
    let added = init_dma_pool(&mut pool, &regions);
    assert_eq!(added, 4);
    assert_eq!(pool.available(), 4);
    assert_eq!(pool.alloc_page(0), Some((0x100_0000, 0x100_0000)));
    assert_eq!(pool.alloc_page(0), Some((0x100_1000, 0x100_1000)));
    assert_eq!(pool.alloc_page(0), Some((0x100_2000, 0x100_2000)));
    assert_eq!(pool.alloc_page(0), Some((0x300_1000, 0x300_1000)));
    assert_eq!(pool.alloc_page(0), None);
}

#[test]
fn dma_pool_stops_at_capacity() {
    let regions = vec![MemoryRegion { base: 0x1000_0000, length: 0x1000_0000, usable: true }];
    let mut pool = DmaAllocator::new();
    assert_eq!(init_dma_pool(&mut pool, &regions), MAX_DMA_PAGES);
    assert_eq!(pool.available(), MAX_DMA_PAGES);
    let empty: Vec<MemoryRegion> = Vec::new();
    let mut other = DmaAllocator::new();
    assert_eq!(init_dma_pool(&mut other, &empty), 0);
}

#[test]
fn page_table_indices() {
    let virt: u64 = 0xFFFF_FFFF_9000_3000;
    assert_eq!(pml4_index(virt), 511);
    assert_eq!(pdpt_index(virt), 510);
    assert_eq!(pd_index(virt), 128);
    assert_eq!(pt_index(virt), 3);
    assert_eq!(pml4_index(0x0000_0080_0000_0000), 1);
}

#[test]
fn page_table_entries() {
    assert_eq!(next_table(0), None);
    assert_eq!(next_table(0x1234_5000 | 0x3), Some(0x1234_5000));
    assert_eq!(next_table(0x8000_0000_1234_5063), Some(0x1234_5000));
    assert_eq!(table_entry(0x5000), 0x5003);
    assert_eq!(next_table(table_entry(0x7000)), Some(0x7000));
    assert_eq!(leaf_entry(0xFEB0_0000), 0x8000_0000_FEB0_001B);
    assert_eq!(MMIO_FLAGS & 0x1, 1);
}

#[test]
fn mmio_plans() {
    let mut st = PagingState::new();
    assert!(map_mmio(&mut st, 0xFEB0_0000, 0x20000).is_none());
    assert_eq!(st.mmio_next, MMIO_MAP_BASE);
    set_hhdm_offset(&mut st, 0xFFFF_8000_0000_0000);
    let plan = map_mmio(&mut st, 0xFEB0_0010, 0x1FF0).unwrap();
    assert_eq!(plan.phys_aligned, 0xFEB0_0000);
    assert_eq!(plan.virt_base, MMIO_MAP_BASE);
    assert_eq!(plan.addr, MMIO_MAP_BASE + 0x10);
    assert_eq!(plan.pages, vec![(MMIO_MAP_BASE, 0xFEB0_0000), (MMIO_MAP_BASE + 0x1000, 0xFEB0_1000)]);
    assert_eq!(st.mmio_next, MMIO_MAP_BASE + 0x2000);
    let next = map_mmio(&mut st, 0xFEC0_0FFF, 2).unwrap();
    assert_eq!(next.pages.len(), 2);
    assert_eq!(next.addr, MMIO_MAP_BASE + 0x2FFF);
}

#[test]
fn server_ticks_and_broadcasts() {
    assert_eq!(TSC_PER_SECOND / TSC_PER_TICK, 20);
    let mut clock = ServerClock::new(1000);
    assert_eq!(clock.step(1000), ServerStep::Idle);
    let mut now = 1000 + TSC_PER_TICK;
    for t in 1..=12u64 {
        let step = clock.step(now);
        assert_eq!(step, ServerStep::Tick { tick: t, broadcast: true, status: None });
        now += TSC_PER_TICK;
    }
    let late = 1000 + 11 * TSC_PER_SECOND;
    assert_eq!(clock.step(late), ServerStep::Tick { tick: 13, broadcast: true, status: Some(11) });
    assert_eq!(clock.last_status_tsc, late);
    assert_eq!(clock.next_tick_tsc, late + TSC_PER_TICK);
    assert_eq!(clock.step(late + 1), ServerStep::Idle);
}

#[test]
fn packet_dispatch() {
    let resp = join_response(7);
    assert_eq!(resp, vec![2, 7]);
    assert!(matches!(process_incoming(&resp, false), PacketAction::SetLocalPlayer { player_id: 7 }));
    assert!(matches!(process_incoming(&[], true), PacketAction::Ignore));
    assert!(matches!(process_incoming(&[0xEE, 1, 2], true), PacketAction::Ignore));
    let join = Packet::JoinRequest { name: String::from("ann") };
    match handle_packet(join, true) {
        PacketAction::AdmitPlayer { name } => assert_eq!(name, "ann"),
        _ => panic!("join request not admitted"),
    }
}

#[test]
fn dma_buffer_of_scattered_pages_is_its_first_page() {
    let mut pool = DmaAllocator::new();
    pool.add_page(0x500_0000);
    pool.add_page(0x500_3000);
    let b = alloc_dma(&mut pool, 0x8000, 2 * PAGE_SIZE).unwrap();
    assert_eq!((b.virt, b.phys, b.size), (0x500_8000, 0x500_0000, PAGE_SIZE));
    assert_eq!(pool.available(), 0);
}

#[test]
fn boot_modes_from_command_line() {
    let m = boot_modes(b"quiet server benchmark");
    assert!(m.server && m.benchmark && !m.test);
    let m = boot_modes(b"mode=latest");
    assert!(!m.server && !m.benchmark && m.test);
    let m = boot_modes(&[0xFF, b's', b'e', b'r', b'v', b'e', b'r']);
    assert!(!m.server && !m.benchmark && !m.test);
    assert!(contains_bytes(b"abc", b""));
    assert!(!contains_bytes(b"ab", b"abc"));
    assert!(contains_bytes(b"xxabc", b"abc"));
}
