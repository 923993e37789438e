use fluorite::io::dma::{run_dma, DmaChannel, DmaControl, DmaTransfer};
use fluorite::io::interrupt_controller::InterruptRequest;
use fluorite::io::Cycle;

fn control(dest: u16, src: u16, repeat: bool, wide: bool, timing: u16, irq: bool) -> DmaControl {
    DmaControl {
        dest_addr_ctrl: dest,
        src_addr_ctrl: src,
        repeat,
        transfer_32: wide,
        start_timing: timing,
        irq,
        enable: true,
    }
}

#[test]
fn dma_run_counts_down_the_source_and_requests_its_interrupt() {
    let mut c = DmaChannel {
        num: 3,
        cnt: control(0, 1, false, false, 0, true),
        count: 5,
        sad_latch: 0x0300_0101,
        dad_latch: 0x0200_0201,
        count_latch: 3,
    };
    let mut rq = InterruptRequest(1);
    let r = run_dma(&mut c, &mut rq);
    assert!(!r.transfer_32);
    assert_eq!(r.internal_cycles, 2);
    assert_eq!(
        r.transfers,
        vec![
            DmaTransfer { cycle: Cycle::N, src: 0x0300_0100, dest: 0x0200_0200 },
            DmaTransfer { cycle: Cycle::S, src: 0x0300_00FE, dest: 0x0200_0202 },
            DmaTransfer { cycle: Cycle::S, src: 0x0300_00FC, dest: 0x0200_0204 },
        ]
    );
    assert_eq!(c.sad_latch, 0x0300_00FA);
    assert_eq!(c.dad_latch, 0x0200_0206);
    assert!(!c.cnt.enable);
    assert_eq!(c.count_latch, 3);
    assert_eq!(rq.0, 1 | (1 << 11));
}

#[test]
fn dma_repeat_reloads_count_and_destination() {
    let mut c = DmaChannel {
        num: 0,
        cnt: control(3, 0, true, true, 1, false),
        count: 7,
        sad_latch: 0xFFFF_FFFE,
        dad_latch: 0x0600_0003,
        count_latch: 2,
    };
    let mut rq = InterruptRequest(0);
    let r = run_dma(&mut c, &mut rq);
    assert!(r.transfer_32);
    assert_eq!(r.transfers[0].src, 0xFFFF_FFFC);
    assert_eq!(r.transfers[1].src, 0x0000_0000);
    assert_eq!(r.transfers[1].dest, 0x0600_0004);
    assert_eq!(c.sad_latch, 0x0000_0004);
    assert_eq!(c.dad_latch, 0x0600_0000);
    assert!(c.cnt.enable);
    assert_eq!(c.count_latch, 7);
    assert_eq!(rq.0, 0);
}

#[test]
fn dma_sound_fifo_moves_four_words_to_a_fixed_address() {
    let mut c = DmaChannel {
        num: 1,
        cnt: control(0, 0, true, false, 3, false),
        count: 0,
        sad_latch: 0x0200_0000,
        dad_latch: 0x0400_00A0,
        count_latch: 100,
    };
    let mut rq = InterruptRequest(0);
    let r = run_dma(&mut c, &mut rq);
    assert!(r.transfer_32);
    assert_eq!(r.transfers.len(), 4);
    assert!(r.transfers.iter().all(|t| t.dest == 0x0400_00A0));
    assert_eq!(r.transfers[3].src, 0x0200_000C);
    assert_eq!(c.sad_latch, 0x0200_0010);
    assert_eq!(c.dad_latch, 0x0400_00A0);
    assert_eq!(c.count_latch, 0);
}

#[test]
fn dma_with_no_units_leaves_the_latches() {
    let mut c = DmaChannel {
        num: 2,
        cnt: control(0, 0, false, false, 0, false),
        count: 1,
        sad_latch: 0x10,
        dad_latch: 0x20,
        count_latch: 0,
    };
    let mut rq = InterruptRequest(0);
    let r = run_dma(&mut c, &mut rq);
    assert!(r.transfers.is_empty());
    assert_eq!((c.sad_latch, c.dad_latch), (0x10, 0x20));
}
