use starryos_rk3588::gic500::{Gic500, IrqLine, TriggerMode, gic_init, LOWEST_PRIORITY, SPURIOUS_IRQ};
use starryos_rk3588::multicore::{
    BringupError, CpuInfo, CpuState, CpuTable, IpiTable, WaitStep, current_cpu_type,
    get_a55_online_count, get_a76_online_count, get_online_cpu_count, handle_ipi,
    multicore_init, poll_online, register_ipi_handler, send_ipi, start_all_cpus, start_cpu,
    wait_all_online, wait_cpu_online, WAKE_VECTOR,
};

#[test]
fn test_cpu_info() {
    let mut cpu = CpuInfo::new(0, 0);
    assert_eq!(cpu.id, 0);
    assert_eq!(cpu.cpu_type, 0);
    assert!(matches!(cpu.get_state(), CpuState::Offline));

    cpu.set_state(CpuState::Online);
    assert!(matches!(cpu.get_state(), CpuState::Online));
}

#[test]
fn test_cpu_type_detection() {
    let table = CpuTable::new();
    for id in 0..4 {
        let cpu = table.get(id);
        assert_eq!(cpu.cpu_type, 0);
    }
    for id in 4..8 {
        let cpu = table.get(id);
        assert_eq!(cpu.cpu_type, 1);
    }
}

#[test]
fn current_cpu_type_by_affinity_id() {
    assert_eq!(current_cpu_type(0), 0);
    assert_eq!(current_cpu_type(3), 0);
    assert_eq!(current_cpu_type(4), 1);
    assert_eq!(current_cpu_type(7), 1);
}

#[test]
fn started_core_that_announces_itself_is_counted_once() {
    let mut table = CpuTable::new();
    let mut gic = Gic500::new();
    gic_init(&mut gic, 0);
    table.set_state(0, CpuState::Online);
    let before = get_online_cpu_count(&table);
    assert_eq!(before, 1);
    assert_eq!(start_cpu(&mut table, &mut gic, 5), Ok(()));
    assert_eq!(table.get_state(5), CpuState::Starting);
    assert!(!wait_cpu_online(&table, 5, 1));
    // The woken core's entry code: its redistributor, then online.
    gic_init(&mut gic, 5);
    table.set_state(5, CpuState::Online);
    assert!(wait_cpu_online(&table, 5, 1));
    assert_eq!(get_online_cpu_count(&table), before + 1);
    assert_eq!(get_a55_online_count(&table), 1);
    assert_eq!(get_a76_online_count(&table), 1);
}

#[test]
fn start_cpu_rejects_unknown_core() {
    let mut table = CpuTable::new();
    let mut gic = Gic500::new();
    assert_eq!(start_cpu(&mut table, &mut gic, 8), Err(BringupError::InvalidIndex));
    assert_eq!(gic.read_iar(0), SPURIOUS_IRQ);
    assert!(!wait_cpu_online(&table, 8, 10));
}

#[test]
fn start_cpu_wakes_only_that_core() {
    let mut table = CpuTable::new();
    let mut gic = Gic500::new();
    start_cpu(&mut table, &mut gic, 2).unwrap();
    assert_eq!(gic.read_iar(2), WAKE_VECTOR);
    assert_eq!(gic.read_iar(2), SPURIOUS_IRQ);
    for c in [0u32, 1, 3, 4, 5, 6, 7] {
        assert_eq!(gic.read_iar(c), SPURIOUS_IRQ);
    }
}

#[test]
fn bring_up_without_answers_counts_boot_core_only() {
    let mut table = CpuTable::new();
    let mut gic = Gic500::new();
    let summary = multicore_init(&mut table, &mut gic, 2);
    assert_eq!(summary.online, 1);
    assert_eq!(summary.a76_online, 1);
    assert_eq!(summary.a55_online, 0);
    for id in 1..8 {
        assert_eq!(table.get_state(id), CpuState::Starting);
        assert_eq!(gic.read_iar(id), WAKE_VECTOR);
    }
    table.set_state(1, CpuState::Online);
    table.set_state(6, CpuState::Online);
    assert_eq!(wait_all_online(&table, 1), 3);
}

#[test]
fn start_all_marks_secondaries_starting() {
    let mut table = CpuTable::new();
    let mut gic = Gic500::new();
    start_all_cpus(&mut table, &mut gic);
    assert_eq!(table.get_state(0), CpuState::Offline);
    for id in 1..8 {
        assert_eq!(table.get_state(id), CpuState::Starting);
    }
}

#[test]
fn poll_decisions() {
    assert_eq!(poll_online(CpuState::Online, 0), WaitStep::Done(true));
    assert_eq!(poll_online(CpuState::Offline, 9), WaitStep::Done(false));
    assert_eq!(poll_online(CpuState::Starting, 0), WaitStep::Done(false));
    assert_eq!(poll_online(CpuState::Starting, 9), WaitStep::Poll(8));
}

fn record_ipi(_vector: u32, _cpu: u32) {}

#[test]
fn ipi_dispatch_runs_registered_handler_only() {
    let mut t: IpiTable<fn(u32, u32)> = IpiTable::new();
    assert!(!handle_ipi(&t, 3, 0));
    register_ipi_handler(&mut t, 3, record_ipi as fn(u32, u32));
    assert!(handle_ipi(&t, 3, 1));
    assert!(!handle_ipi(&t, 4, 1));
    register_ipi_handler(&mut t, 16, record_ipi as fn(u32, u32));
    assert!(!handle_ipi(&t, 16, 1));
}

#[test]
fn send_ipi_reaches_masked_cores() {
    let mut gic = Gic500::new();
    send_ipi(&mut gic, 1, 0b1010);
    assert_eq!(gic.read_iar(1), 1);
    assert_eq!(gic.read_iar(3), 1);
    assert_eq!(gic.read_iar(0), SPURIOUS_IRQ);
    send_ipi(&mut gic, 16, 0xFF);
    assert_eq!(gic.read_iar(0), SPURIOUS_IRQ);
}

#[test]
fn distributor_init_configures_shared_lines() {
    let mut gic = Gic500::new();
    gic.set_pending(40);
    gic.enable_interrupt(40);
    gic.init_gicd();
    assert_eq!(gic.read_iar(0), SPURIOUS_IRQ);
    gic.enable_interrupt(40);
    gic.set_pending(40);
    gic.set_priority(40, 0x10);
    gic.set_pending(50);
    gic.enable_interrupt(50);
    assert_eq!(gic.read_iar(0), 40);
    assert_eq!(gic.read_iar(0), 50);
    gic.write_eoir(0, 40);
    gic.write_eoir(0, 50);
    assert_eq!(gic.read_iar(0), SPURIOUS_IRQ);
}

#[test]
fn priority_then_lowest_id_wins() {
    let mut gic = Gic500::new();
    gic.init_gicd();
    for irq in [100u32, 60, 70] {
        gic.enable_interrupt(irq);
        gic.set_pending(irq);
    }
    gic.set_priority(100, 0x20);
    gic.set_priority(60, 0x80);
    gic.set_priority(70, 0x80);
    assert_eq!(gic.read_iar(4), 100);
    assert_eq!(gic.read_iar(4), 60);
    assert_eq!(gic.read_iar(4), 70);
}

#[test]
fn out_of_range_line_operations_are_ignored() {
    let mut gic = Gic500::new();
    gic.init_gicd();
    gic.enable_interrupt(20);
    gic.set_pending(20);
    gic.set_pending(1020);
    gic.disable_interrupt(5);
    gic.set_priority(1019, 0);
    gic.enable_interrupt(1019);
    assert_eq!(gic.read_iar(0), SPURIOUS_IRQ);
    gic.set_pending(1019);
    assert_eq!(gic.read_iar(0), 1019);
    gic.disable_interrupt(1019);
    gic.set_pending(1019);
    assert_eq!(gic.read_iar(0), SPURIOUS_IRQ);
}

#[test]
fn core_private_init_clears_its_lines() {
    let mut gic = Gic500::new();
    gic.send_sgi(7, 0b11);
    gic.init_gicr(0);
    assert_eq!(gic.read_iar(0), SPURIOUS_IRQ);
    assert_eq!(gic.read_iar(1), 7);
    gic.init_gicr(9);
    let _ = IrqLine {
        enabled: false,
        pending: false,
        active: false,
        group: 0,
        priority: LOWEST_PRIORITY,
        trigger: TriggerMode::Level,
    };
}
