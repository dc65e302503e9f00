use kernel_core::array_list::ArrayList;
use kernel_core::loader::load_apps;
use kernel_core::process::{Callback, CreateError, Process, State, CALLBACK_QUEUE_SIZE};

#[test]
fn create_rejects_null_entry() {
    match Process::create(0) {
        Err(e) => assert_eq!(e, CreateError::InvalidEntry),
        Ok(_) => panic!("a null entry address must be refused"),
    }
}

#[test]
fn create_hands_out_a_fresh_process() {
    let p = Process::create(0x1000).unwrap();
    assert_eq!(p.entry(), 0x1000);
    assert_eq!(p.state(), State::Running);
    assert_eq!(p.r0(), 0);
    assert_eq!(p.r1(), 0);
    assert_eq!(p.r2(), 0);
    assert_eq!(p.svc_number(), None);
    assert_eq!(p.callbacks_len(), 0);
}

#[test]
fn callback_queue_is_bounded_fifo() {
    let mut p = Process::create(0x1000).unwrap();
    for i in 0..CALLBACK_QUEUE_SIZE {
        assert!(p.enqueue_callback(Callback { fn_addr: 0x2000 + i, ctx: i }));
    }
    assert!(!p.enqueue_callback(Callback { fn_addr: 0x9999, ctx: 99 }));
    assert_eq!(p.callbacks_len(), CALLBACK_QUEUE_SIZE);
    assert_eq!(p.dequeue_callback(), Some(Callback { fn_addr: 0x2000, ctx: 0 }));
    assert_eq!(p.dequeue_callback(), Some(Callback { fn_addr: 0x2001, ctx: 1 }));
}

#[test]
fn record_trap_updates_marker_and_registers() {
    let mut p = Process::create(0x1000).unwrap();
    p.record_trap(Some(2), 4, 5, 6, 7);
    assert_eq!(p.svc_number(), Some(2));
    assert_eq!(p.r0(), 4);
    assert_eq!(p.r1(), 5);
    assert_eq!(p.r2(), 6);
    p.pop_syscall_marker();
    assert_eq!(p.svc_number(), None);
    p.set_r0(77);
    assert_eq!(p.r0(), 77);
}

#[test]
fn load_apps_stops_at_first_invalid_entry() {
    let mut procs: ArrayList<Process> = ArrayList::new(8);
    let table: Vec<usize> = vec![0, 0x100, 0x200];
    load_apps(&mut procs, &table);
    assert_eq!(procs.len(), 0);
}

#[test]
fn load_apps_keeps_the_valid_prefix() {
    let mut procs: ArrayList<Process> = ArrayList::new(8);
    let table: Vec<usize> = vec![0x100, 0, 0x200];
    load_apps(&mut procs, &table);
    assert_eq!(procs.len(), 1);
    assert_eq!(procs.get(0).entry(), 0x100);
}

#[test]
fn load_apps_loads_every_valid_entry() {
    let mut procs: ArrayList<Process> = ArrayList::new(8);
    let table: Vec<usize> = vec![0x100, 0x200, 0x300];
    load_apps(&mut procs, &table);
    assert_eq!(procs.len(), 3);
    assert_eq!(procs.get(0).entry(), 0x100);
    assert_eq!(procs.get(1).entry(), 0x200);
    assert_eq!(procs.get(2).entry(), 0x300);
    assert_eq!(procs.get(2).state(), State::Running);
}

#[test]
fn load_apps_stops_when_the_table_is_full() {
    let mut procs: ArrayList<Process> = ArrayList::new(2);
    let table: Vec<usize> = vec![0x100, 0x200, 0x300];
    load_apps(&mut procs, &table);
    assert_eq!(procs.len(), 2);
    assert_eq!(procs.get(1).entry(), 0x200);
}
