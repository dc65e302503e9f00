use kernel_core::array_list::ArrayList;
use kernel_core::process::{Callback, Process, State};
use kernel_core::sched::{
    Kernel, SyscallAction, SyscallKind, COMMAND, DRIVER_ERROR, SUBSCRIBE, WAIT,
};

fn boot(n: usize, subscribe: Vec<usize>, cmd: Vec<usize>) -> Kernel {
    let mut procs: ArrayList<Process> = ArrayList::new(8);
    for i in 0..n {
        let p = Process::create(0x100 * (i + 1)).unwrap();
        assert!(procs.add(p));
    }
    Kernel::new(procs, subscribe, cmd)
}

#[test]
fn select_picks_the_running_process() {
    let mut kernel = boot(2, vec![], vec![]);
    let d = kernel.select_next().unwrap();
    assert_eq!(d.index, 0);
    assert_eq!(d.callback, None);
    assert_eq!(kernel.cursor(), 0);
}

#[test]
fn waiting_process_without_callback_is_skipped() {
    let mut kernel = boot(2, vec![], vec![]);

    // Process 0 yields: it waits and the cursor moves on.
    kernel.select_next().unwrap();
    kernel.record_trap(Some(WAIT), 0, 0, 0, 0);
    assert_eq!(kernel.handle_trap(), SyscallAction::Yielded);
    assert_eq!(kernel.process(0).state(), State::Waiting);
    assert_eq!(kernel.cursor(), 1);

    // Process 1 is still running, so the next pass picks it, not 0.
    let d = kernel.select_next().unwrap();
    assert_eq!(d.index, 1);
    assert_eq!(d.callback, None);

    // Process 1 yields too: now every process waits with an empty queue
    // and no execution happens at all.
    kernel.record_trap(Some(WAIT), 0, 0, 0, 0);
    assert_eq!(kernel.handle_trap(), SyscallAction::Yielded);
    assert_eq!(kernel.select_next(), None);
    assert_eq!(kernel.process(0).state(), State::Waiting);
    assert_eq!(kernel.process(1).state(), State::Waiting);

    // A posted callback makes process 0 schedulable again, and it is
    // resumed through that callback, not through its own context.
    let cb = Callback { fn_addr: 0x5000, ctx: 3 };
    assert!(kernel.post_callback(0, cb));
    let d = kernel.select_next().unwrap();
    assert_eq!(d.index, 0);
    assert_eq!(d.callback, Some(cb));
    assert_eq!(kernel.process(0).state(), State::Running);
    assert_eq!(kernel.process(0).callbacks_len(), 0);
}

#[test]
fn subscribe_routes_to_the_registered_driver() {
    let mut kernel = boot(1, vec![11, 22, 33], vec![44, 55]);
    kernel.select_next().unwrap();
    kernel.record_trap(Some(SUBSCRIBE), 2, 7, 9, 0);
    let action = kernel.handle_trap();
    assert_eq!(
        action,
        SyscallAction::Invoke { kind: SyscallKind::Subscribe, driver: 33, arg1: 7, arg2: 9 }
    );
    // The process keeps the cursor: no advancement on Subscribe.
    assert_eq!(kernel.cursor(), 0);
    kernel.complete_syscall(123);
    assert_eq!(kernel.process(0).r0(), 123);
}

#[test]
fn command_routes_to_the_registered_driver() {
    let mut kernel = boot(1, vec![11], vec![44, 55]);
    kernel.select_next().unwrap();
    kernel.record_trap(Some(COMMAND), 1, 2, 3, 0);
    let action = kernel.handle_trap();
    assert_eq!(
        action,
        SyscallAction::Invoke { kind: SyscallKind::Command, driver: 55, arg1: 2, arg2: 3 }
    );
    kernel.complete_syscall(1);
    assert_eq!(kernel.process(0).r0(), 1);
}

#[test]
fn out_of_range_driver_index_is_a_syscall_error_only() {
    let mut kernel = boot(1, vec![11], vec![44]);
    kernel.select_next().unwrap();
    kernel.record_trap(Some(COMMAND), 5, 0, 0, 0);
    assert_eq!(kernel.handle_trap(), SyscallAction::BadIndex);
    assert_eq!(kernel.process(0).r0(), DRIVER_ERROR);
    // The kernel stays alive and the process keeps running.
    assert_eq!(kernel.process(0).state(), State::Running);
    assert_eq!(kernel.cursor(), 0);
}

#[test]
fn unrecognized_trap_reason_continues() {
    let mut kernel = boot(1, vec![], vec![]);
    kernel.select_next().unwrap();
    kernel.record_trap(Some(9), 0, 0, 0, 0);
    assert_eq!(kernel.handle_trap(), SyscallAction::Continue);
    kernel.record_trap(None, 0, 0, 0, 0);
    assert_eq!(kernel.handle_trap(), SyscallAction::Continue);
    assert_eq!(kernel.process(0).state(), State::Running);
}

#[test]
fn wait_wraps_the_cursor_to_the_first_slot() {
    let mut kernel = boot(2, vec![], vec![]);
    kernel.select_next().unwrap();
    kernel.record_trap(Some(WAIT), 0, 0, 0, 0);
    kernel.handle_trap();
    assert_eq!(kernel.cursor(), 1);
    kernel.select_next().unwrap();
    kernel.record_trap(Some(WAIT), 0, 0, 0, 0);
    kernel.handle_trap();
    assert_eq!(kernel.cursor(), 0);
}
