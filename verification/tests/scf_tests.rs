use nimbos_scf::scf::{
    handle_irq, linux_ipi_handler, uintr_ipi_handler, IpiTarget, QueueTable, SyscallQueueBuffer, SyscallResponse, SyscallToken, Wakeup, SCF,
};

fn rsp(cond_var: u64, ret_val: u64) -> SyscallResponse {
    SyscallResponse { token: SyscallToken { cond_var }, ret_val }
}

#[test]
fn scf_new_has_one_user() {
    let scf = SCF::new(3);
    assert_eq!(scf.slot_num, 3);
    assert_eq!(scf.ref_cnt, 1);
}

#[test]
fn token_validity() {
    assert!(SyscallToken { cond_var: 0x1000 }.is_valid());
    assert!(!SyscallToken { cond_var: 0 }.is_valid());
}

#[test]
fn queue_is_fifo() {
    let mut q = SyscallQueueBuffer::new();
    assert_eq!(q.pop_response(), None);
    q.push_response(rsp(1, 10));
    q.push_response(rsp(2, 20));
    assert_eq!(q.len(), 2);
    assert_eq!(q.pop_response(), Some(rsp(1, 10)));
    assert_eq!(q.pop_response(), Some(rsp(2, 20)));
    assert_eq!(q.pop_response(), None);
    assert_eq!(q.len(), 0);
}

#[test]
fn scf_queue_is_its_slot() {
    let mut table = QueueTable::new(4);
    let scf = SCF::new(2);
    scf.queue(&mut table).push_response(rsp(5, 50));
    assert_eq!(table.get_queue(2).len(), 1);
    assert_eq!(table.get_queue(0).len(), 0);
    assert_eq!(table.get_queue(3).len(), 0);
    assert_eq!(table.slot_count(), 4);
}

#[test]
fn handle_irq_wakes_in_slot_then_arrival_order() {
    let mut table = QueueTable::new(3);
    SCF::new(2).queue(&mut table).push_response(rsp(30, 3));
    SCF::new(0).queue(&mut table).push_response(rsp(10, 1));
    SCF::new(0).queue(&mut table).push_response(rsp(11, 2));
    let wakeups = handle_irq(&mut table);
    assert_eq!(
        wakeups,
        vec![
            Wakeup { cond_var: 10, ret_val: 1 },
            Wakeup { cond_var: 11, ret_val: 2 },
            Wakeup { cond_var: 30, ret_val: 3 },
        ]
    );
}

#[test]
fn handle_irq_drops_answers_nobody_waits_for() {
    let mut table = QueueTable::new(1);
    let scf = SCF::new(0);
    scf.queue(&mut table).push_response(rsp(0, 99));
    scf.queue(&mut table).push_response(rsp(7, 8));
    let wakeups = handle_irq(&mut table);
    assert_eq!(wakeups, vec![Wakeup { cond_var: 7, ret_val: 8 }]);
    assert_eq!(table.get_queue(0).len(), 0);
}

#[test]
fn handle_irq_empties_every_queue() {
    let mut table = QueueTable::new(2);
    SCF::new(0).queue(&mut table).push_response(rsp(1, 1));
    SCF::new(1).queue(&mut table).push_response(rsp(0, 2));
    handle_irq(&mut table);
    assert_eq!(table.get_queue(0).len(), 0);
    assert_eq!(table.get_queue(1).len(), 0);
}

#[test]
fn handle_irq_twice_wakes_nobody_the_second_time() {
    let mut table = QueueTable::new(2);
    SCF::new(1).queue(&mut table).push_response(rsp(4, 4));
    assert_eq!(handle_irq(&mut table).len(), 1);
    assert_eq!(handle_irq(&mut table), vec![]);
}

#[test]
fn handle_irq_with_no_slots() {
    let mut table = QueueTable::new(0);
    assert_eq!(handle_irq(&mut table), vec![]);
}

#[test]
fn ipi_notify_targets_context_vector_and_dest() {
    let scf = SCF::new(0);
    assert_eq!(scf.ipi_notify(40, 2), IpiTarget { vector: 40, dest: 2 });
    assert_eq!(scf.ipi_notify(0x128, 5), IpiTarget { vector: 0x28, dest: 5 });
}

#[test]
fn linux_ipi_handler_answers_and_reschedules() {
    let mut table = QueueTable::new(2);
    SCF::new(1).queue(&mut table).push_response(rsp(8, 80));
    let o = linux_ipi_handler(&mut table);
    assert_eq!(o.wakeups, vec![Wakeup { cond_var: 8, ret_val: 80 }]);
    assert!(o.reschedule);
    assert_eq!(table.get_queue(1).len(), 0);
}

#[test]
fn uintr_ipi_handler_clears_upid_status() {
    let mut table = QueueTable::new(1);
    SCF::new(0).queue(&mut table).push_response(rsp(0, 1));
    SCF::new(0).queue(&mut table).push_response(rsp(3, 2));
    let mut status: u8 = 0b11;
    let o = uintr_ipi_handler(&mut table, &mut status);
    assert_eq!(status, 0);
    assert_eq!(o.wakeups, vec![Wakeup { cond_var: 3, ret_val: 2 }]);
    assert!(o.reschedule);
    assert_eq!(table.get_queue(0).len(), 0);
}
