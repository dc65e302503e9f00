use kernel_core::array_list::ArrayList;
use kernel_core::ring_buffer::RingBuffer;

#[test]
fn ring_fifo_order_across_wraparound() {
    let mut rb: RingBuffer<u32> = RingBuffer::new(3);
    assert_eq!(rb.len(), 0);
    assert!(rb.enqueue(1));
    assert!(rb.enqueue(2));
    assert!(rb.enqueue(3));
    assert_eq!(rb.len(), 3);
    assert!(!rb.enqueue(4));
    assert_eq!(rb.len(), 3);
    assert_eq!(rb.dequeue(), Some(1));
    assert_eq!(rb.dequeue(), Some(2));
    assert!(rb.enqueue(4));
    assert!(rb.enqueue(5));
    assert_eq!(rb.dequeue(), Some(3));
    assert_eq!(rb.dequeue(), Some(4));
    assert_eq!(rb.dequeue(), Some(5));
    assert_eq!(rb.dequeue(), None);
}

#[test]
fn ring_dequeue_empty_leaves_state_sound() {
    let mut rb: RingBuffer<u32> = RingBuffer::new(2);
    assert_eq!(rb.dequeue(), None);
    assert_eq!(rb.dequeue(), None);
    assert!(rb.enqueue(7));
    assert_eq!(rb.dequeue(), Some(7));
    assert_eq!(rb.dequeue(), None);
    assert!(rb.enqueue(8));
    assert!(rb.enqueue(9));
    assert_eq!(rb.dequeue(), Some(8));
    assert_eq!(rb.dequeue(), Some(9));
}

#[test]
fn ring_zero_capacity_rejects_everything() {
    let mut rb: RingBuffer<u32> = RingBuffer::new(0);
    assert!(!rb.enqueue(1));
    assert_eq!(rb.dequeue(), None);
    assert_eq!(rb.peek(), None);
    assert_eq!(rb.len(), 0);
}

#[test]
fn ring_peek_is_non_destructive() {
    let mut rb: RingBuffer<u32> = RingBuffer::new(4);
    assert_eq!(rb.peek(), None);
    assert!(rb.enqueue(42));
    assert!(rb.enqueue(43));
    assert_eq!(rb.peek(), Some(42));
    assert_eq!(rb.peek(), Some(42));
    assert_eq!(rb.len(), 2);
    assert_eq!(rb.dequeue(), Some(42));
    assert_eq!(rb.peek(), Some(43));
}

#[test]
fn array_list_reports_full() {
    let mut list: ArrayList<u32> = ArrayList::new(2);
    assert_eq!(list.len(), 0);
    assert!(list.add(10));
    assert!(list.add(20));
    assert!(!list.add(30));
    assert_eq!(list.len(), 2);
    assert_eq!(*list.get(0), 10);
    assert_eq!(*list.get(1), 20);
}

#[test]
fn circular_iterator_visits_each_twice() {
    let mut list: ArrayList<u32> = ArrayList::new(4);
    list.add(100);
    list.add(200);
    list.add(300);
    let mut iter = list.circular_iterator();
    let mut counts = [0usize; 3];
    for _ in 0..6 {
        let i = iter.next();
        assert!(i < 3);
        counts[i] += 1;
    }
    assert_eq!(counts, [2, 2, 2]);
}

#[test]
fn circular_iterator_wraps_forever() {
    let mut list: ArrayList<u32> = ArrayList::new(2);
    list.add(1);
    list.add(2);
    let mut iter = list.circular_iterator();
    for k in 0..10 {
        assert_eq!(iter.next(), k % 2);
    }
}

#[test]
fn circular_iterator_single_element() {
    let mut list: ArrayList<u32> = ArrayList::new(1);
    list.add(5);
    let mut iter = list.circular_iterator();
    for _ in 0..4 {
        assert_eq!(iter.next(), 0);
    }
}
