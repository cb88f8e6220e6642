use vista::models::{Signature, TransactionInfo, UpdateEvent};
use vista::queue::{UpdateQueue, DEFAULT_QUEUE_CAPACITY};

fn event(n: u8) -> UpdateEvent {
    UpdateEvent::TransactionUpdate(TransactionInfo {
        signature: Signature::new_from_array([n; 64]),
        status: format!("status {}", n),
    })
}

#[test]
fn a_full_queue_makes_the_producer_wait_and_loses_nothing() {
    let mut queue = UpdateQueue::new(3);
    assert_eq!(queue.try_enqueue(event(1)), Ok(()));
    assert_eq!(queue.try_enqueue(event(2)), Ok(()));
    assert_eq!(queue.try_enqueue(event(3)), Ok(()));
    assert!(queue.is_full());
    let waiting = match queue.try_enqueue(event(4)) {
        Err(back) => back,
        Ok(()) => panic!("a full queue took an event"),
    };
    assert_eq!(waiting, event(4));
    assert_eq!(queue.len(), 3);
    assert_eq!(queue.dequeue(), Some(event(1)));
    assert_eq!(queue.try_enqueue(waiting), Ok(()));
    assert_eq!(queue.dequeue(), Some(event(2)));
    assert_eq!(queue.dequeue(), Some(event(3)));
    assert_eq!(queue.dequeue(), Some(event(4)));
    assert_eq!(queue.dequeue(), None);
}

#[test]
fn events_leave_in_the_order_in_which_they_came() {
    let mut queue = UpdateQueue::new(10);
    for n in 0..10u8 {
        assert_eq!(queue.try_enqueue(event(n)), Ok(()));
    }
    for n in 0..10u8 {
        assert_eq!(queue.dequeue(), Some(event(n)));
    }
    assert!(queue.is_empty());
}

#[test]
fn the_default_queue_holds_a_thousand_events() {
    assert_eq!(DEFAULT_QUEUE_CAPACITY, 1000);
    let mut queue = UpdateQueue::with_default_capacity();
    assert_eq!(queue.max_len(), 1000);
    for n in 0..1000u32 {
        assert_eq!(queue.try_enqueue(event((n % 251) as u8)), Ok(()));
    }
    assert!(queue.is_full());
    assert_eq!(queue.try_enqueue(event(7)), Err(event(7)));
    assert_eq!(queue.len(), 1000);
}

#[test]
fn an_empty_queue_gives_nothing() {
    let mut queue = UpdateQueue::new(2);
    assert!(queue.is_empty());
    assert_eq!(queue.dequeue(), None);
    assert_eq!(queue.len(), 0);
}

#[test]
fn a_queue_without_room_takes_nothing() {
    let mut queue = UpdateQueue::new(0);
    assert!(queue.is_full());
    assert_eq!(queue.try_enqueue(event(1)), Err(event(1)));
    assert_eq!(queue.dequeue(), None);
}

#[test]
fn offers_and_takes_in_any_order_lose_nothing_and_keep_the_order() {
    let mut queue = UpdateQueue::new(2);
    let mut accepted = Vec::new();
    let mut delivered = Vec::new();
    let mut waiting: Option<UpdateEvent> = None;
    let mut next = 0u8;
    // Two offers for every take: the queue is full most of the time, and a
    // refused event is offered again until it is taken in.
    for round in 0..60 {
        if round % 3 == 2 {
            if let Some(event) = queue.dequeue() {
                delivered.push(event);
            }
        } else {
            let event = match waiting.take() {
                Some(event) => event,
                None => {
                    next += 1;
                    event(next)
                }
            };
            match queue.try_enqueue(event.clone()) {
                Ok(()) => accepted.push(event),
                Err(back) => {
                    assert_eq!(back, event);
                    waiting = Some(back);
                }
            }
        }
        assert!(queue.len() <= 2);
    }
    while let Some(event) = queue.dequeue() {
        delivered.push(event);
    }
    // Two offers fill the queue; after that each round of three takes one
    // event in, refuses one and hands one out: 2 + 19 events in 60 uses.
    assert_eq!(delivered, accepted);
    assert_eq!(accepted.len(), 21);
    let expected: Vec<UpdateEvent> = (1..=21u8).map(event).collect();
    assert_eq!(delivered, expected);
    assert_eq!(waiting, Some(event(22)));
}
