use std::cell::RefCell;

use crux_core::sender::{CruxSender, SenderExt};

struct Collect(RefCell<Vec<usize>>);

impl CruxSender<usize> for &Collect {
    fn accepts(&self, _t: usize) -> bool {
        true
    }

    fn send(&self, t: usize) {
        self.0.borrow_mut().push(t);
    }
}

impl SenderExt<usize> for &Collect {}

#[test]
fn a_mapped_sender_converts_before_sending() {
    let sink = Collect(RefCell::new(Vec::new()));
    let lengths = (&sink).map_input(|s: &str| s.len());
    lengths.send("four");
    lengths.send("");
    assert_eq!(*sink.0.borrow(), vec![4, 0]);
}
