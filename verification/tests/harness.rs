use std::cell::Cell;

use oscore::{test_runner, trivial_assertion, Testable};

struct Probe<'a> {
    runs: &'a Cell<u32>,
}

impl<'a> Testable for Probe<'a> {
    fn run(&self) {
        self.runs.set(self.runs.get() + 1);
    }
}

#[test]
fn the_runner_runs_every_test_once() {
    let runs = Cell::new(0);
    let batch = [Probe { runs: &runs }, Probe { runs: &runs }, Probe { runs: &runs }];
    test_runner(&batch);
    assert_eq!(runs.get(), 3);
}

#[test]
fn the_runner_accepts_an_empty_batch() {
    let batch: [Probe; 0] = [];
    test_runner(&batch);
}

#[test]
fn the_trivial_assertion_holds() {
    trivial_assertion();
}
