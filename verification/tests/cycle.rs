use std::cell::Cell;
use std::rc::Rc;

use soplex_rs::engine::Solution;
use soplex_rs::model::Model;
use soplex_rs::{Real, Status};

/// Stands for the engine's instance, and counts how often one is released.
struct Counted {
    id: u32,
    released: Rc<Cell<u32>>,
}

impl Drop for Counted {
    fn drop(&mut self) {
        self.released.set(self.released.get() + 1);
    }
}

fn nothing_to_report(status_code: i32) -> Solution {
    Solution {
        status_code,
        objective: Real::from_bits(0),
        primal: vec![Real::from_bits(0)],
        dual: vec![],
        reduced_costs: vec![Real::from_bits(0)],
        iterations: 0,
        solving_time: Real::from_bits(0),
        col_basis: vec![1],
        row_basis: vec![],
    }
}

#[test]
fn solve_cycles_keep_the_one_handle() {
    let released = Rc::new(Cell::new(0));
    let mut lp = Model::new(Counted { id: 17, released: released.clone() });
    lp.add_col(&[], Real::from_bits(0), Real::from_bits(0), Real::from_bits(0));
    for _ in 0..10 {
        let solved = lp.optimize(nothing_to_report(1));
        assert_eq!(solved.handle().id, 17);
        assert_eq!(solved.status(), Status::Optimal);
        assert_eq!(released.get(), 0);
        lp = Model::from(solved);
        assert_eq!(lp.handle().id, 17);
        assert_eq!(lp.num_cols(), 1);
        assert_eq!(lp.num_rows(), 0);
        assert_eq!(released.get(), 0);
    }
    drop(lp);
    assert_eq!(released.get(), 1);
}

#[test]
fn abandoned_model_releases_its_handle_once() {
    let released = Rc::new(Cell::new(0));
    let lp = Model::new(Counted { id: 1, released: released.clone() });
    assert_eq!(lp.handle().id, 1);
    drop(lp);
    assert_eq!(released.get(), 1);

    let released = Rc::new(Cell::new(0));
    let mut lp = Model::new(Counted { id: 2, released: released.clone() });
    lp.add_col(&[], Real::from_bits(0), Real::from_bits(0), Real::from_bits(0));
    let solved = lp.optimize(nothing_to_report(-7));
    assert_eq!(solved.status(), Status::AbortTime);
    assert_eq!(released.get(), 0);
    drop(solved);
    assert_eq!(released.get(), 1);
}
