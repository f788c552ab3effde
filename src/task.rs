//! Aging programs: a product, its bounds, its power settings and a timed
//! sequence of steps repeated a number of times. Durations are in seconds.
use vstd::prelude::*;

use crate::aggregate::AB;
use crate::voltage::Verify;

verus! {

/// A product under test.
#[derive(Debug, Clone)]
pub struct Product {
    pub title: String,
    pub index: String,
}

/// The kind of supply output.
#[derive(Debug, Clone, Copy, PartialEq, Eq, Structural)]
pub enum PowerMode {
    Ac,
    Dc,
}

/// The supply settings of a program.
#[derive(Debug, Clone, Copy, PartialEq, Eq, Structural)]
pub struct PowerConfig {
    pub mode: PowerMode,
    pub voltage: u32,
    pub current: u32,
}

/// One step: whether the supply is on, at which voltage, for how long.
#[derive(Debug, Clone, Copy, PartialEq, Eq, Structural)]
pub struct TaskItem {
    pub index: usize,
    pub power_on: bool,
    pub voltage: u32,
    pub dur: u64,
}

/// An aging program.
#[derive(Debug, Clone)]
pub struct Task {
    pub title: String,
    pub ab: AB,
    /// The set temperature, in tenths of a degree.
    pub temperature: u16,
    pub voltage_verify: Verify,
    pub power: PowerConfig,
    /// The length of the whole program.
    pub count_time: u64,
    /// How many times the steps run.
    pub task_loop: u32,
    pub items: Vec<TaskItem>,
    pub product: Product,
}

/// The summed length of the steps.
pub open spec fn steps_time(items: Seq<TaskItem>) -> int
    decreases items.len(),
{
    if items.len() == 0 {
        0
    } else {
        steps_time(items.drop_last()) + items.last().dur
    }
}

proof fn lemma_steps_time_prefix(items: Seq<TaskItem>, i: int)
    requires
        0 <= i <= items.len(),
    ensures
        0 <= steps_time(items.take(i)) <= steps_time(items),
    decreases items.len() - i,
{
    if i < items.len() {
        lemma_steps_time_prefix(items, i + 1);
        assert(items.take(i + 1).drop_last() =~= items.take(i));
    } else {
        assert(items.take(i) =~= items);
    }
    lemma_steps_time_nonneg(items.take(i));
}

proof fn lemma_steps_time_nonneg(items: Seq<TaskItem>)
    ensures
        steps_time(items) >= 0,
    decreases items.len(),
{
    if items.len() > 0 {
        lemma_steps_time_nonneg(items.drop_last());
    }
}

impl Task {
    /// The length of the program: the steps' summed length times the loop count.
    pub fn total_time(&self) -> (r: u64)
        requires
            steps_time(self.items@) * self.task_loop <= u64::MAX,
        ensures
            r == steps_time(self.items@) * self.task_loop,
    {
        if self.task_loop == 0 {
            return 0;
        }
        proof {
            lemma_steps_time_nonneg(self.items@);
            assert(steps_time(self.items@) <= steps_time(self.items@) * self.task_loop) by (
            nonlinear_arith)
                requires
                    steps_time(self.items@) >= 0,
                    self.task_loop >= 1,
            ;
        }
        let mut sum: u64 = 0;
        let mut i: usize = 0;
        while i < self.items.len()
            invariant
                i <= self.items@.len(),
                sum == steps_time(self.items@.take(i as int)),
                steps_time(self.items@) <= u64::MAX,
            decreases self.items@.len() - i,
        {
            proof {
                assert(self.items@.take(i as int + 1).drop_last() =~= self.items@.take(i as int));
                lemma_steps_time_prefix(self.items@, i as int + 1);
            }
            sum = sum + self.items[i].dur;
            i = i + 1;
        }
        proof {
            assert(self.items@.take(self.items@.len() as int) =~= self.items@);
        }
        sum * (self.task_loop as u64)
    }
}

} // verus!
