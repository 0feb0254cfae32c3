use kanau::processor::{parallel_map, parallel_map_borrowed, FinalProcessor, Processor, RefProcessor};
use std::collections::BTreeSet;
use std::sync::Arc;

struct Times2;

impl Processor<u32, u32> for Times2 {
    fn process(&self, input: u32) -> u32 {
        input * 2
    }
}

struct Scale {
    factor: u32,
}

impl RefProcessor<u32, u32> for Scale {
    fn process(&self, deps: &u32, _input: ()) -> u32 {
        deps * self.factor
    }
}

impl FinalProcessor<u32, String> for Scale {
    fn process(state: Arc<Self>, input: u32) -> String {
        format!("{}", input * state.factor)
    }
}

#[test]
fn parallel_map_doubles_each_input() {
    let out = parallel_map(vec![1u32, 2, 3], &Times2);
    let set: BTreeSet<u32> = out.iter().copied().collect();
    assert_eq!(set, BTreeSet::from([2, 4, 6]));
    assert_eq!(out.len(), 3);
}

#[test]
fn parallel_map_of_nothing_is_empty() {
    let out = parallel_map(Vec::<u32>::new(), &Times2);
    assert!(out.is_empty());
}

#[test]
fn parallel_map_keeps_one_output_per_input() {
    let out = parallel_map(vec![5u32, 5, 5, 0], &Times2);
    let mut sorted = out.clone();
    sorted.sort();
    assert_eq!(sorted, vec![0, 10, 10, 10]);
}

#[test]
fn parallel_map_borrowed_scales_items() {
    let items = [1u32, 2, 3];
    let out = parallel_map_borrowed(&items, &Scale { factor: 3 });
    let set: BTreeSet<u32> = out.into_iter().collect();
    assert_eq!(set, BTreeSet::from([3, 6, 9]));
}

#[test]
fn final_processor_takes_shared_state() {
    let state = Arc::new(Scale { factor: 4 });
    assert_eq!(<Scale as FinalProcessor<u32, String>>::process(state.clone(), 5), "20");
    assert_eq!(Arc::strong_count(&state), 1);
}
