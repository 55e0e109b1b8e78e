use tiny_llama_cuda::generation::{Generation, StepOutcome};

/// Feeds the sampled tokens one by one until the generation is done, recording each input.
fn drive(g: &mut Generation, sampled: &[u32]) -> Vec<Vec<u32>> {
    let mut inputs = Vec::new();
    for &t in sampled {
        if g.is_done() {
            break;
        }
        inputs.push(g.next_input());
        g.push_sampled(t);
    }
    inputs
}

#[test]
fn first_step_feeds_prompt_then_last_token() {
    let mut g = Generation::new(vec![1, 5, 9], 4, vec![2]);
    assert_eq!(g.prompt_len(), 3);
    assert!(!g.is_done());
    assert_eq!(g.next_input(), vec![1, 5, 9]);
    assert_eq!(g.push_sampled(11), StepOutcome::Continue);
    assert_eq!(g.next_input(), vec![11]);
    assert_eq!(g.push_sampled(12), StepOutcome::Continue);
    assert_eq!(g.next_input(), vec![12]);
    assert_eq!(g.num_tokens(), 2);
    assert_eq!(g.tokens(), vec![1, 5, 9, 11, 12]);
}

#[test]
fn stop_token_ends_without_being_kept() {
    let mut g = Generation::new(vec![1], 10, vec![2, 32000]);
    assert_eq!(g.push_sampled(7), StepOutcome::Continue);
    assert_eq!(g.push_sampled(32000), StepOutcome::Stopped);
    assert!(g.is_done());
    assert_eq!(g.num_tokens(), 1);
    assert_eq!(g.tokens(), vec![1, 7]);
}

#[test]
fn sample_len_bounds_the_generation() {
    let mut g = Generation::new(vec![4, 4], 2, vec![2]);
    assert_eq!(g.push_sampled(3), StepOutcome::Continue);
    assert_eq!(g.push_sampled(3), StepOutcome::Finished);
    assert!(g.is_done());
    assert_eq!(g.num_tokens(), 2);
    assert_eq!(g.tokens(), vec![4, 4, 3, 3]);
}

#[test]
fn zero_sample_len_is_done_at_once() {
    let g = Generation::new(vec![1, 2, 3], 0, vec![2]);
    assert!(g.is_done());
    assert_eq!(g.num_tokens(), 0);
    assert_eq!(g.tokens(), vec![1, 2, 3]);
}

#[test]
fn no_stop_ids_means_only_sample_len_ends() {
    let mut g = Generation::new(vec![9], 3, vec![]);
    let inputs = drive(&mut g, &[2, 2, 2, 2, 2]);
    assert_eq!(inputs, vec![vec![9], vec![2], vec![2]]);
    assert_eq!(g.tokens(), vec![9, 2, 2, 2]);
    assert_eq!(g.num_tokens(), 3);
}

#[test]
fn prompt_tokens_may_be_stop_tokens() {
    // stop ids only concern sampled tokens
    let mut g = Generation::new(vec![2, 2], 3, vec![2]);
    assert_eq!(g.next_input(), vec![2, 2]);
    assert_eq!(g.push_sampled(5), StepOutcome::Continue);
    assert_eq!(g.tokens(), vec![2, 2, 5]);
}

#[test]
fn generation_yields_prefix_before_first_stop() {
    let prompt = vec![100, 200];
    let stops = vec![0, 1];
    let sampled = [7, 8, 9, 1, 10, 11];
    for sample_len in 0..8usize {
        let mut g = Generation::new(prompt.clone(), sample_len, stops.clone());
        drive(&mut g, &sampled);
        let kept: Vec<u32> = sampled
            .iter()
            .copied()
            .take_while(|t| !stops.contains(t))
            .take(sample_len)
            .collect();
        let mut expected = prompt.clone();
        expected.extend(kept.iter().copied());
        assert_eq!(g.tokens(), expected, "sample_len {}", sample_len);
        assert_eq!(g.num_tokens(), kept.len());
        assert!(g.is_done() || sample_len > sampled.len());
    }
}
