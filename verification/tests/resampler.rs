use bayin::audio_engine::resampler::{
    AudioResampler, ResampleError, ResamplerPlan, StagingBuffer, CHUNK_SIZE,
};

#[test]
fn equal_rates_need_no_resampler() {
    let e = AudioResampler::plan(44_100, 44_100, 2).unwrap_err();
    assert_eq!(e, ResampleError::NotNeeded);
    assert_eq!(e.message(), "No resampling needed");
}

#[test]
fn plan_carries_the_parameters() {
    assert_eq!(
        AudioResampler::plan(44_100, 48_000, 2),
        Ok(ResamplerPlan { from_rate: 44_100, to_rate: 48_000, chunk_size: 1024, channels: 2 })
    );
    assert_eq!(CHUNK_SIZE, 1024);
}

#[test]
fn split_checks_the_frame_count() {
    let resampler = AudioResampler::new(2, 3);
    assert_eq!(resampler.input_frames_needed(), 3);
    assert_eq!(resampler.input_samples_needed(), Some(6));
    assert_eq!(
        resampler.split(&[1.0f32, -1.0, 2.0, -2.0, 3.0, -3.0]),
        Ok(vec![vec![1.0, 2.0, 3.0], vec![-1.0, -2.0, -3.0]])
    );
    let e = resampler.split(&[1.0f32, -1.0, 2.0, -2.0]).unwrap_err();
    assert_eq!(e, ResampleError::FrameCount { expected: 3, got: 2 });
    assert_eq!(e.message(), "Expected 3 frames, got 2");
    let e = resampler.split(&[0.0f32; 8]).unwrap_err();
    assert_eq!(e, ResampleError::FrameCount { expected: 3, got: 4 });
}

#[test]
fn merge_interleaves_and_notes_the_next_chunk() {
    let mut resampler = AudioResampler::new(2, 1024);
    let planar = vec![vec![1.0f32, 2.0, 3.0], vec![-1.0, -2.0, -3.0]];
    assert_eq!(resampler.merge(&planar, 941), Ok(vec![1.0, -1.0, 2.0, -2.0, 3.0, -3.0]));
    assert_eq!(resampler.input_frames_needed(), 941);
    assert_eq!(resampler.channels, 2);
}

#[test]
fn merge_refuses_ragged_output() {
    let mut resampler = AudioResampler::new(2, 1024);
    assert_eq!(
        resampler.merge(&vec![vec![1.0f32, 2.0], vec![-1.0]], 7),
        Err(ResampleError::Ragged)
    );
    assert_eq!(resampler.input_frames_needed(), 7);
    assert_eq!(resampler.merge(&vec![vec![1.0f32, 2.0]], 8), Err(ResampleError::Ragged));
    assert_eq!(
        ResampleError::Ragged.message(),
        "Resampler output is not one buffer per channel"
    );
    let mut none = AudioResampler::new(0, 1024);
    assert_eq!(none.merge(&Vec::<Vec<f32>>::new(), 5), Ok(Vec::new()));
}

#[test]
fn samples_needed_may_not_fit() {
    assert_eq!(AudioResampler::new(usize::MAX, 2).input_samples_needed(), None);
    assert_eq!(AudioResampler::new(0, 1024).input_samples_needed(), Some(0));
}

#[test]
fn staging_hands_out_whole_chunks_in_order() {
    let mut staging: StagingBuffer<i32> = StagingBuffer::new();
    assert_eq!(staging.len(), 0);
    staging.extend(&[1, 2, 3]);
    assert_eq!(staging.take(4), None);
    assert_eq!(staging.len(), 3);
    staging.extend(&[4, 5, 6, 7, 8, 9]);
    assert_eq!(staging.take(4), Some(vec![1, 2, 3, 4]));
    assert_eq!(staging.take(4), Some(vec![5, 6, 7, 8]));
    assert_eq!(staging.take(4), None);
    assert_eq!(staging.len(), 1);
    assert_eq!(staging.take(1), Some(vec![9]));
    assert_eq!(staging.take(0), None);
    staging.extend(&[1, 2]);
    staging.clear();
    assert_eq!(staging.len(), 0);
    assert_eq!(staging.take(1), None);
}
