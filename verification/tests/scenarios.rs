use bayin::audio_engine::decoder::DecodedInfo;
use bayin::audio_engine::dsp::{Equalizer, FilterType};
use bayin::audio_engine::engine::{Action, AudioCommand, EngineCore, OutputFormat};
use bayin::audio_engine::fft::{FftProcessor, FFT_SIZE, HALF_SIZE};
use bayin::audio_engine::output::{AudioOutput, Filled, OutputConfigRange};
use rustfft::num_complex::Complex;
use rustfft::FftPlanner;

#[derive(Clone, Copy)]
struct Coeffs {
    b0: f64,
    b1: f64,
    b2: f64,
    a1: f64,
    a2: f64,
}

#[derive(Clone, Copy)]
struct Memory {
    z1: f64,
    z2: f64,
}

fn design(filter: FilterType, freq: u32, gain_bits: u32, q_milli: u32, rate: u32) -> Coeffs {
    let gain_db = f32::from_bits(gain_bits) as f64;
    let q = q_milli as f64 / 1000.0;
    let a = 10.0_f64.powf(gain_db / 40.0);
    let w0 = 2.0 * std::f64::consts::PI * freq as f64 / rate as f64;
    let (cos_w0, sin_w0) = (w0.cos(), w0.sin());
    let shelf_alpha = sin_w0 / 2.0 * ((a + 1.0 / a) * (1.0 / q - 1.0) + 2.0).sqrt();
    let t = 2.0 * a.sqrt() * shelf_alpha;
    let (b0, b1, b2, a0, a1, a2) = match filter {
        FilterType::LowShelf => (
            a * ((a + 1.0) - (a - 1.0) * cos_w0 + t),
            2.0 * a * ((a - 1.0) - (a + 1.0) * cos_w0),
            a * ((a + 1.0) - (a - 1.0) * cos_w0 - t),
            (a + 1.0) + (a - 1.0) * cos_w0 + t,
            -2.0 * ((a - 1.0) + (a + 1.0) * cos_w0),
            (a + 1.0) + (a - 1.0) * cos_w0 - t,
        ),
        FilterType::Peaking => {
            let alpha = sin_w0 / (2.0 * q);
            (
                1.0 + alpha * a,
                -2.0 * cos_w0,
                1.0 - alpha * a,
                1.0 + alpha / a,
                -2.0 * cos_w0,
                1.0 - alpha / a,
            )
        }
        FilterType::HighShelf => (
            a * ((a + 1.0) + (a - 1.0) * cos_w0 + t),
            -2.0 * a * ((a - 1.0) + (a + 1.0) * cos_w0),
            a * ((a + 1.0) + (a - 1.0) * cos_w0 - t),
            (a + 1.0) - (a - 1.0) * cos_w0 + t,
            2.0 * ((a - 1.0) - (a + 1.0) * cos_w0),
            (a + 1.0) - (a - 1.0) * cos_w0 - t,
        ),
    };
    Coeffs { b0: b0 / a0, b1: b1 / a0, b2: b2 / a0, a1: a1 / a0, a2: a2 / a0 }
}

fn kernel(c: Coeffs, m: Memory, x: f64) -> (Memory, f64) {
    let y = c.b0 * x + m.z1;
    (Memory { z1: c.b1 * x - c.a1 * y + m.z2, z2: c.b2 * x - c.a2 * y }, y)
}

fn level_byte(bits: u32) -> u8 {
    let db = 20.0 * (f32::from_bits(bits).max(1e-10)).log10();
    (((db + 60.0) / 60.0).clamp(0.0, 1.0) * 255.0) as u8
}

fn sample_byte(sample: f32) -> u8 {
    ((sample * 127.0) + 128.0).clamp(0.0, 255.0) as u8
}

fn spectrum(window: Vec<f32>) -> Vec<u32> {
    let mut planner = FftPlanner::<f32>::new();
    let fft = planner.plan_fft_forward(FFT_SIZE);
    let mut input: Vec<Complex<f32>> = window
        .iter()
        .enumerate()
        .map(|(i, sample)| {
            let hann = 0.5
                * (1.0 - (2.0 * std::f32::consts::PI * i as f32 / (FFT_SIZE - 1) as f32).cos());
            Complex::new(sample * hann, 0.0)
        })
        .collect();
    fft.process(&mut input);
    input[..HALF_SIZE]
        .iter()
        .map(|c| ((c.re * c.re + c.im * c.im).sqrt() / FFT_SIZE as f32).to_bits())
        .collect()
}

fn music(frames: usize) -> Vec<f32> {
    let mut out = Vec::with_capacity(frames * 2);
    for n in 0..frames {
        let t = n as f32 / 44_100.0;
        let tone = 0.3 * (2.0 * std::f32::consts::PI * 220.0 * t).sin()
            + 0.2 * (2.0 * std::f32::consts::PI * 1760.0 * t).sin()
            + 0.1 * (2.0 * std::f32::consts::PI * 9000.0 * t).sin();
        out.push(tone);
        out.push(tone * 0.5);
    }
    out
}

fn bins_after(eq_enabled: bool) -> Vec<u8> {
    let mut eq = Equalizer::new(44_100, 2, Memory { z1: 0.0, z2: 0.0 }, design);
    eq.set_enabled(eq_enabled);
    let mut fft = FftProcessor::new(0.0f32);
    fft.set_enabled(true);
    let signal = music(8192);
    for packet in signal.chunks(2304) {
        let mut packet = packet.to_vec();
        eq.process(&mut packet, |x| x as f64, kernel, |x| (x as f32).clamp(-1.0, 1.0));
        fft.push_samples(&packet, 2, |f| (packet[2 * f] + packet[2 * f + 1]) / 2.0);
    }
    fft.compute(spectrum, level_byte, sample_byte).0
}

#[test]
fn flat_equalizer_leaves_the_spectrum() {
    let with = bins_after(true);
    let without = bins_after(false);
    assert_eq!(with.len(), 64);
    assert!(without.iter().any(|b| *b > 100));
    for (a, b) in with.iter().zip(without.iter()) {
        assert!((*a as i32 - *b as i32).abs() <= 2, "{} against {}", a, b);
    }
}

#[test]
fn underrun_is_silence_and_no_jump() {
    let configs = [OutputConfigRange {
        channels: 2,
        min_sample_rate: 8000,
        max_sample_rate: 192_000,
        float32: true,
    }];
    let opened = match AudioOutput::new(44_100, 2, &configs, 0.0f32) {
        Ok(opened) => opened,
        Err(e) => panic!("no output: {:?}", e),
    };
    let (mut output, mut callback) = (opened.output, opened.callback);

    let mut core = EngineCore::new();
    core.handle_command(AudioCommand::Play { source: "https://host/file.flac".to_string() });
    core.source_decoded(DecodedInfo { sample_rate: 44_100, channels: 2, duration_frames: 0 });
    core.output_opened(OutputFormat { sample_rate: 44_100, channels: 2 }, false, false);

    let first: Vec<f32> = (0..4410).map(|i| (i % 7) as f32 / 7.0).collect();
    output.push_slice(&first);
    core.packet_played(first.len());
    let position = core.position_frames;

    let mut heard = vec![9.0f32; 4410];
    assert_eq!(callback.fill_with(&mut heard, false, true), Filled::Played { samples: 4410 });
    assert_eq!(heard, first);

    for _ in 0..5 {
        let mut stalled = vec![9.0f32; 4410];
        assert_eq!(callback.fill_with(&mut stalled, false, true), Filled::Played { samples: 0 });
        assert!(stalled.iter().all(|s| *s == 0.0));
        assert_eq!(core.position_frames, position);
        assert_eq!(core.time_event(output.occupied_len()).position_micros, 50_000);
    }

    let second: Vec<f32> = (0..4410).map(|i| (i % 5) as f32 / 5.0).collect();
    output.push_slice(&second);
    core.packet_played(second.len());
    assert_eq!(core.position_frames, position + 2205);
    let mut heard = vec![9.0f32; 4410];
    assert_eq!(callback.fill_with(&mut heard, false, true), Filled::Played { samples: 4410 });
    assert_eq!(heard, second);
    assert_eq!(core.time_event(output.occupied_len()).position_micros, 100_000);
}

#[test]
fn pause_then_resume_plays_what_was_queued() {
    let configs = [OutputConfigRange {
        channels: 2,
        min_sample_rate: 8000,
        max_sample_rate: 192_000,
        float32: true,
    }];
    let opened = match AudioOutput::new(44_100, 2, &configs, 0.0f32) {
        Ok(opened) => opened,
        Err(e) => panic!("no output: {:?}", e),
    };
    let (mut output, mut callback) = (opened.output, opened.callback);
    let scale = |s: f32, v: u32, g: u64, f: u64| s * (f32::from_bits(v) * (g as f32 / f as f32));

    let mut core = EngineCore::new();
    core.handle_command(AudioCommand::Play { source: "/a.mp3".to_string() });
    core.source_decoded(DecodedInfo { sample_rate: 44_100, channels: 2, duration_frames: 0 });
    core.output_opened(OutputFormat { sample_rate: 44_100, channels: 2 }, false, false);

    let queued: Vec<f32> = (0..8820).map(|i| 0.25 + (i % 4) as f32 / 8.0).collect();
    output.push_slice(&queued);
    core.packet_played(queued.len());
    let position = core.position_frames;

    let mut flushed = false;
    for action in core.handle_command(AudioCommand::Pause) {
        flushed |= action == Action::FlushOutput;
    }
    let mut fading = vec![0.5f32; 13_230];
    assert!(core.scale_packet(&mut fading, scale));
    output.push_slice(&fading);
    for action in core.fade_completed() {
        flushed |= action == Action::FlushOutput;
        if action == Action::PauseOutput {
            output.pause();
        }
    }
    assert!(!flushed);
    let at_pause = core.snapshot().position_micros;

    let mut data = vec![9.0f32; 512];
    assert_eq!(callback.fill(&mut data), bayin::audio_engine::output::Filled::Silent);
    assert!(data.iter().all(|s| *s == 0.0));
    assert_eq!(output.occupied_len(), queued.len() + fading.len());

    for action in core.handle_command(AudioCommand::Resume) {
        flushed |= action == Action::FlushOutput;
        if action == Action::ResumeOutput {
            output.resume();
        }
    }
    assert!(!flushed);
    assert_eq!(core.position_frames, position);
    assert_eq!(core.snapshot().position_micros, at_pause);

    let mut heard = vec![9.0f32; queued.len()];
    callback.fill(&mut heard);
    assert_eq!(heard, queued);
    let mut tail = vec![9.0f32; fading.len()];
    callback.fill(&mut tail);
    assert_eq!(tail, fading);
}
