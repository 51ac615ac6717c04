use bayin::audio_engine::dsp::{Equalizer, FilterType};

#[derive(Clone, Copy, Debug, PartialEq)]
struct Coeffs {
    b0: f64,
    b1: f64,
    b2: f64,
    a1: f64,
    a2: f64,
}

#[derive(Clone, Copy, Debug, PartialEq)]
struct Memory {
    z1: f64,
    z2: f64,
}

const REST: Memory = Memory { z1: 0.0, z2: 0.0 };

fn design(filter: FilterType, freq: u32, gain_bits: u32, q_milli: u32, rate: u32) -> Coeffs {
    let gain_db = f32::from_bits(gain_bits) as f64;
    let q = q_milli as f64 / 1000.0;
    let a = 10.0_f64.powf(gain_db / 40.0);
    let w0 = 2.0 * std::f64::consts::PI * freq as f64 / rate as f64;
    let cos_w0 = w0.cos();
    let sin_w0 = w0.sin();
    let (b0, b1, b2, a0, a1, a2);
    match filter {
        FilterType::LowShelf => {
            let alpha = sin_w0 / 2.0 * ((a + 1.0 / a) * (1.0 / q - 1.0) + 2.0).sqrt();
            let t = 2.0 * a.sqrt() * alpha;
            b0 = a * ((a + 1.0) - (a - 1.0) * cos_w0 + t);
            b1 = 2.0 * a * ((a - 1.0) - (a + 1.0) * cos_w0);
            b2 = a * ((a + 1.0) - (a - 1.0) * cos_w0 - t);
            a0 = (a + 1.0) + (a - 1.0) * cos_w0 + t;
            a1 = -2.0 * ((a - 1.0) + (a + 1.0) * cos_w0);
            a2 = (a + 1.0) + (a - 1.0) * cos_w0 - t;
        }
        FilterType::Peaking => {
            let alpha = sin_w0 / (2.0 * q);
            b0 = 1.0 + alpha * a;
            b1 = -2.0 * cos_w0;
            b2 = 1.0 - alpha * a;
            a0 = 1.0 + alpha / a;
            a1 = -2.0 * cos_w0;
            a2 = 1.0 - alpha / a;
        }
        FilterType::HighShelf => {
            let alpha = sin_w0 / 2.0 * ((a + 1.0 / a) * (1.0 / q - 1.0) + 2.0).sqrt();
            let t = 2.0 * a.sqrt() * alpha;
            b0 = a * ((a + 1.0) + (a - 1.0) * cos_w0 + t);
            b1 = -2.0 * a * ((a - 1.0) + (a + 1.0) * cos_w0);
            b2 = a * ((a + 1.0) + (a - 1.0) * cos_w0 - t);
            a0 = (a + 1.0) - (a - 1.0) * cos_w0 + t;
            a1 = 2.0 * ((a - 1.0) - (a + 1.0) * cos_w0);
            a2 = (a + 1.0) - (a - 1.0) * cos_w0 - t;
        }
    }
    Coeffs { b0: b0 / a0, b1: b1 / a0, b2: b2 / a0, a1: a1 / a0, a2: a2 / a0 }
}

fn kernel(c: Coeffs, m: Memory, x: f64) -> (Memory, f64) {
    let y = c.b0 * x + m.z1;
    (Memory { z1: c.b1 * x - c.a1 * y + m.z2, z2: c.b2 * x - c.a2 * y }, y)
}

fn widen(x: f32) -> f64 {
    x as f64
}

fn narrow(x: f64) -> f32 {
    (x as f32).clamp(-1.0, 1.0)
}

fn gains(db: [f32; 10]) -> [u32; 10] {
    let mut bits = [0u32; 10];
    for (slot, value) in bits.iter_mut().zip(db.iter()) {
        *slot = value.to_bits();
    }
    bits
}

fn noise(len: usize) -> Vec<f32> {
    let mut state: u32 = 0x1234_5678;
    (0..len)
        .map(|_| {
            state = state.wrapping_mul(1_664_525).wrapping_add(1_013_904_223);
            (state >> 8) as f32 / 8_388_608.0 - 1.0
        })
        .collect()
}

/// The chain written out by hand, to hold the library's loops against.
fn reference(
    coeffs: &[Coeffs; 10],
    memory: &mut Vec<[Memory; 10]>,
    samples: &mut [f32],
    channels: usize,
) {
    for frame in 0..samples.len() / channels {
        for ch in 0..channels {
            let mut x = samples[frame * channels + ch] as f64;
            for band in 0..10 {
                let (m, y) = kernel(coeffs[band], memory[ch][band], x);
                memory[ch][band] = m;
                x = y;
            }
            samples[frame * channels + ch] = (x as f32).clamp(-1.0, 1.0);
        }
    }
}

fn designed(db: [f32; 10], rate: u32) -> [Coeffs; 10] {
    let freqs = [32, 64, 125, 250, 500, 1000, 2000, 4000, 8000, 16000];
    let mut out = [Coeffs { b0: 0.0, b1: 0.0, b2: 0.0, a1: 0.0, a2: 0.0 }; 10];
    for band in 0..10 {
        let (filter, q) = if band == 0 {
            (FilterType::LowShelf, 707)
        } else if band == 9 {
            (FilterType::HighShelf, 707)
        } else {
            (FilterType::Peaking, 1400)
        };
        out[band] = design(filter, freqs[band], db[band].to_bits(), q, rate);
    }
    out
}

#[test]
fn flat_equalizer_is_the_identity() {
    let mut eq = Equalizer::new(44_100, 2, REST, design);
    assert!(eq.is_enabled());
    let input = noise(8192);
    let mut output = input.clone();
    eq.process(&mut output, widen, kernel, narrow);
    for (x, y) in input.iter().zip(output.iter()) {
        assert!((x - y).abs() <= 1.0e-5, "{} became {}", x, y);
    }
}

#[test]
fn disabled_equalizer_leaves_the_packet() {
    let mut eq = Equalizer::new(44_100, 2, REST, design);
    eq.set_gains(&gains([12.0; 10]), design);
    eq.set_enabled(false);
    assert!(!eq.is_enabled());
    let input = noise(1000);
    let mut output = input.clone();
    let never = |_: Coeffs, _: Memory, _: f64| -> (Memory, f64) { panic!("filtered") };
    eq.process(&mut output, widen, never, narrow);
    assert_eq!(input, output);
}

#[test]
fn chain_runs_the_bands_in_order_per_channel() {
    let db = [6.0, -3.0, 2.0, 0.0, -6.0, 4.0, 1.0, -2.0, 3.0, -4.0];
    for channels in 1..4usize {
        let mut eq = Equalizer::new(48_000, channels, REST, design);
        eq.set_gains(&gains(db), design);
        let coeffs = designed(db, 48_000);
        let mut memory = vec![[REST; 10]; channels];
        for packet in 0..5 {
            let input: Vec<f32> = noise(1000 + packet).iter().map(|x| x * 0.1).collect();
            let mut by_library = input.clone();
            let mut by_hand = input.clone();
            eq.process(&mut by_library, widen, kernel, narrow);
            reference(&coeffs, &mut memory, &mut by_hand, channels);
            assert_eq!(by_library, by_hand);
        }
    }
}

#[test]
fn partial_frame_passes_unfiltered() {
    let mut eq = Equalizer::new(44_100, 2, REST, design);
    eq.set_gains(&gains([-12.0; 10]), design);
    let mut packet = vec![0.5f32; 5];
    eq.process(&mut packet, widen, kernel, narrow);
    assert_ne!(packet[0], 0.5);
    assert_ne!(packet[3], 0.5);
    assert_eq!(packet[4], 0.5);
}

#[test]
fn output_is_clamped() {
    let mut eq = Equalizer::new(44_100, 2, REST, design);
    eq.set_gains(&gains([12.0; 10]), design);
    let mut packet = noise(20_000);
    eq.process(&mut packet, widen, kernel, narrow);
    assert!(packet.iter().all(|x| x.abs() <= 1.0));
    assert!(packet.iter().any(|x| x.abs() == 1.0));
}

#[test]
fn memories_stay_finite() {
    let mut seen = Vec::new();
    let mut eq = Equalizer::new(44_100, 2, REST, design);
    eq.set_gains(&gains([12.0, -12.0, 12.0, -12.0, 12.0, -12.0, 12.0, -12.0, 12.0, -12.0]), design);
    let mut packet = noise(50_000);
    let watch = |c: Coeffs, m: Memory, x: f64| -> (Memory, f64) {
        let (m2, y) = kernel(c, m, x);
        assert!(m2.z1.is_finite() && m2.z2.is_finite() && y.is_finite());
        (m2, y)
    };
    eq.process(&mut packet, widen, watch, narrow);
    seen.extend_from_slice(&packet);
    assert!(seen.iter().all(|x| x.is_finite()));
}

#[test]
fn reset_puts_the_filters_at_rest() {
    let db = [6.0; 10];
    let mut eq = Equalizer::new(44_100, 1, REST, design);
    eq.set_gains(&gains(db), design);
    let input: Vec<f32> = noise(512).iter().map(|x| x * 0.1).collect();
    let mut first = input.clone();
    eq.process(&mut first, widen, kernel, narrow);
    let mut carried = input.clone();
    eq.process(&mut carried, widen, kernel, narrow);
    assert_ne!(first, carried);
    eq.reset();
    let mut again = input.clone();
    eq.process(&mut again, widen, kernel, narrow);
    assert_eq!(first, again);
}

#[test]
fn new_gains_keep_the_memories() {
    let input: Vec<f32> = noise(256).iter().map(|x| x * 0.1).collect();
    let mut eq = Equalizer::new(44_100, 1, REST, design);
    eq.set_gains(&gains([6.0; 10]), design);
    let mut warm = input.clone();
    eq.process(&mut warm, widen, kernel, narrow);
    eq.set_gains(&gains([0.0; 10]), design);
    let mut after_change = input.clone();
    eq.process(&mut after_change, widen, kernel, narrow);

    let mut fresh = Equalizer::new(44_100, 1, REST, design);
    let mut from_rest = input.clone();
    fresh.process(&mut from_rest, widen, kernel, narrow);
    assert_ne!(after_change, from_rest);
}

#[test]
fn no_channels_no_filtering() {
    let mut eq = Equalizer::new(44_100, 0, REST, design);
    let mut packet = vec![0.5f32; 4];
    let never = |_: Coeffs, _: Memory, _: f64| -> (Memory, f64) { panic!("filtered") };
    eq.process(&mut packet, widen, never, narrow);
    assert_eq!(packet, vec![0.5f32; 4]);
}
