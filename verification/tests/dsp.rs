use bayin::audio_engine::dsp::{
    band_filter, band_frequency, filter_q_milli, FilterType, EQ_FREQUENCIES, NUM_BANDS,
};

#[test]
fn band_layout() {
    assert_eq!(NUM_BANDS, 10);
    assert_eq!(EQ_FREQUENCIES, [32, 64, 125, 250, 500, 1000, 2000, 4000, 8000, 16000]);
    assert_eq!(band_filter(0), FilterType::LowShelf);
    for band in 1..9 {
        assert_eq!(band_filter(band), FilterType::Peaking);
    }
    assert_eq!(band_filter(9), FilterType::HighShelf);
    for band in 0..10 {
        assert_eq!(band_frequency(band), EQ_FREQUENCIES[band]);
    }
}

#[test]
fn quality_factors() {
    assert_eq!(filter_q_milli(FilterType::Peaking), 1400);
    assert_eq!(filter_q_milli(FilterType::LowShelf), 707);
    assert_eq!(filter_q_milli(FilterType::HighShelf), 707);
}
